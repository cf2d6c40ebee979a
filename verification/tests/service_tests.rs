use royalnet::RoyalnetService;
use royalnet::service::ServiceError;

struct FailingFrontEnd {
    cause: String,
}

impl RoyalnetService for FailingFrontEnd {
    fn run(self) -> Result<(), ServiceError> {
        Err(ServiceError { message: self.cause })
    }
}

#[test]
fn a_service_reports_its_fatal_failure() {
    let service = FailingFrontEnd { cause: "rete irraggiungibile".to_string() };
    let failure = service.run().expect_err("this front end always fails");
    assert_eq!(failure, ServiceError { message: "rete irraggiungibile".to_string() });
}
