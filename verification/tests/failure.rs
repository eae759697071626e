use hello_http::failure::Failure;
use hello_http::request::Classification;

#[test]
fn only_a_failed_bind_is_fatal() {
    assert!(Failure::Bind.is_fatal());
    assert!(!Failure::Accept.is_fatal());
    assert!(!Failure::Read.is_fatal());
    assert!(!Failure::Write(Classification::Match).is_fatal());
    assert!(!Failure::Write(Classification::NoMatch).is_fatal());
    assert!(!Failure::Flush.is_fatal());
}

#[test]
fn each_fault_has_its_line() {
    assert_eq!(Failure::Bind.message(), "Failed to bind to port 8080");
    assert_eq!(Failure::Accept.message(), "Connection failed");
    assert_eq!(Failure::Read.message(), "Failed to read from stream");
    assert_eq!(Failure::Write(Classification::Match).message(), "Failed to write response");
    assert_eq!(Failure::Write(Classification::NoMatch).message(), "Failed to write 404 response");
    assert_eq!(Failure::Flush.message(), "Failed to flush stream");
}
