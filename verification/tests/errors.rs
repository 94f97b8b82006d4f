use sentiric_ai_pipeline_sdk::SdkError;

#[test]
fn errors_read_as_they_should() {
    let s = |text: &str| text.to_string();
    assert_eq!(
        SdkError::TlsConfigError(s("a")).message(),
        "TLS Configuration Error: a"
    );
    assert_eq!(
        SdkError::ConnectionError(s("b")).message(),
        "gRPC Connection Error: b"
    );
    assert_eq!(SdkError::Internal(s("c")).message(), "Internal SDK Error: c");
    assert_eq!(SdkError::InvalidArgument(s("d")).message(), "Invalid Argument: d");
}

#[test]
fn a_status_becomes_a_request_error() {
    let status = tonic::Status::unavailable("gateway down");
    let text = status.to_string();
    let error = SdkError::from(status);
    assert!(matches!(&error, SdkError::GrpcError(s) if s.message() == "gateway down"));
    assert_eq!(error.message(), format!("gRPC Request Error: {}", text));
    assert!(text.contains("gateway down"));
}
