//! The errors of the SDK.
use tonic::Status;
use vstd::prelude::*;
use vstd::string::*;

verus! {

/// The status with which a gRPC call ends.
#[verifier::external_type_specification]
#[verifier::external_body]
pub struct ExStatus(tonic::Status);

/// The text that `tonic::Status` displays as.
pub uninterp spec fn status_text(status: tonic::Status) -> Seq<char>;

/// Calls `to_string` on a `tonic::Status`. Claimed of it: the text is a function of the status
/// alone (its code, message, details and metadata, in the order in which they are held).
#[verifier::external_body]
fn display_status(status: &Status) -> (r: String)
    ensures
        r@ == status_text(*status),
{
    status.to_string()
}

/// Why an operation of the SDK failed.
#[derive(Debug)]
pub enum SdkError {
    TlsConfigError(String),
    ConnectionError(String),
    GrpcError(Status),
    Internal(String),
    InvalidArgument(String),
}

/// An error as a model value.
pub enum ErrorView {
    TlsConfigError(Seq<char>),
    ConnectionError(Seq<char>),
    GrpcError(Status),
    Internal(Seq<char>),
    InvalidArgument(Seq<char>),
}

impl View for SdkError {
    type V = ErrorView;

    open spec fn view(&self) -> ErrorView {
        match self {
            SdkError::TlsConfigError(s) => ErrorView::TlsConfigError(s@),
            SdkError::ConnectionError(s) => ErrorView::ConnectionError(s@),
            SdkError::GrpcError(status) => ErrorView::GrpcError(*status),
            SdkError::Internal(s) => ErrorView::Internal(s@),
            SdkError::InvalidArgument(s) => ErrorView::InvalidArgument(s@),
        }
    }
}

impl ErrorView {
    /// The text that an error is reported with.
    pub open spec fn message(self) -> Seq<char> {
        match self {
            ErrorView::TlsConfigError(s) => "TLS Configuration Error: "@ + s,
            ErrorView::ConnectionError(s) => "gRPC Connection Error: "@ + s,
            ErrorView::GrpcError(status) => "gRPC Request Error: "@ + status_text(status),
            ErrorView::Internal(s) => "Internal SDK Error: "@ + s,
            ErrorView::InvalidArgument(s) => "Invalid Argument: "@ + s,
        }
    }
}

/// The outcome of an operation, as a model value.
pub open spec fn outcome<T>(r: Result<T, SdkError>) -> Result<T, ErrorView> {
    match r {
        Ok(t) => Ok(t),
        Err(e) => Err(e@),
    }
}

impl SdkError {
    /// The text that this error is reported with.
    pub fn message(&self) -> (r: String)
        ensures
            r@ == self@.message(),
    {
        match self {
            SdkError::TlsConfigError(s) => "TLS Configuration Error: ".to_string().concat(s.as_str()),
            SdkError::ConnectionError(s) => "gRPC Connection Error: ".to_string().concat(s.as_str()),
            SdkError::GrpcError(status) => "gRPC Request Error: ".to_string().concat(
                display_status(status).as_str(),
            ),
            SdkError::Internal(s) => "Internal SDK Error: ".to_string().concat(s.as_str()),
            SdkError::InvalidArgument(s) => "Invalid Argument: ".to_string().concat(s.as_str()),
        }
    }
}

impl From<Status> for SdkError {
    fn from(status: Status) -> (r: SdkError) {
        SdkError::GrpcError(status)
    }
}

impl vstd::std_specs::convert::FromSpecImpl<Status> for SdkError {
    open spec fn obeys_from_spec() -> bool {
        true
    }

    open spec fn from_spec(status: Status) -> SdkError {
        SdkError::GrpcError(status)
    }
}

/// A model error is of the kind of the error and holds its reason.
pub proof fn lemma_error_view(e: SdkError)
    ensures
        e matches SdkError::TlsConfigError(s) ==> e@ == ErrorView::TlsConfigError(s@),
        e matches SdkError::ConnectionError(s) ==> e@ == ErrorView::ConnectionError(s@),
        e matches SdkError::GrpcError(status) ==> e@ == ErrorView::GrpcError(status),
        e matches SdkError::Internal(s) ==> e@ == ErrorView::Internal(s@),
        e matches SdkError::InvalidArgument(s) ==> e@ == ErrorView::InvalidArgument(s@),
{
}

/// A model outcome is a success with the same value, or the error's model value.
pub proof fn lemma_outcome<T>(r: Result<T, SdkError>)
    ensures
        r matches Ok(t) ==> outcome(r) == Ok::<T, ErrorView>(t),
        r matches Err(e) ==> outcome(r) == Err::<T, ErrorView>(e@),
{
}

/// The reason of an error: the text that it was made with, or the text of its status.
pub open spec fn reason(e: ErrorView) -> Seq<char> {
    match e {
        ErrorView::TlsConfigError(s) => s,
        ErrorView::ConnectionError(s) => s,
        ErrorView::GrpcError(status) => status_text(status),
        ErrorView::Internal(s) => s,
        ErrorView::InvalidArgument(s) => s,
    }
}

/// The text that an error is reported with is a label for its kind followed by its reason, whole and
/// unaltered: two errors of one kind are reported alike only if their reasons are the same.
pub proof fn lemma_message_ends_with_reason(a: ErrorView, b: ErrorView)
    ensures
        reason(a).is_suffix_of(a.message()),
        a is TlsConfigError ==> a.message() == "TLS Configuration Error: "@ + reason(a),
        a is ConnectionError ==> a.message() == "gRPC Connection Error: "@ + reason(a),
        a is GrpcError ==> a.message() == "gRPC Request Error: "@ + reason(a),
        a is Internal ==> a.message() == "Internal SDK Error: "@ + reason(a),
        a is InvalidArgument ==> a.message() == "Invalid Argument: "@ + reason(a),
        a is Internal && b is Internal && a.message() == b.message() ==> a == b,
        a is TlsConfigError && b is TlsConfigError && a.message() == b.message() ==> a == b,
        a is ConnectionError && b is ConnectionError && a.message() == b.message() ==> a == b,
        a is InvalidArgument && b is InvalidArgument && a.message() == b.message() ==> a == b,
{
    let n = a.message().len() - reason(a).len();
    let m = b.message().len() - reason(b).len();
    assert(a.message().skip(n) =~= reason(a));
    assert(b.message().skip(m) =~= reason(b));
    assert(a.message().subrange(n, a.message().len() as int) =~= reason(a));
}

/// A failed call is an error with the status as it came.
pub proof fn lemma_status_is_kept(status: Status)
    ensures
        <SdkError as vstd::std_specs::convert::FromSpec<Status>>::from_spec(status)
            == SdkError::GrpcError(status),
{
}

}
