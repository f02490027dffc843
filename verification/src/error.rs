//! What can go wrong, with its text held as `S`.
use vstd::prelude::*;

verus! {

/// A failure. The executable form holds its text as `String`; contracts speak
/// of the form that holds it as `Seq<char>`.
#[derive(Debug, PartialEq, Eq)]
pub enum Fault<S> {
    /// The request got no HTTP answer.
    NetworkError { url: S, message: S },
    /// The answer's status is not a success.
    HTTPErrorCode { url: S, status_code: u16, response_body: S },
    /// The answer is not the JSON document that was expected.
    JsonDeserializeError { url: S, body: S },
    /// An answer lacks a key.
    MissingKey { key: S, url: S },
    /// A key's value is of another type.
    InvalidKeyType { key: S, expected_type: S, url: S },
    /// A field holds a value that makes no sense.
    InvalidValue { url: S, field: S, err: S },
    /// The machine cannot do this.
    NotSupported(S),
    /// Any other failure.
    GenericError { error: S },
    /// The answer has no body.
    NoContent,
    /// The answer has no headers.
    NoHeader,
    /// The machine has no DPU to boot from.
    NoDpu,
    /// The machine is locked down.
    Lockdown,
    /// There is no free account left.
    TooManyUsers,
    /// There is no such account.
    UserNotFound(S),
    /// There is no such boot option.
    MissingBootOption(S),
    /// A local file cannot be read.
    FileError(S),
    /// The reply is not of the kind that was asked for.
    UnexpectedReply,
}

/// A failure, as it is returned.
pub type RedfishError = Fault<String>;

/// A failure, as contracts speak of it.
pub type ErrorView = Fault<Seq<char>>;

impl View for Fault<String> {
    type V = Fault<Seq<char>>;

    open spec fn view(&self) -> Fault<Seq<char>> {
        match *self {
            Fault::NetworkError { url, message } => Fault::NetworkError {
                url: url@,
                message: message@,
            },
            Fault::HTTPErrorCode { url, status_code, response_body } => Fault::HTTPErrorCode {
                url: url@,
                status_code,
                response_body: response_body@,
            },
            Fault::JsonDeserializeError { url, body } => Fault::JsonDeserializeError {
                url: url@,
                body: body@,
            },
            Fault::MissingKey { key, url } => Fault::MissingKey { key: key@, url: url@ },
            Fault::InvalidKeyType { key, expected_type, url } => Fault::InvalidKeyType {
                key: key@,
                expected_type: expected_type@,
                url: url@,
            },
            Fault::InvalidValue { url, field, err } => Fault::InvalidValue {
                url: url@,
                field: field@,
                err: err@,
            },
            Fault::NotSupported(s) => Fault::NotSupported(s@),
            Fault::GenericError { error } => Fault::GenericError { error: error@ },
            Fault::NoContent => Fault::NoContent,
            Fault::NoHeader => Fault::NoHeader,
            Fault::NoDpu => Fault::NoDpu,
            Fault::Lockdown => Fault::Lockdown,
            Fault::TooManyUsers => Fault::TooManyUsers,
            Fault::UserNotFound(s) => Fault::UserNotFound(s@),
            Fault::MissingBootOption(s) => Fault::MissingBootOption(s@),
            Fault::FileError(s) => Fault::FileError(s@),
            Fault::UnexpectedReply => Fault::UnexpectedReply,
        }
    }
}

impl Clone for Fault<String> {
    fn clone(&self) -> (r: Self)
        ensures
            r@ == self@,
    {
        match self {
            Fault::NetworkError { url, message } => Fault::NetworkError {
                url: url.clone(),
                message: message.clone(),
            },
            Fault::HTTPErrorCode { url, status_code, response_body } => Fault::HTTPErrorCode {
                url: url.clone(),
                status_code: *status_code,
                response_body: response_body.clone(),
            },
            Fault::JsonDeserializeError { url, body } => Fault::JsonDeserializeError {
                url: url.clone(),
                body: body.clone(),
            },
            Fault::MissingKey { key, url } => Fault::MissingKey {
                key: key.clone(),
                url: url.clone(),
            },
            Fault::InvalidKeyType { key, expected_type, url } => Fault::InvalidKeyType {
                key: key.clone(),
                expected_type: expected_type.clone(),
                url: url.clone(),
            },
            Fault::InvalidValue { url, field, err } => Fault::InvalidValue {
                url: url.clone(),
                field: field.clone(),
                err: err.clone(),
            },
            Fault::NotSupported(s) => Fault::NotSupported(s.clone()),
            Fault::GenericError { error } => Fault::GenericError { error: error.clone() },
            Fault::NoContent => Fault::NoContent,
            Fault::NoHeader => Fault::NoHeader,
            Fault::NoDpu => Fault::NoDpu,
            Fault::Lockdown => Fault::Lockdown,
            Fault::TooManyUsers => Fault::TooManyUsers,
            Fault::UserNotFound(s) => Fault::UserNotFound(s.clone()),
            Fault::MissingBootOption(s) => Fault::MissingBootOption(s.clone()),
            Fault::FileError(s) => Fault::FileError(s.clone()),
            Fault::UnexpectedReply => Fault::UnexpectedReply,
        }
    }
}

/// A result, as contracts speak of it.
pub open spec fn outcome<T: DeepView>(r: Result<T, RedfishError>) -> Result<T::V, ErrorView> {
    match r {
        Ok(v) => Ok(v.deep_view()),
        Err(e) => Err(e@),
    }
}

/// Whether a failure says that there is no such document.
pub open spec fn not_found(e: ErrorView) -> bool {
    e matches Fault::HTTPErrorCode { status_code, .. } && status_code == 404
}

/// Whether a failure says that there is no such document.
pub fn is_not_found(e: &RedfishError) -> (r: bool)
    ensures
        r == not_found(e@),
{
    match e {
        Fault::HTTPErrorCode { status_code, .. } => *status_code == 404,
        _ => false,
    }
}

/// The operation `what` is not supported.
pub fn not_supported(what: &str) -> (r: RedfishError)
    ensures
        r@ == ErrorView::NotSupported(what@),
{
    Fault::NotSupported(what.to_owned())
}

/// A failure described by `error` alone.
pub fn generic(error: &str) -> (r: RedfishError)
    ensures
        r@ == (ErrorView::GenericError { error: error@ }),
{
    Fault::GenericError { error: error.to_owned() }
}

/// `key` is missing in the answer from `url`.
pub fn missing_key(key: &str, url: &str) -> (r: RedfishError)
    ensures
        r@ == (ErrorView::MissingKey { key: key@, url: url@ }),
{
    Fault::MissingKey { key: key.to_owned(), url: url.to_owned() }
}

/// `key` in the answer from `url` is not of the type `expected_type`.
pub fn invalid_key_type(key: &str, expected_type: &str, url: &str) -> (r: RedfishError)
    ensures
        r@ == (ErrorView::InvalidKeyType {
            key: key@,
            expected_type: expected_type@,
            url: url@,
        }),
{
    Fault::InvalidKeyType {
        key: key.to_owned(),
        expected_type: expected_type.to_owned(),
        url: url.to_owned(),
    }
}

/// `field` in the answer from `url` holds a value that makes no sense, as `err`
/// says.
pub fn invalid_value(url: &str, field: &str, err: &str) -> (r: RedfishError)
    ensures
        r@ == (ErrorView::InvalidValue { url: url@, field: field@, err: err@ }),
{
    Fault::InvalidValue { url: url.to_owned(), field: field.to_owned(), err: err.to_owned() }
}

} // verus!
