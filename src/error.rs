use vstd::prelude::*;

verus! {

/// The error that the service reports for a request it did not carry out,
/// with the HTTP status of the response that carried it.
#[derive(Clone, Debug)]
pub struct RequestError {
    pub error_type: Option<String>,
    pub message: Option<String>,
    pub code: Option<String>,
    pub param: Option<String>,
    pub decline_code: Option<String>,
    /// Not part of the service's error body: set from the response's status.
    pub http_status: u16,
}

/// Any failure of a call.
#[derive(Clone, Debug)]
pub enum Error {
    /// The service answered with a status outside 200..=299.
    Request(RequestError),
    /// No complete response was obtained.
    Transport(String),
    /// The request's parameters could not be encoded.
    Serialize(String),
    /// A successful response's body could not be decoded.
    Deserialize(String),
}

pub open spec fn opt_view(o: Option<String>) -> Option<Seq<char>> {
    match o {
        Some(s) => Some(s@),
        None => None,
    }
}

/// The start of the message of an error made up for an error body that could
/// not be decoded; the decoder's diagnostic follows it.
pub open spec fn fallback_prefix() -> Seq<char> {
    "failed to deserialize error: "@
}

/// `e` is the error made up for a response of status `status` whose error
/// body failed to decode with diagnostic `diag`: it holds only a message,
/// which carries the diagnostic, and the status.
pub open spec fn is_fallback_error(e: RequestError, status: u16, diag: Seq<char>) -> bool {
    &&& e.http_status == status
    &&& opt_view(e.message) == Some(fallback_prefix() + diag)
    &&& e.error_type is None
    &&& e.code is None
    &&& e.param is None
    &&& e.decline_code is None
}

/// `e` is what a response of status `status` yields, when decoding its body
/// as an error gave `decoded`.
pub open spec fn is_status_error(
    e: RequestError,
    status: u16,
    decoded: Result<RequestError, String>,
) -> bool {
    match decoded {
        Ok(d) => e == RequestError { http_status: status, ..d },
        Err(diag) => is_fallback_error(e, status, diag@),
    }
}

pub open spec fn is_success_status(status: u16) -> bool {
    200 <= status <= 299
}

/// `r` is the outcome of a response of status `status`, whose body decoded to
/// `decoded` as the success type and to `error_decoded` as an error.
pub open spec fn is_classified<T>(
    r: Result<T, Error>,
    status: u16,
    decoded: Result<T, String>,
    error_decoded: Result<RequestError, String>,
) -> bool {
    if is_success_status(status) {
        match decoded {
            Ok(v) => r == Ok::<T, Error>(v),
            Err(diag) => r == Err::<T, Error>(Error::Deserialize(diag)),
        }
    } else {
        match r {
            Err(Error::Request(e)) => is_status_error(e, status, error_decoded),
            _ => false,
        }
    }
}

/// Whether a response status counts as success.
pub fn is_success(status: u16) -> (r: bool)
    ensures
        r == is_success_status(status),
{
    200 <= status && status <= 299
}

/// The error a response of status `status` yields, given what decoding its
/// body as an error gave. A body that failed to decode still yields an error,
/// whose message carries the decoder's diagnostic.
pub fn status_error(status: u16, decoded: Result<RequestError, String>) -> (r: RequestError)
    ensures
        is_status_error(r, status, decoded),
{
    match decoded {
        Ok(e) => RequestError { http_status: status, ..e },
        Err(diag) => {
            let mut message = String::from_str("failed to deserialize error: ");
            message.append(diag.as_str());
            RequestError {
                error_type: None,
                message: Some(message),
                code: None,
                param: None,
                decline_code: None,
                http_status: status,
            }
        },
    }
}

/// Classifies a response by its status: in 200..=299 the body decoded as the
/// success type, or a decoding error; otherwise always a `Request` error that
/// carries the status.
pub fn classify<T>(
    status: u16,
    decoded: Result<T, String>,
    error_decoded: Result<RequestError, String>,
) -> (r: Result<T, Error>)
    ensures
        is_classified(r, status, decoded, error_decoded),
{
    if is_success(status) {
        match decoded {
            Ok(v) => Ok(v),
            Err(diag) => Err(Error::Deserialize(diag)),
        }
    } else {
        Err(Error::Request(status_error(status, error_decoded)))
    }
}

/// A response whose status is in 200..=299 and whose body decodes as the
/// success type yields the decoded value.
pub proof fn lemma_success_yields_value<T>(
    r: Result<T, Error>,
    status: u16,
    v: T,
    error_decoded: Result<RequestError, String>,
)
    requires
        is_success_status(status),
        is_classified(r, status, Ok(v), error_decoded),
    ensures
        r == Ok::<T, Error>(v),
{
}

/// A response whose status is outside 200..=299 always yields a `Request`
/// error, which carries that status, whatever its body holds.
pub proof fn lemma_failure_is_request_error<T>(
    r: Result<T, Error>,
    status: u16,
    decoded: Result<T, String>,
    error_decoded: Result<RequestError, String>,
)
    requires
        !is_success_status(status),
        is_classified(r, status, decoded, error_decoded),
    ensures
        r is Err,
        r->Err_0 is Request,
        r->Err_0->Request_0.http_status == status,
{
}

/// A response whose status is outside 200..=299 and whose body does not
/// decode as an error (an empty body, say) yields a `Request` error whose
/// message holds the decoder's diagnostic, and which carries that status.
pub proof fn lemma_undecodable_error_body<T>(
    r: Result<T, Error>,
    status: u16,
    decoded: Result<T, String>,
    diag: String,
)
    requires
        !is_success_status(status),
        is_classified(r, status, decoded, Err(diag)),
    ensures
        r is Err,
        r->Err_0 is Request,
        r->Err_0->Request_0.http_status == status,
        r->Err_0->Request_0.message is Some,
        ({
            let m = r->Err_0->Request_0.message->Some_0@;
            m.subrange(fallback_prefix().len() as int, m.len() as int) == diag@
        }),
{
    if let Err(Error::Request(e)) = r {
        let m = e.message->Some_0;
        assert(m@ == fallback_prefix() + diag@);
        assert(m@.subrange(fallback_prefix().len() as int, m@.len() as int) =~= diag@);
    }
}

} // verus!
