//! HTTP response statuses.
//!
//! A status is known by its numeric code and by its name, a few words separated
//! by single spaces. Identifiers are derived from the name alone.

use vstd::prelude::*;
use vstd::string::*;

verus! {

/// The registered HTTP response statuses.
#[derive(Clone, Copy, Debug, PartialEq, Eq, Structural)]
pub enum ResponseStatus {
    /// 100, "Continue"
    Continue,
    /// 101, "Switching Protocols"
    SwitchingProtocols,
    /// 102, "Processing"
    Processing,
    /// 200, "Ok"
    Okay,
    /// 201, "Created"
    Created,
    /// 202, "Accepted"
    Accepted,
    /// 203, "Non Authoritative Information"
    NonAuthoritativeInformation,
    /// 204, "No Content"
    NoContent,
    /// 205, "Reset Content"
    ResetContent,
    /// 206, "Partial Content"
    PartialContent,
    /// 207, "Multi Status"
    MultiStatus,
    /// 208, "Already Reported"
    AlreadyReported,
    /// 226, "Im Used"
    ImUsed,
    /// 300, "Multiple Choices"
    MultipleChoices,
    /// 301, "Moved Permanently"
    MovedPermanently,
    /// 302, "Found"
    Found,
    /// 303, "See Other"
    SeeOther,
    /// 304, "Not Modified"
    NotModified,
    /// 305, "Use Proxy"
    UseProxy,
    /// 307, "Temporary Redirect"
    TemporaryRedirect,
    /// 308, "Permanent Redirect"
    PermanentRedirect,
    /// 400, "Bad Request"
    BadRequest,
    /// 401, "Unauthorized"
    Unauthorized,
    /// 402, "Payment Required"
    PaymentRequired,
    /// 403, "Forbidden"
    Forbidden,
    /// 404, "Not Found"
    NotFound,
    /// 405, "Method Not Allowed"
    MethodNotAllowed,
    /// 406, "Not Acceptable"
    NotAcceptable,
    /// 407, "Proxy Authentication Required"
    ProxyAuthenticationRequired,
    /// 408, "Request Timeout"
    RequestTimeout,
    /// 409, "Conflict"
    Conflict,
    /// 410, "Gone"
    Gone,
    /// 411, "Length Required"
    LengthRequired,
    /// 412, "Precondition Failed"
    PreconditionFailed,
    /// 413, "Payload Too Large"
    PayloadTooLarge,
    /// 414, "Uri Too Long"
    UriTooLong,
    /// 415, "Unsupported Media Type"
    UnsupportedMediaType,
    /// 416, "Range Not Satisfiable"
    RangeNotSatisfiable,
    /// 417, "Expectation Failed"
    ExpectationFailed,
    /// 418, "Im A Teapot"
    ImATeapot,
    /// 421, "Misdirected Request"
    MisdirectedRequest,
    /// 422, "Unprocessable Entity"
    UnprocessableEntity,
    /// 423, "Locked"
    Locked,
    /// 424, "Failed Dependency"
    FailedDependency,
    /// 426, "Upgrade Required"
    UpgradeRequired,
    /// 428, "Precondition Required"
    PreconditionRequired,
    /// 429, "Too Many Requests"
    TooManyRequests,
    /// 431, "Request Header Fields Too Large"
    RequestHeaderFieldsTooLarge,
    /// 451, "Unavailable For Legal Reasons"
    UnavailableForLegalReasons,
    /// 500, "Internal Server Error"
    InternalServerError,
    /// 501, "Not Implemented"
    NotImplemented,
    /// 502, "Bad Gateway"
    BadGateway,
    /// 503, "Service Unavailable"
    ServiceUnavailable,
    /// 504, "Gateway Timeout"
    GatewayTimeout,
    /// 505, "Http Version Not Supported"
    HttpVersionNotSupported,
    /// 506, "Variant Also Negotiates"
    VariantAlsoNegotiates,
    /// 507, "Insufficient Storage"
    InsufficientStorage,
    /// 508, "Loop Detected"
    LoopDetected,
    /// 510, "Not Extended"
    NotExtended,
    /// 511, "Network Authentication Required"
    NetworkAuthenticationRequired,
}

impl ResponseStatus {
    /// The numeric code of the status.
    pub open spec fn spec_code(self) -> u16 {
        match self {
            ResponseStatus::Continue => 100,
            ResponseStatus::SwitchingProtocols => 101,
            ResponseStatus::Processing => 102,
            ResponseStatus::Okay => 200,
            ResponseStatus::Created => 201,
            ResponseStatus::Accepted => 202,
            ResponseStatus::NonAuthoritativeInformation => 203,
            ResponseStatus::NoContent => 204,
            ResponseStatus::ResetContent => 205,
            ResponseStatus::PartialContent => 206,
            ResponseStatus::MultiStatus => 207,
            ResponseStatus::AlreadyReported => 208,
            ResponseStatus::ImUsed => 226,
            ResponseStatus::MultipleChoices => 300,
            ResponseStatus::MovedPermanently => 301,
            ResponseStatus::Found => 302,
            ResponseStatus::SeeOther => 303,
            ResponseStatus::NotModified => 304,
            ResponseStatus::UseProxy => 305,
            ResponseStatus::TemporaryRedirect => 307,
            ResponseStatus::PermanentRedirect => 308,
            ResponseStatus::BadRequest => 400,
            ResponseStatus::Unauthorized => 401,
            ResponseStatus::PaymentRequired => 402,
            ResponseStatus::Forbidden => 403,
            ResponseStatus::NotFound => 404,
            ResponseStatus::MethodNotAllowed => 405,
            ResponseStatus::NotAcceptable => 406,
            ResponseStatus::ProxyAuthenticationRequired => 407,
            ResponseStatus::RequestTimeout => 408,
            ResponseStatus::Conflict => 409,
            ResponseStatus::Gone => 410,
            ResponseStatus::LengthRequired => 411,
            ResponseStatus::PreconditionFailed => 412,
            ResponseStatus::PayloadTooLarge => 413,
            ResponseStatus::UriTooLong => 414,
            ResponseStatus::UnsupportedMediaType => 415,
            ResponseStatus::RangeNotSatisfiable => 416,
            ResponseStatus::ExpectationFailed => 417,
            ResponseStatus::ImATeapot => 418,
            ResponseStatus::MisdirectedRequest => 421,
            ResponseStatus::UnprocessableEntity => 422,
            ResponseStatus::Locked => 423,
            ResponseStatus::FailedDependency => 424,
            ResponseStatus::UpgradeRequired => 426,
            ResponseStatus::PreconditionRequired => 428,
            ResponseStatus::TooManyRequests => 429,
            ResponseStatus::RequestHeaderFieldsTooLarge => 431,
            ResponseStatus::UnavailableForLegalReasons => 451,
            ResponseStatus::InternalServerError => 500,
            ResponseStatus::NotImplemented => 501,
            ResponseStatus::BadGateway => 502,
            ResponseStatus::ServiceUnavailable => 503,
            ResponseStatus::GatewayTimeout => 504,
            ResponseStatus::HttpVersionNotSupported => 505,
            ResponseStatus::VariantAlsoNegotiates => 506,
            ResponseStatus::InsufficientStorage => 507,
            ResponseStatus::LoopDetected => 508,
            ResponseStatus::NotExtended => 510,
            ResponseStatus::NetworkAuthenticationRequired => 511,
        }
    }

    /// The name of the status: its words, capitalised, with one space between
    /// them.
    pub open spec fn text(self) -> Seq<char> {
        match self {
            ResponseStatus::Continue => "Continue"@,
            ResponseStatus::SwitchingProtocols => "Switching Protocols"@,
            ResponseStatus::Processing => "Processing"@,
            ResponseStatus::Okay => "Ok"@,
            ResponseStatus::Created => "Created"@,
            ResponseStatus::Accepted => "Accepted"@,
            ResponseStatus::NonAuthoritativeInformation => "Non Authoritative Information"@,
            ResponseStatus::NoContent => "No Content"@,
            ResponseStatus::ResetContent => "Reset Content"@,
            ResponseStatus::PartialContent => "Partial Content"@,
            ResponseStatus::MultiStatus => "Multi Status"@,
            ResponseStatus::AlreadyReported => "Already Reported"@,
            ResponseStatus::ImUsed => "Im Used"@,
            ResponseStatus::MultipleChoices => "Multiple Choices"@,
            ResponseStatus::MovedPermanently => "Moved Permanently"@,
            ResponseStatus::Found => "Found"@,
            ResponseStatus::SeeOther => "See Other"@,
            ResponseStatus::NotModified => "Not Modified"@,
            ResponseStatus::UseProxy => "Use Proxy"@,
            ResponseStatus::TemporaryRedirect => "Temporary Redirect"@,
            ResponseStatus::PermanentRedirect => "Permanent Redirect"@,
            ResponseStatus::BadRequest => "Bad Request"@,
            ResponseStatus::Unauthorized => "Unauthorized"@,
            ResponseStatus::PaymentRequired => "Payment Required"@,
            ResponseStatus::Forbidden => "Forbidden"@,
            ResponseStatus::NotFound => "Not Found"@,
            ResponseStatus::MethodNotAllowed => "Method Not Allowed"@,
            ResponseStatus::NotAcceptable => "Not Acceptable"@,
            ResponseStatus::ProxyAuthenticationRequired => "Proxy Authentication Required"@,
            ResponseStatus::RequestTimeout => "Request Timeout"@,
            ResponseStatus::Conflict => "Conflict"@,
            ResponseStatus::Gone => "Gone"@,
            ResponseStatus::LengthRequired => "Length Required"@,
            ResponseStatus::PreconditionFailed => "Precondition Failed"@,
            ResponseStatus::PayloadTooLarge => "Payload Too Large"@,
            ResponseStatus::UriTooLong => "Uri Too Long"@,
            ResponseStatus::UnsupportedMediaType => "Unsupported Media Type"@,
            ResponseStatus::RangeNotSatisfiable => "Range Not Satisfiable"@,
            ResponseStatus::ExpectationFailed => "Expectation Failed"@,
            ResponseStatus::ImATeapot => "Im A Teapot"@,
            ResponseStatus::MisdirectedRequest => "Misdirected Request"@,
            ResponseStatus::UnprocessableEntity => "Unprocessable Entity"@,
            ResponseStatus::Locked => "Locked"@,
            ResponseStatus::FailedDependency => "Failed Dependency"@,
            ResponseStatus::UpgradeRequired => "Upgrade Required"@,
            ResponseStatus::PreconditionRequired => "Precondition Required"@,
            ResponseStatus::TooManyRequests => "Too Many Requests"@,
            ResponseStatus::RequestHeaderFieldsTooLarge => "Request Header Fields Too Large"@,
            ResponseStatus::UnavailableForLegalReasons => "Unavailable For Legal Reasons"@,
            ResponseStatus::InternalServerError => "Internal Server Error"@,
            ResponseStatus::NotImplemented => "Not Implemented"@,
            ResponseStatus::BadGateway => "Bad Gateway"@,
            ResponseStatus::ServiceUnavailable => "Service Unavailable"@,
            ResponseStatus::GatewayTimeout => "Gateway Timeout"@,
            ResponseStatus::HttpVersionNotSupported => "Http Version Not Supported"@,
            ResponseStatus::VariantAlsoNegotiates => "Variant Also Negotiates"@,
            ResponseStatus::InsufficientStorage => "Insufficient Storage"@,
            ResponseStatus::LoopDetected => "Loop Detected"@,
            ResponseStatus::NotExtended => "Not Extended"@,
            ResponseStatus::NetworkAuthenticationRequired => "Network Authentication Required"@,
        }
    }

    /// The numeric code of the status.
    #[verifier::when_used_as_spec(spec_code)]
    pub fn code(self) -> (code: u16)
        ensures
            code == self.spec_code(),
    {
        match self {
            ResponseStatus::Continue => 100,
            ResponseStatus::SwitchingProtocols => 101,
            ResponseStatus::Processing => 102,
            ResponseStatus::Okay => 200,
            ResponseStatus::Created => 201,
            ResponseStatus::Accepted => 202,
            ResponseStatus::NonAuthoritativeInformation => 203,
            ResponseStatus::NoContent => 204,
            ResponseStatus::ResetContent => 205,
            ResponseStatus::PartialContent => 206,
            ResponseStatus::MultiStatus => 207,
            ResponseStatus::AlreadyReported => 208,
            ResponseStatus::ImUsed => 226,
            ResponseStatus::MultipleChoices => 300,
            ResponseStatus::MovedPermanently => 301,
            ResponseStatus::Found => 302,
            ResponseStatus::SeeOther => 303,
            ResponseStatus::NotModified => 304,
            ResponseStatus::UseProxy => 305,
            ResponseStatus::TemporaryRedirect => 307,
            ResponseStatus::PermanentRedirect => 308,
            ResponseStatus::BadRequest => 400,
            ResponseStatus::Unauthorized => 401,
            ResponseStatus::PaymentRequired => 402,
            ResponseStatus::Forbidden => 403,
            ResponseStatus::NotFound => 404,
            ResponseStatus::MethodNotAllowed => 405,
            ResponseStatus::NotAcceptable => 406,
            ResponseStatus::ProxyAuthenticationRequired => 407,
            ResponseStatus::RequestTimeout => 408,
            ResponseStatus::Conflict => 409,
            ResponseStatus::Gone => 410,
            ResponseStatus::LengthRequired => 411,
            ResponseStatus::PreconditionFailed => 412,
            ResponseStatus::PayloadTooLarge => 413,
            ResponseStatus::UriTooLong => 414,
            ResponseStatus::UnsupportedMediaType => 415,
            ResponseStatus::RangeNotSatisfiable => 416,
            ResponseStatus::ExpectationFailed => 417,
            ResponseStatus::ImATeapot => 418,
            ResponseStatus::MisdirectedRequest => 421,
            ResponseStatus::UnprocessableEntity => 422,
            ResponseStatus::Locked => 423,
            ResponseStatus::FailedDependency => 424,
            ResponseStatus::UpgradeRequired => 426,
            ResponseStatus::PreconditionRequired => 428,
            ResponseStatus::TooManyRequests => 429,
            ResponseStatus::RequestHeaderFieldsTooLarge => 431,
            ResponseStatus::UnavailableForLegalReasons => 451,
            ResponseStatus::InternalServerError => 500,
            ResponseStatus::NotImplemented => 501,
            ResponseStatus::BadGateway => 502,
            ResponseStatus::ServiceUnavailable => 503,
            ResponseStatus::GatewayTimeout => 504,
            ResponseStatus::HttpVersionNotSupported => 505,
            ResponseStatus::VariantAlsoNegotiates => 506,
            ResponseStatus::InsufficientStorage => 507,
            ResponseStatus::LoopDetected => 508,
            ResponseStatus::NotExtended => 510,
            ResponseStatus::NetworkAuthenticationRequired => 511,
        }
    }

    /// The status with the given code, if the code is a registered one: a status
    /// is returned exactly if it is the one with that code.
    pub fn from_code(code: u16) -> (status: Option<ResponseStatus>)
        ensures
            forall|s: ResponseStatus|
                status == Some(s) <==> #[trigger] s.spec_code() == code,
    {
        match code {
            100 => Some(ResponseStatus::Continue),
            101 => Some(ResponseStatus::SwitchingProtocols),
            102 => Some(ResponseStatus::Processing),
            200 => Some(ResponseStatus::Okay),
            201 => Some(ResponseStatus::Created),
            202 => Some(ResponseStatus::Accepted),
            203 => Some(ResponseStatus::NonAuthoritativeInformation),
            204 => Some(ResponseStatus::NoContent),
            205 => Some(ResponseStatus::ResetContent),
            206 => Some(ResponseStatus::PartialContent),
            207 => Some(ResponseStatus::MultiStatus),
            208 => Some(ResponseStatus::AlreadyReported),
            226 => Some(ResponseStatus::ImUsed),
            300 => Some(ResponseStatus::MultipleChoices),
            301 => Some(ResponseStatus::MovedPermanently),
            302 => Some(ResponseStatus::Found),
            303 => Some(ResponseStatus::SeeOther),
            304 => Some(ResponseStatus::NotModified),
            305 => Some(ResponseStatus::UseProxy),
            307 => Some(ResponseStatus::TemporaryRedirect),
            308 => Some(ResponseStatus::PermanentRedirect),
            400 => Some(ResponseStatus::BadRequest),
            401 => Some(ResponseStatus::Unauthorized),
            402 => Some(ResponseStatus::PaymentRequired),
            403 => Some(ResponseStatus::Forbidden),
            404 => Some(ResponseStatus::NotFound),
            405 => Some(ResponseStatus::MethodNotAllowed),
            406 => Some(ResponseStatus::NotAcceptable),
            407 => Some(ResponseStatus::ProxyAuthenticationRequired),
            408 => Some(ResponseStatus::RequestTimeout),
            409 => Some(ResponseStatus::Conflict),
            410 => Some(ResponseStatus::Gone),
            411 => Some(ResponseStatus::LengthRequired),
            412 => Some(ResponseStatus::PreconditionFailed),
            413 => Some(ResponseStatus::PayloadTooLarge),
            414 => Some(ResponseStatus::UriTooLong),
            415 => Some(ResponseStatus::UnsupportedMediaType),
            416 => Some(ResponseStatus::RangeNotSatisfiable),
            417 => Some(ResponseStatus::ExpectationFailed),
            418 => Some(ResponseStatus::ImATeapot),
            421 => Some(ResponseStatus::MisdirectedRequest),
            422 => Some(ResponseStatus::UnprocessableEntity),
            423 => Some(ResponseStatus::Locked),
            424 => Some(ResponseStatus::FailedDependency),
            426 => Some(ResponseStatus::UpgradeRequired),
            428 => Some(ResponseStatus::PreconditionRequired),
            429 => Some(ResponseStatus::TooManyRequests),
            431 => Some(ResponseStatus::RequestHeaderFieldsTooLarge),
            451 => Some(ResponseStatus::UnavailableForLegalReasons),
            500 => Some(ResponseStatus::InternalServerError),
            501 => Some(ResponseStatus::NotImplemented),
            502 => Some(ResponseStatus::BadGateway),
            503 => Some(ResponseStatus::ServiceUnavailable),
            504 => Some(ResponseStatus::GatewayTimeout),
            505 => Some(ResponseStatus::HttpVersionNotSupported),
            506 => Some(ResponseStatus::VariantAlsoNegotiates),
            507 => Some(ResponseStatus::InsufficientStorage),
            508 => Some(ResponseStatus::LoopDetected),
            510 => Some(ResponseStatus::NotExtended),
            511 => Some(ResponseStatus::NetworkAuthenticationRequired),
            _ => None,
        }
    }

    /// The name of the status.
    pub fn to_string(&self) -> (name: String)
        ensures
            name@ == self.text(),
    {
        match self {
            ResponseStatus::Continue => String::from_str("Continue"),
            ResponseStatus::SwitchingProtocols => String::from_str("Switching Protocols"),
            ResponseStatus::Processing => String::from_str("Processing"),
            ResponseStatus::Okay => String::from_str("Ok"),
            ResponseStatus::Created => String::from_str("Created"),
            ResponseStatus::Accepted => String::from_str("Accepted"),
            ResponseStatus::NonAuthoritativeInformation => String::from_str("Non Authoritative Information"),
            ResponseStatus::NoContent => String::from_str("No Content"),
            ResponseStatus::ResetContent => String::from_str("Reset Content"),
            ResponseStatus::PartialContent => String::from_str("Partial Content"),
            ResponseStatus::MultiStatus => String::from_str("Multi Status"),
            ResponseStatus::AlreadyReported => String::from_str("Already Reported"),
            ResponseStatus::ImUsed => String::from_str("Im Used"),
            ResponseStatus::MultipleChoices => String::from_str("Multiple Choices"),
            ResponseStatus::MovedPermanently => String::from_str("Moved Permanently"),
            ResponseStatus::Found => String::from_str("Found"),
            ResponseStatus::SeeOther => String::from_str("See Other"),
            ResponseStatus::NotModified => String::from_str("Not Modified"),
            ResponseStatus::UseProxy => String::from_str("Use Proxy"),
            ResponseStatus::TemporaryRedirect => String::from_str("Temporary Redirect"),
            ResponseStatus::PermanentRedirect => String::from_str("Permanent Redirect"),
            ResponseStatus::BadRequest => String::from_str("Bad Request"),
            ResponseStatus::Unauthorized => String::from_str("Unauthorized"),
            ResponseStatus::PaymentRequired => String::from_str("Payment Required"),
            ResponseStatus::Forbidden => String::from_str("Forbidden"),
            ResponseStatus::NotFound => String::from_str("Not Found"),
            ResponseStatus::MethodNotAllowed => String::from_str("Method Not Allowed"),
            ResponseStatus::NotAcceptable => String::from_str("Not Acceptable"),
            ResponseStatus::ProxyAuthenticationRequired => String::from_str("Proxy Authentication Required"),
            ResponseStatus::RequestTimeout => String::from_str("Request Timeout"),
            ResponseStatus::Conflict => String::from_str("Conflict"),
            ResponseStatus::Gone => String::from_str("Gone"),
            ResponseStatus::LengthRequired => String::from_str("Length Required"),
            ResponseStatus::PreconditionFailed => String::from_str("Precondition Failed"),
            ResponseStatus::PayloadTooLarge => String::from_str("Payload Too Large"),
            ResponseStatus::UriTooLong => String::from_str("Uri Too Long"),
            ResponseStatus::UnsupportedMediaType => String::from_str("Unsupported Media Type"),
            ResponseStatus::RangeNotSatisfiable => String::from_str("Range Not Satisfiable"),
            ResponseStatus::ExpectationFailed => String::from_str("Expectation Failed"),
            ResponseStatus::ImATeapot => String::from_str("Im A Teapot"),
            ResponseStatus::MisdirectedRequest => String::from_str("Misdirected Request"),
            ResponseStatus::UnprocessableEntity => String::from_str("Unprocessable Entity"),
            ResponseStatus::Locked => String::from_str("Locked"),
            ResponseStatus::FailedDependency => String::from_str("Failed Dependency"),
            ResponseStatus::UpgradeRequired => String::from_str("Upgrade Required"),
            ResponseStatus::PreconditionRequired => String::from_str("Precondition Required"),
            ResponseStatus::TooManyRequests => String::from_str("Too Many Requests"),
            ResponseStatus::RequestHeaderFieldsTooLarge => String::from_str("Request Header Fields Too Large"),
            ResponseStatus::UnavailableForLegalReasons => String::from_str("Unavailable For Legal Reasons"),
            ResponseStatus::InternalServerError => String::from_str("Internal Server Error"),
            ResponseStatus::NotImplemented => String::from_str("Not Implemented"),
            ResponseStatus::BadGateway => String::from_str("Bad Gateway"),
            ResponseStatus::ServiceUnavailable => String::from_str("Service Unavailable"),
            ResponseStatus::GatewayTimeout => String::from_str("Gateway Timeout"),
            ResponseStatus::HttpVersionNotSupported => String::from_str("Http Version Not Supported"),
            ResponseStatus::VariantAlsoNegotiates => String::from_str("Variant Also Negotiates"),
            ResponseStatus::InsufficientStorage => String::from_str("Insufficient Storage"),
            ResponseStatus::LoopDetected => String::from_str("Loop Detected"),
            ResponseStatus::NotExtended => String::from_str("Not Extended"),
            ResponseStatus::NetworkAuthenticationRequired => String::from_str("Network Authentication Required"),
        }
    }
}

} // verus!
