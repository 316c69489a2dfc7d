use swagg::path::StatusVariant;
use swagg::status::ResponseStatus;

const KNOWN: [(u16, &str); 60] = [
    (100, "Continue"),
    (101, "Switching Protocols"),
    (102, "Processing"),
    (200, "Ok"),
    (201, "Created"),
    (202, "Accepted"),
    (203, "Non Authoritative Information"),
    (204, "No Content"),
    (205, "Reset Content"),
    (206, "Partial Content"),
    (207, "Multi Status"),
    (208, "Already Reported"),
    (226, "Im Used"),
    (300, "Multiple Choices"),
    (301, "Moved Permanently"),
    (302, "Found"),
    (303, "See Other"),
    (304, "Not Modified"),
    (305, "Use Proxy"),
    (307, "Temporary Redirect"),
    (308, "Permanent Redirect"),
    (400, "Bad Request"),
    (401, "Unauthorized"),
    (402, "Payment Required"),
    (403, "Forbidden"),
    (404, "Not Found"),
    (405, "Method Not Allowed"),
    (406, "Not Acceptable"),
    (407, "Proxy Authentication Required"),
    (408, "Request Timeout"),
    (409, "Conflict"),
    (410, "Gone"),
    (411, "Length Required"),
    (412, "Precondition Failed"),
    (413, "Payload Too Large"),
    (414, "Uri Too Long"),
    (415, "Unsupported Media Type"),
    (416, "Range Not Satisfiable"),
    (417, "Expectation Failed"),
    (418, "Im A Teapot"),
    (421, "Misdirected Request"),
    (422, "Unprocessable Entity"),
    (423, "Locked"),
    (424, "Failed Dependency"),
    (426, "Upgrade Required"),
    (428, "Precondition Required"),
    (429, "Too Many Requests"),
    (431, "Request Header Fields Too Large"),
    (451, "Unavailable For Legal Reasons"),
    (500, "Internal Server Error"),
    (501, "Not Implemented"),
    (502, "Bad Gateway"),
    (503, "Service Unavailable"),
    (504, "Gateway Timeout"),
    (505, "Http Version Not Supported"),
    (506, "Variant Also Negotiates"),
    (507, "Insufficient Storage"),
    (508, "Loop Detected"),
    (510, "Not Extended"),
    (511, "Network Authentication Required"),
];

#[test]
fn known_codes_have_their_names() {
    for (code, name) in KNOWN {
        let status = ResponseStatus::from_code(code).unwrap();
        assert_eq!(status.code(), code);
        assert_eq!(status.to_string(), name);
    }
}

#[test]
fn a_few_statuses_by_variant() {
    assert_eq!(ResponseStatus::Okay.code(), 200);
    assert_eq!(ResponseStatus::Okay.to_string(), "Ok");
    assert_eq!(ResponseStatus::NotFound.code(), 404);
    assert_eq!(ResponseStatus::NotFound.to_string(), "Not Found");
    assert_eq!(ResponseStatus::from_code(404), Some(ResponseStatus::NotFound));
    assert_eq!(ResponseStatus::from_code(511), Some(ResponseStatus::NetworkAuthenticationRequired));
}

#[test]
fn other_codes_name_no_status() {
    let known: Vec<u16> = KNOWN.iter().map(|(code, _)| *code).collect();
    let mut unknown = 0;
    for code in 0..=u16::MAX {
        if !known.contains(&code) {
            assert_eq!(ResponseStatus::from_code(code), None, "{}", code);
            unknown += 1;
        }
    }
    assert_eq!(unknown, 65536 - 60);
    assert_eq!(ResponseStatus::from_code(0), None);
    assert_eq!(ResponseStatus::from_code(99), None);
    assert_eq!(ResponseStatus::from_code(306), None);
    assert_eq!(ResponseStatus::from_code(600), None);
}

#[test]
fn every_status_gives_an_identifier_and_a_constant() {
    for (code, name) in KNOWN {
        let variant = StatusVariant {
            status: ResponseStatus::from_code(code).unwrap(),
            response_type_name: None,
            description: None,
            content_type: None,
            x_variant_name: None,
        };
        let identifier = name.replace(' ', "");
        let constant = name.to_uppercase().replace(' ', "_");
        assert_eq!(variant.name(), identifier);
        assert_eq!(
            variant.print_status_variant(),
            format!("Self::{} => StatusCode::{}", identifier, constant)
        );
    }
}

#[test]
fn constants_that_casing_could_get_wrong() {
    let expected = [
        (200, "OK"),
        (207, "MULTI_STATUS"),
        (226, "IM_USED"),
        (414, "URI_TOO_LONG"),
        (418, "IM_A_TEAPOT"),
        (505, "HTTP_VERSION_NOT_SUPPORTED"),
    ];
    for (code, constant) in expected {
        let variant = StatusVariant {
            status: ResponseStatus::from_code(code).unwrap(),
            response_type_name: None,
            description: None,
            content_type: None,
            x_variant_name: Some("X".to_string()),
        };
        assert_eq!(variant.print_status_variant(), format!("Self::X => StatusCode::{}", constant));
    }
}
