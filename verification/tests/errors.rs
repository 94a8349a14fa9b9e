use musicbrainz::{Error, ErrorKind};

#[test]
fn only_parse_and_internal_failures_are_bugs() {
    assert!(ErrorKind::ParseResponse.is_bug());
    assert!(ErrorKind::Internal.is_bug());
    assert!(!ErrorKind::Communication.is_bug());
    assert!(!ErrorKind::ServerError.is_bug());
}

#[test]
fn errors_render_with_their_tag() {
    assert_eq!(
        Error::new("no route", ErrorKind::Communication).to_string(),
        "[communication error]: no route\n"
    );
    assert_eq!(
        Error::new("slow down", ErrorKind::ServerError).to_string(),
        "[server error]: slow down\n"
    );
    assert_eq!(
        Error::new("bad url", ErrorKind::Internal).to_string(),
        "[internal error]: bad url\nThis might be a bug that should be reported upstream.\n"
    );
    assert_eq!(
        Error::parse_error("no title").to_string(),
        "[parse response error]: no title\nThis might be a bug that should be reported upstream.\n"
    );
}

#[test]
fn error_accessors() {
    let e = Error::parse_error("no title");
    assert_eq!(e.kind(), ErrorKind::ParseResponse);
    assert_eq!(e.message(), "no title");
    assert!(e.is_bug());
    let e = Error::new("", ErrorKind::ServerError);
    assert_eq!(e.message(), "");
    assert!(!e.is_bug());
}
