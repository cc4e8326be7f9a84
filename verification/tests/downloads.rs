use pithos::download::{download_headers, DownloadHeaders, DownloadQuery, TypeHint};
use pithos::errors::PithosError;
use pithos::file_extensions::{ExtensionError, FileExt};
use pithos::ident::FileId;

fn id() -> FileId {
    FileId::from_u128(0x67e5504410b1426f9247bb680e5fe0c8)
}

#[test]
fn a_media_type_is_a_type_hint() {
    assert_eq!(TypeHint::parse("text/plain").unwrap().as_str(), "text/plain");
    assert_eq!(
        TypeHint::parse("text/plain; charset=utf-8").unwrap().as_str(),
        "text/plain; charset=utf-8"
    );
    assert_eq!(TypeHint::parse("*/*").unwrap().as_str(), "*/*");
}

#[test]
fn a_type_hint_is_shown_as_the_mime_crate_shows_it() {
    for raw in ["IMAGE/PNG", "application/vnd.api+json", "text/html;charset=UTF-8"] {
        let expected = raw.parse::<mime::Mime>().unwrap().to_string();
        assert_eq!(TypeHint::parse(raw).unwrap().as_str(), expected);
    }
    assert_eq!(TypeHint::parse("IMAGE/PNG").unwrap().as_str(), "image/png");
}

#[test]
fn what_is_no_media_type_is_an_invalid_query() {
    assert_eq!(TypeHint::parse("plain"), Err(PithosError::InvalidQuery(String::from("plain"))));
    assert_eq!(TypeHint::parse(""), Err(PithosError::InvalidQuery(String::new())));
    assert_eq!(TypeHint::parse("a b/c"), Err(PithosError::InvalidQuery(String::from("a b/c"))));
}

#[test]
fn a_hint_is_made_of_what_the_parser_answered() {
    assert_eq!(
        TypeHint::from_parsed("TEXT/PLAIN", Some(String::from("text/plain"))).unwrap().as_str(),
        "text/plain"
    );
    assert_eq!(
        TypeHint::from_parsed("nonsense", None),
        Err(PithosError::InvalidQuery(String::from("nonsense")))
    );
}

#[test]
fn a_query_may_lack_both_hints() {
    let query = DownloadQuery::parse(None, None).unwrap();
    assert!(query.type_hint.is_none());
    assert!(query.ext_hint.is_none());
}

#[test]
fn a_query_holds_the_hints_that_were_given() {
    let query = DownloadQuery::parse(Some("image/png"), Some(".png")).unwrap();
    assert_eq!(query.type_hint.unwrap().as_str(), "image/png");
    assert_eq!(query.ext_hint.unwrap().0, ".png");
}

#[test]
fn a_bad_extension_hint_names_its_violation() {
    let error = DownloadQuery::parse(Some("image/png"), Some("png")).unwrap_err();
    assert_eq!(error, PithosError::InvalidExtension(ExtensionError::DoesNotStartWithDot('p')));
    assert_eq!(error.status_code(), 400);
    assert!(error.message().contains("expected first character of file extension to be a dot"));
}

#[test]
fn the_type_hint_is_judged_first() {
    let error = DownloadQuery::parse(Some("nonsense"), Some("png")).unwrap_err();
    assert_eq!(error, PithosError::InvalidQuery(String::from("nonsense")));
}

#[test]
fn headers_without_hints() {
    let query = DownloadQuery { type_hint: None, ext_hint: None };
    assert_eq!(
        download_headers(42, &query, id()),
        DownloadHeaders { content_length: 42, content_type: None, content_disposition: None }
    );
}

#[test]
fn headers_with_a_type_hint() {
    let query = DownloadQuery::parse(Some("image/png"), None).unwrap();
    assert_eq!(
        download_headers(7, &query, id()),
        DownloadHeaders {
            content_length: 7,
            content_type: Some(String::from("image/png")),
            content_disposition: Some(String::from("inline")),
        }
    );
}

#[test]
fn headers_with_an_extension_hint() {
    let query = DownloadQuery::parse(None, Some(".tar.gz")).unwrap();
    assert_eq!(
        download_headers(0, &query, id()),
        DownloadHeaders {
            content_length: 0,
            content_type: None,
            content_disposition: Some(String::from(
                "attachment; filename=\"67e55044-10b1-426f-9247-bb680e5fe0c8.tar.gz\""
            )),
        }
    );
}

#[test]
fn headers_with_both_hints() {
    let query = DownloadQuery::parse(Some("application/gzip"), Some(".gz")).unwrap();
    assert_eq!(
        download_headers(u64::MAX, &query, id()),
        DownloadHeaders {
            content_length: u64::MAX,
            content_type: Some(String::from("application/gzip")),
            content_disposition: Some(String::from(
                "attachment; filename=\"67e55044-10b1-426f-9247-bb680e5fe0c8.gz\""
            )),
        }
    );
}

#[test]
fn an_extension_that_cannot_stand_in_a_header_is_left_out() {
    let query = DownloadQuery {
        type_hint: Some(TypeHint::parse("text/plain").unwrap()),
        ext_hint: Some(FileExt(String::from(".a\nb"))),
    };
    assert_eq!(
        download_headers(1, &query, id()),
        DownloadHeaders {
            content_length: 1,
            content_type: Some(String::from("text/plain")),
            content_disposition: Some(String::from("inline")),
        }
    );
}
