use webview_opener::identifier::derive_identifier;
use webview_opener::request::try_prepare_webview;
use webview_opener::request::INNER_HEIGHT;
use webview_opener::request::INNER_WIDTH;

#[test]
fn identifier_shape() {
    // Lowercase first, then each space becomes an underscore, behind the prefix.
    assert_eq!(derive_identifier("My Window"), "webview_my_window");
}

#[test]
fn identifier_consecutive_spaces() {
    // The substitution is literal, space for underscore: consecutive spaces
    // each become an underscore of their own.
    assert_eq!(derive_identifier("a  b"), "webview_a__b");
}

#[test]
fn identifier_empty_title() {
    assert_eq!(derive_identifier(""), "webview_");
}

#[test]
fn identifier_repeated_derivation() {
    // Deriving twice from the same title gives the same identifier: the
    // derivation is a pure function of the title.
    assert_eq!(derive_identifier("Docs"), derive_identifier("Docs"));
    assert_eq!(derive_identifier("Docs"), "webview_docs");
}

#[test]
fn identifier_case_collision() {
    // Titles that differ only in letter case collide on one identifier;
    // what happens to the second window is the windowing toolkit's affair,
    // not this component's.
    let a = derive_identifier("My Window");
    let b = derive_identifier("my window");
    assert_eq!(a, b);
    assert_eq!(a, "webview_my_window");
}

#[test]
fn well_formed_url_succeeds() {
    // A well-formed absolute URL yields a request, whatever the title.
    assert!(try_prepare_webview("Any Title", "https://example.com").is_some());
    assert!(try_prepare_webview("", "https://example.com/path?q=1").is_some());
}

#[test]
fn malformed_url_is_not_a_recoverable_error() {
    // A malformed URL never becomes the command's error value: the command
    // aborts the invocation instead. The library surfaces that abort as
    // "no request at all", and the shell around it panics on it.
    assert!(try_prepare_webview("Title", "not a url").is_none());
    assert!(try_prepare_webview("Title", "").is_none());
}

#[test]
fn open_webview_scenario() {
    // The full request for open_webview(title="Docs", url="https://example.com").
    let (request, parsed) = try_prepare_webview("Docs", "https://example.com").unwrap();
    assert_eq!(request.label, "webview_docs");
    assert_eq!(request.title, "Docs");
    assert_eq!(request.width, 1200);
    assert_eq!(request.height, 800);
    assert_eq!(INNER_WIDTH, 1200);
    assert_eq!(INNER_HEIGHT, 800);
    // url normalizes an authority-only URL with a trailing slash.
    assert_eq!(parsed.as_str(), "https://example.com/");
}

#[test]
fn repeated_invocation_same_request() {
    // Invoked twice with the same title, the command asks the toolkit for
    // the same identifier both times; whether the second window is created,
    // focused or refused is defined by the toolkit alone, so only the
    // component's own output is asserted here.
    let (first, _) = try_prepare_webview("Docs", "https://example.com").unwrap();
    let (second, _) = try_prepare_webview("Docs", "https://example.com").unwrap();
    assert_eq!(first.label, second.label);
    assert_eq!(first.label, "webview_docs");
}
