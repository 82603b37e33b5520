use include_dir::Dir;
use include_dir::DirEntry;
use include_dir::File;

use modern_webview::Content;
use modern_webview::ContentResolver;
use modern_webview::NativeCreate;
use modern_webview::NativeStatus;
use modern_webview::WebView;
use modern_webview::resolver::strip_leading_separators;
use modern_webview::webview_get_content;

const INDEX_BODY: &[u8] = b"<html><body>embedded</body></html>";
const STYLE_BODY: &[u8] = b".page { color: red; }";

const CSS_ENTRIES: [DirEntry<'static>; 1] =
    [DirEntry::File(File::new("css/style.css", STYLE_BODY))];
const SAMPLE_ENTRIES: [DirEntry<'static>; 2] = [
    DirEntry::File(File::new("index.html", INDEX_BODY)),
    DirEntry::Dir(Dir::new("css", &CSS_ENTRIES)),
];

fn sample_dir() -> Dir<'static> {
    Dir::new("", &SAMPLE_ENTRIES)
}

#[test]
fn resolve_hit_returns_exact_bytes() {
    let resolver = ContentResolver::from_dir(sample_dir());
    let hit = resolver.resolve("/index.html").expect("embedded entry must resolve");
    assert_eq!(hit.len(), INDEX_BODY.len());
    assert_eq!(hit.as_slice(), INDEX_BODY);
}

#[test]
fn resolve_ignores_leading_separators() {
    let resolver = ContentResolver::from_dir(sample_dir());
    let plain = resolver.resolve("index.html");
    let absolute = resolver.resolve("/index.html");
    let doubled = resolver.resolve("//index.html");
    assert_eq!(plain, absolute);
    assert_eq!(plain, doubled);
    assert!(plain.is_some());
}

#[test]
fn resolve_miss_returns_nothing() {
    let resolver = ContentResolver::from_dir(sample_dir());
    assert_eq!(resolver.resolve("/missing.html"), None);
    assert_eq!(resolver.resolve(""), None);
}

#[test]
fn resolve_finds_nested_entry_by_exact_path() {
    let resolver = ContentResolver::from_dir(sample_dir());
    let hit = resolver.resolve("/css/style.css").expect("nested entry must resolve");
    assert_eq!(hit.as_slice(), STYLE_BODY);
    // Exact match only: neither the bare file name nor a partial path hits.
    assert_eq!(resolver.resolve("style.css"), None);
}

#[test]
fn resolver_without_directory_always_misses() {
    let resolver = ContentResolver::empty();
    assert_eq!(resolver.resolve("index.html"), None);
    assert_eq!(resolver.resolve("/index.html"), None);
}

#[test]
fn strip_leading_separators_examples() {
    assert_eq!(strip_leading_separators("/a/b"), "a/b");
    assert_eq!(strip_leading_separators("a/b"), "a/b");
    assert_eq!(strip_leading_separators("///x"), "x");
    assert_eq!(strip_leading_separators(""), "");
    assert_eq!(strip_leading_separators("/"), "");
}

#[test]
fn webview_serves_embedded_dir_content() {
    let webview = WebView::new(
        "embedded",
        Content::Dir(sample_dir(), "index.html".to_string()),
        (640, 480),
        true,
        NativeCreate::Created(1),
        NativeStatus::Completed,
    )
    .expect("construction must succeed");
    let hit = webview_get_content(&webview, "/index.html").expect("embedded entry must resolve");
    assert_eq!(hit.as_slice(), INDEX_BODY);
    assert_eq!(webview_get_content(&webview, "/missing.html"), None);
}

#[test]
fn webview_without_dir_serves_nothing() {
    let webview = WebView::new(
        "inline",
        Content::Html("<h1>hello</h1>".to_string()),
        (640, 480),
        false,
        NativeCreate::Created(2),
        NativeStatus::Completed,
    )
    .expect("construction must succeed");
    assert_eq!(webview_get_content(&webview, "index.html"), None);
}
