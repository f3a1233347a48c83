use short_link::service::{make_response, plan_create, redirect_for, short_url, timeout_url, CreatePlan, Redirect};
use short_link::shortener::generate_short_url;
use short_link::store::{is_valid, Mapping, UrlStore, VALIDITY_WINDOW_SECS};

const NOW: u64 = 1_700_000_000;

fn s(x: &str) -> String {
    x.to_string()
}

fn target(r: &Redirect) -> Option<String> {
    match r {
        Redirect::ToOriginal(u) => Some(u.clone()),
        Redirect::ToTimeout => None,
    }
}

fn row(url: &str, code: &str, t: u64) -> Mapping {
    Mapping { original_url: s(url), short_code: s(code), creation_time: t }
}

#[test]
fn code_is_decimal_seconds() {
    assert_eq!(generate_short_url(0), "0");
    assert_eq!(generate_short_url(7), "7");
    assert_eq!(generate_short_url(10), "10");
    assert_eq!(generate_short_url(NOW), "1700000000");
    assert_eq!(generate_short_url(u64::MAX), "18446744073709551615");
}

#[test]
fn short_url_joins_base_and_code() {
    assert_eq!(short_url(&s("https://host"), &s("123")), "https://host/123");
    assert_eq!(timeout_url(&s("http://localhost:8000")), "http://localhost:8000/timeout");
}

#[test]
fn validity_window_boundaries() {
    assert_eq!(VALIDITY_WINDOW_SECS, 24 * 3600);
    assert!(is_valid(NOW, NOW));
    assert!(is_valid(NOW, NOW + 23 * 3600));
    assert!(is_valid(NOW, NOW + 86400));
    assert!(!is_valid(NOW, NOW + 86401));
    assert!(is_valid(NOW + 5, NOW));
    assert!(is_valid(u64::MAX, 0));
    assert!(!is_valid(0, u64::MAX));
}

#[test]
fn concrete_create_and_resolve() {
    let base = s("https://host");
    let mut store = UrlStore::new();
    let r = store.create_short(&base, &s("https://example.com/page"), NOW);
    assert_eq!(r.original_url, "https://example.com/page");
    assert_eq!(r.short_url, "https://host/1700000000");
    let code = r.short_url.rsplit('/').next().unwrap().to_string();
    let red = store.resolve(&code, NOW);
    assert_eq!(target(&red), Some(s("https://example.com/page")));
    assert_eq!(red.location(&base), "https://example.com/page");
}

#[test]
fn create_then_resolve_leads_back() {
    let mut store = UrlStore::new();
    store.insert_mapping(&s("https://a.org"), &s("5"), NOW - 100);
    let urls = ["https://b.org/x?y=1", "", "https://a.org"];
    let mut t = NOW;
    for u in urls {
        let r = store.create_short(&s("b"), &s(u), t);
        let code = r.short_url[2..].to_string();
        assert_eq!(target(&store.resolve(&code, t)), Some(s(u)));
        t += 1;
    }
}

#[test]
fn same_url_twice_same_link() {
    let base = s("https://host");
    let mut store = UrlStore::new();
    let a = store.create_short(&base, &s("https://example.com"), NOW);
    let b = store.create_short(&base, &s("https://example.com"), NOW + 1);
    assert_eq!(a.short_url, b.short_url);
    assert_eq!(store.len(), 1);
}

#[test]
fn never_issued_code_times_out() {
    let base = s("http://localhost:8000");
    let mut store = UrlStore::new();
    store.create_short(&base, &s("https://example.com"), NOW);
    let red = store.resolve(&s("12345"), NOW);
    assert!(target(&red).is_none());
    assert_eq!(red.location(&base), "http://localhost:8000/timeout");
    assert!(target(&UrlStore::new().resolve(&s(""), NOW)).is_none());
}

#[test]
fn backdated_code_times_out() {
    let store = UrlStore::from_rows(vec![row("https://old.example", "42", NOW - 25 * 3600)]);
    assert!(target(&store.resolve(&s("42"), NOW)).is_none());
    let edge = UrlStore::from_rows(vec![row("https://old.example", "42", NOW - 86401)]);
    assert!(target(&edge.resolve(&s("42"), NOW)).is_none());
}

#[test]
fn code_from_23_hours_ago_resolves() {
    let store = UrlStore::from_rows(vec![row("https://recent.example", "42", NOW - 23 * 3600)]);
    assert_eq!(target(&store.resolve(&s("42"), NOW)), Some(s("https://recent.example")));
}

#[test]
fn repeated_resolve_is_stable_until_expiry() {
    let mut store = UrlStore::new();
    store.create_short(&s("b"), &s("https://x.example"), NOW);
    let code = generate_short_url(NOW);
    let first = target(&store.resolve(&code, NOW));
    for dt in [0, 1, 3600, 86400] {
        assert_eq!(target(&store.resolve(&code, NOW + dt)), first);
    }
    assert!(target(&store.resolve(&code, NOW + 86401)).is_none());
    assert_eq!(store.len(), 1);
}

#[test]
fn expired_row_code_is_reused() {
    let mut store = UrlStore::from_rows(vec![row("https://x.example", "99", NOW - 90000)]);
    let r = store.create_short(&s("b"), &s("https://x.example"), NOW);
    assert_eq!(r.short_url, "b/99");
    assert_eq!(store.len(), 1);
    assert!(target(&store.resolve(&s("99"), NOW)).is_none());
}

#[test]
fn lookups_take_the_first_match() {
    let store = UrlStore::from_rows(vec![
        row("https://dup.example", "1", NOW - 90000),
        row("https://other.example", "2", NOW),
        row("https://dup.example", "3", NOW),
        row("https://third.example", "2", NOW),
    ]);
    assert_eq!(store.find_code_by_original_url(&s("https://dup.example")), Some(s("1")));
    assert_eq!(store.find_code_by_original_url(&s("https://none.example")), None);
    assert_eq!(store.find_valid_original_url(&s("2"), NOW), Some(s("https://other.example")));
    assert_eq!(store.find_valid_original_url(&s("1"), NOW), None);
}

#[test]
fn plan_and_redirect_decisions() {
    match plan_create(Some(s("abc")), NOW) {
        CreatePlan::Reuse(c) => assert_eq!(c, "abc"),
        CreatePlan::Insert(_) => panic!("expected reuse"),
    }
    let p = plan_create(None, 123);
    assert!(matches!(p, CreatePlan::Insert(_)));
    assert_eq!(p.code(), "123");
    assert_eq!(target(&redirect_for(Some(s("https://u")))), Some(s("https://u")));
    assert!(target(&redirect_for(None)).is_none());
    let r = make_response(&s("https://h"), &s("https://u"), &s("9"));
    assert_eq!(r.short_url, "https://h/9");
    assert_eq!(r.original_url, "https://u");
}
