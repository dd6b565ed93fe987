use base64::Engine;
use shortener::ApiError;
use shortener::Link;
use shortener::LinkStore;
use shortener::LinkTarget;
use shortener::RedirectResponse;
use shortener::ShortenerService;
use shortener::StoreOutcome;
use shortener::decimal_bytes;
use shortener::generate_id;
use shortener::health;
use shortener::internal_error;
use shortener::respond_redirect;
use shortener::respond_with_link;
use shortener::validate_target;

fn target(s: &str) -> LinkTarget {
    LinkTarget { target_url: s.to_string() }
}

#[test]
fn health_returns_200() {
    let (status, body) = health();
    assert_eq!(status, 200);
    assert_eq!(body, "Service is healthy");
}

#[test]
fn create_then_redirect_roundtrip() {
    let mut svc = ShortenerService::new();
    let link = svc.create_link(&target("https://example.com")).unwrap();
    let resp = svc.redirect(&link.id, None, None, true).unwrap();
    assert_eq!(resp.status, 307);
    assert_eq!(resp.location, "https://example.com/");
}

#[test]
fn create_normalizes_target() {
    let mut svc = ShortenerService::new();
    let link = svc.create_link(&target("HTTPS://Example.COM/Path")).unwrap();
    assert_eq!(link.target_url, "https://example.com/Path");
}

#[test]
fn create_malformed_url_409() {
    let mut svc = ShortenerService::new();
    let err = svc.create_link(&target("not a url")).unwrap_err();
    assert_eq!(err.status, 409);
    assert_eq!(err.body, "malformed url");
}

#[test]
fn update_malformed_url_409() {
    let mut svc = ShortenerService::new();
    let link = svc.create_link(&target("https://example.com/a")).unwrap();
    let err = svc.update_link(&link.id, &target("not a url")).unwrap_err();
    assert_eq!(err.status, 409);
    assert_eq!(err.body, "malformed url");
    let resp = svc.redirect(&link.id, None, None, true).unwrap();
    assert_eq!(resp.location, "https://example.com/a");
}

#[test]
fn redirect_unknown_404() {
    let mut svc = ShortenerService::new();
    let missing = "missing".to_string();
    let err = svc.redirect(&missing, None, None, true).unwrap_err();
    assert_eq!(err.status, 404);
    assert_eq!(err.body, "Link not found");
    assert_eq!(svc.statistics_len(), 0);
}

#[test]
fn update_unknown_500() {
    let mut svc = ShortenerService::new();
    let missing = "missing".to_string();
    let err = svc.update_link(&missing, &target("https://example.com")).unwrap_err();
    assert_eq!(err.status, 500);
}

#[test]
fn update_changes_target() {
    let mut svc = ShortenerService::new();
    let link = svc.create_link(&target("https://example.com/old")).unwrap();
    let updated = svc.update_link(&link.id, &target("https://example.com/new")).unwrap();
    assert_eq!(updated.id, link.id);
    assert_eq!(updated.target_url, "https://example.com/new");
    let resp = svc.redirect(&link.id, None, None, true).unwrap();
    assert_eq!(resp.status, 307);
    assert_eq!(resp.location, "https://example.com/new");
}

#[test]
fn create_collision_500() {
    let mut svc = ShortenerService::new();
    let id = "fixed".to_string();
    let first = svc.create_link_with_id(&id, &target("https://example.com/one")).unwrap();
    assert_eq!(first.id, "fixed");
    let err = svc.create_link_with_id(&id, &target("https://example.com/two")).unwrap_err();
    assert_eq!(err.status, 500);
    let resp = svc.redirect(&id, None, None, true).unwrap();
    assert_eq!(resp.location, "https://example.com/one");
}

#[test]
fn redirect_statistics_failure_keeps_307() {
    let mut svc = ShortenerService::new();
    let link = svc.create_link(&target("https://example.com/s")).unwrap();
    let failed = svc.redirect(&link.id, None, None, false).unwrap();
    assert_eq!(failed.status, 307);
    assert_eq!(failed.location, "https://example.com/s");
    assert_eq!(svc.statistics_len(), 0);
    let recorded = svc.redirect(&link.id, None, None, true).unwrap();
    assert_eq!(recorded.status, 307);
    assert_eq!(recorded.location, failed.location);
    assert_eq!(svc.statistics_len(), 1);
}

#[test]
fn redirect_records_headers() {
    let mut svc = ShortenerService::new();
    let link = svc.create_link(&target("https://example.com/h")).unwrap();
    svc.redirect(&link.id, Some("https://ref.example".to_string()), Some("agent/1.0".to_string()), true)
        .unwrap();
    let stats = svc.statistics();
    assert_eq!(stats.len(), 1);
    assert_eq!(stats[0].link_id, link.id);
    assert_eq!(stats[0].referer.as_deref(), Some("https://ref.example"));
    assert_eq!(stats[0].user_agent.as_deref(), Some("agent/1.0"));
}

#[test]
fn generate_id_is_urlsafe_base64_of_decimal() {
    let id = generate_id();
    assert!(id.len() >= 2 && id.len() <= 14);
    assert!(id.chars().all(|c| c.is_ascii_alphanumeric() || c == '-' || c == '_'));
    let decoded = base64::engine::general_purpose::URL_SAFE_NO_PAD
        .decode(id.as_bytes())
        .unwrap();
    let text = String::from_utf8(decoded).unwrap();
    assert!(text.bytes().all(|b| b.is_ascii_digit()));
    let value: u64 = text.parse().unwrap();
    assert!(value < u32::MAX as u64);
}

#[test]
fn decimal_bytes_renders_exactly() {
    assert_eq!(decimal_bytes(0), b"0".to_vec());
    assert_eq!(decimal_bytes(7), b"7".to_vec());
    assert_eq!(decimal_bytes(40), b"40".to_vec());
    assert_eq!(decimal_bytes(4294967294), b"4294967294".to_vec());
}

#[test]
fn store_insert_lookup_update() {
    let mut store = LinkStore::new();
    let id = "k1".to_string();
    let url_a = "https://example.com/a".to_string();
    let url_b = "https://example.com/b".to_string();
    assert!(store.lookup(&id).is_none());
    let inserted = store.insert(&id, &url_a).unwrap();
    assert_eq!(inserted.id, "k1");
    assert_eq!(inserted.target_url, "https://example.com/a");
    assert!(store.insert(&id, &url_b).is_err());
    let found = store.lookup(&id).unwrap();
    assert_eq!(found.target_url, "https://example.com/a");
    let updated = store.update(&id, &url_b).unwrap();
    assert_eq!(updated.target_url, "https://example.com/b");
    let missing = "k2".to_string();
    assert!(store.update(&missing, &url_b).is_err());
}

#[test]
fn validate_target_normalizes_or_409() {
    let ok = validate_target(&target("https://example.com")).unwrap();
    assert_eq!(ok, "https://example.com/");
    let err = validate_target(&target("not a url")).unwrap_err();
    assert_eq!(err.status, 409);
    assert_eq!(err.body, "malformed url");
}

#[test]
fn respond_with_link_maps_outcomes() {
    let row = Link { id: "i".to_string(), target_url: "https://example.com/".to_string() };
    let ok = respond_with_link(StoreOutcome::Done(row)).unwrap();
    assert_eq!(ok.id, "i");
    let timed: Result<Link, ApiError> =
        respond_with_link(StoreOutcome::DeadlineExceeded("deadline has elapsed".to_string()));
    let err = timed.unwrap_err();
    assert_eq!(err.status, 500);
    assert_eq!(err.body, "deadline has elapsed");
    let failed: Result<Link, ApiError> =
        respond_with_link(StoreOutcome::StoreError("connection reset".to_string()));
    let err = failed.unwrap_err();
    assert_eq!(err.status, 500);
    assert_eq!(err.body, "connection reset");
}

#[test]
fn respond_redirect_maps_outcomes() {
    let row = Link { id: "i".to_string(), target_url: "https://example.com/x".to_string() };
    let found: Result<RedirectResponse, ApiError> =
        respond_redirect(StoreOutcome::Done(Some(row)));
    let resp = found.unwrap();
    assert_eq!(resp.status, 307);
    assert_eq!(resp.location, "https://example.com/x");
    let absent: Result<RedirectResponse, ApiError> = respond_redirect(StoreOutcome::Done(None));
    let err = absent.unwrap_err();
    assert_eq!(err.status, 404);
    assert_eq!(err.body, "Link not found");
    let timed: Result<RedirectResponse, ApiError> =
        respond_redirect(StoreOutcome::DeadlineExceeded("deadline has elapsed".to_string()));
    assert_eq!(timed.unwrap_err().status, 500);
}

#[test]
fn internal_error_exposes_description() {
    let err = internal_error("storage failed".to_string());
    assert_eq!(err.status, 500);
    assert_eq!(err.body, "storage failed");
}
