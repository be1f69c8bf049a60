use live_gateway::requests::{gugugagaClient, Method};

fn client() -> gugugagaClient {
    gugugagaClient::new(
        "aae92bc66f3edfab".to_string(),
        "af125a0d5279fd576c1b4418a3e8276d".to_string(),
    )
}

fn header<'a>(h: &'a [(String, String)], name: &str) -> Option<&'a str> {
    h.iter().find(|(n, _)| n == name).map(|(_, v)| v.as_str())
}

#[test]
fn timestamp_request_is_bare() {
    let q = client().timestamp_request();
    assert!(matches!(q.method, Method::Get));
    assert_eq!(q.url, "https://api.bilibili.com/x/report/click/now");
    assert_eq!(q.params.len(), 0);
    assert!(q.headers.is_empty());
}

#[test]
fn version_request_is_signed_and_carries_page_headers() {
    let q = client().version_request("ck=v", 1000000000);
    assert!(matches!(q.method, Method::Get));
    assert_eq!(
        q.params.get("system_version").map(|s| s.as_str()),
        Some("2")
    );
    assert_eq!(q.params.get("ts").map(|s| s.as_str()), Some("1000000000"));
    assert_eq!(
        q.params.get("appkey").map(|s| s.as_str()),
        Some("aae92bc66f3edfab")
    );
    assert_eq!(
        q.params.get("sign").map(|s| s.as_str()),
        Some("cb27ddcffc742ccb5e5deea501d0d4d7")
    );
    assert_eq!(header(&q.headers, "User-Agent"), Some("Mozilla/5.0"));
    assert_eq!(
        header(&q.headers, "Referer"),
        Some("https://link.bilibili.com/p/center/index")
    );
    assert_eq!(header(&q.headers, "Cookie"), Some("ck=v"));
}

#[test]
fn stop_live_request_is_not_signed() {
    let q = client().stop_live_request("42", "ck=v", "tok");
    assert!(matches!(q.method, Method::Post));
    assert_eq!(q.url, "https://api.live.bilibili.com/room/v1/Room/stopLive");
    assert_eq!(q.params.get("room_id").map(|s| s.as_str()), Some("42"));
    assert_eq!(q.params.get("platform").map(|s| s.as_str()), Some("pc_link"));
    assert_eq!(q.params.get("csrf_token").map(|s| s.as_str()), Some("tok"));
    assert_eq!(q.params.get("csrf").map(|s| s.as_str()), Some("tok"));
    assert!(q.params.get("sign").is_none());
    assert!(q.params.get("appkey").is_none());
    assert_eq!(header(&q.headers, "Origin"), Some("https://link.bilibili.com"));
    assert_eq!(header(&q.headers, "Cookie"), Some("ck=v"));
}

#[test]
fn update_title_request_carries_the_title_unsigned() {
    let q = client().update_title_request("42", "ck=v", "tok", "my show");
    assert_eq!(q.url, "https://api.live.bilibili.com/room/v1/Room/update");
    assert_eq!(q.params.get("title").map(|s| s.as_str()), Some("my show"));
    assert_eq!(q.params.get("csrf").map(|s| s.as_str()), Some("tok"));
    assert!(q.params.get("sign").is_none());
}

#[test]
fn profile_requests_differ_in_headers() {
    let nav = client().nav_request("a=1");
    assert_eq!(nav.url, "https://api.bilibili.com/x/web-interface/nav");
    assert!(header(&nav.headers, "User-Agent").unwrap().contains("Chrome"));
    assert_eq!(
        header(&nav.headers, "Referer"),
        Some("https://www.bilibili.com/")
    );
    assert_eq!(header(&nav.headers, "Cookie"), Some("a=1"));

    let stat = client().stat_request("a=1");
    assert_eq!(stat.url, "https://api.bilibili.com/x/web-interface/nav/stat");
    assert_eq!(header(&stat.headers, "User-Agent"), Some("Mozilla/5.0"));
    assert_eq!(header(&stat.headers, "Referer"), None);
    assert_eq!(header(&stat.headers, "Cookie"), Some("a=1"));
}

#[test]
fn qr_requests_target_the_passport_endpoints() {
    let gen = client().qr_generate_request();
    assert_eq!(
        gen.url,
        "https://passport.bilibili.com/x/passport-login/web/qrcode/generate"
    );
    assert_eq!(gen.params.len(), 0);

    let poll = client().qr_poll_request("abcdef");
    assert_eq!(
        poll.url,
        "https://passport.bilibili.com/x/passport-login/web/qrcode/poll"
    );
    assert_eq!(
        poll.params.get("qrcode_key").map(|s| s.as_str()),
        Some("abcdef")
    );
}

#[test]
fn client_cookie_parsing_matches_the_parser() {
    let jar = client().parse_cookies("a=1; b=2");
    assert_eq!(jar.get("a").map(|s| s.as_str()), Some("1"));
    assert_eq!(jar.get("b").map(|s| s.as_str()), Some("2"));
}
