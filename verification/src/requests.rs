//! The upstream client: it holds the credential pair and builds every
//! outbound request as plain data — method, address, parameters, headers —
//! signing where the upstream scheme demands it. The transport that carries
//! a built request is outside this crate.

use vstd::prelude::*;
use vstd::string::*;

use crate::cookies::{parse_cookies, spec_parse_cookies, CookieJar};
use crate::signer::{
    kv_view, lemma_upsert_missing, sign_params, spec_signed_params, spec_upsert, ParamMap,
};
use crate::strutil::{dec_rep, int_dec_rep, i64_to_string, u32_to_string};

verus! {

/// The HTTP method of a built request.
#[derive(Clone, Copy, Debug, PartialEq, Eq, Structural)]
pub enum Method {
    Get,
    Post,
}

/// One outbound call as plain data: for a `Get` the parameters travel as the
/// query string, for a `Post` as the form body.
pub struct ApiRequest {
    pub method: Method,
    pub url: String,
    pub params: ParamMap,
    pub headers: Vec<(String, String)>,
}

/// The mathematical shape of a built request.
pub struct ApiRequestView {
    pub method: Method,
    pub url: Seq<char>,
    pub params: Seq<(Seq<char>, Seq<char>)>,
    pub headers: Seq<(Seq<char>, Seq<char>)>,
}

impl View for ApiRequest {
    type V = ApiRequestView;

    open spec fn view(&self) -> ApiRequestView {
        ApiRequestView {
            method: self.method,
            url: self.url@,
            params: self.params@,
            headers: kv_view(self.headers@),
        }
    }
}

/// The headers of the page-context calls: browser identity and referer.
pub open spec fn link_headers() -> Seq<(Seq<char>, Seq<char>)> {
    seq![
        ("User-Agent"@, "Mozilla/5.0"@),
        ("Referer"@, "https://link.bilibili.com/p/center/index"@),
    ]
}

/// The headers of the cookie-bearing page-context fetches: the page context
/// plus the raw cookie header, forwarded verbatim.
pub open spec fn link_get_headers(cookies: Seq<char>) -> Seq<(Seq<char>, Seq<char>)> {
    link_headers() + seq![("Cookie"@, cookies)]
}

/// The headers of the room-control posts: the page context plus origin and
/// the raw cookie header, forwarded verbatim.
pub open spec fn link_post_headers(cookies: Seq<char>) -> Seq<(Seq<char>, Seq<char>)> {
    link_headers() + seq![("Origin"@, "https://link.bilibili.com"@), ("Cookie"@, cookies)]
}

/// The headers of the profile call.
pub open spec fn nav_headers(cookies: Seq<char>) -> Seq<(Seq<char>, Seq<char>)> {
    seq![
        (
            "User-Agent"@,
            "Mozilla/5.0 (Windows NT 10.0; Win64; x64) AppleWebKit/537.36 (KHTML, like Gecko) Chrome/58.0.3029.110 Safari/537.3"@,
        ),
        ("Referer"@, "https://www.bilibili.com/"@),
        ("Cookie"@, cookies),
    ]
}

/// The headers of the profile-statistics call.
pub open spec fn stat_headers(cookies: Seq<char>) -> Seq<(Seq<char>, Seq<char>)> {
    seq![("User-Agent"@, "Mozilla/5.0"@), ("Cookie"@, cookies)]
}

/// The parameter set of the client-version call, before signing.
pub open spec fn version_params(ts: int) -> Seq<(Seq<char>, Seq<char>)> {
    seq![("system_version"@, "2"@), ("ts"@, int_dec_rep(ts))]
}

/// The parameter set of the start-live call, before signing.
pub open spec fn start_live_params(
    room_id: Seq<char>,
    csrf: Seq<char>,
    area_id: nat,
    build: int,
    curr_version: Seq<char>,
    ts: int,
) -> Seq<(Seq<char>, Seq<char>)> {
    seq![
        ("room_id"@, room_id),
        ("platform"@, "pc_link"@),
        ("area_v2"@, dec_rep(area_id)),
        ("backup_stream"@, "0"@),
        ("csrf_token"@, csrf),
        ("csrf"@, csrf),
        ("build"@, int_dec_rep(build)),
        ("version"@, curr_version),
        ("ts"@, int_dec_rep(ts)),
    ]
}

/// The parameter set of the stop-live call; this call is not signed.
pub open spec fn stop_live_params(room_id: Seq<char>, csrf: Seq<char>) -> Seq<
    (Seq<char>, Seq<char>),
> {
    seq![
        ("room_id"@, room_id),
        ("platform"@, "pc_link"@),
        ("csrf_token"@, csrf),
        ("csrf"@, csrf),
    ]
}

/// The parameter set of the retitle call; this call is not signed either.
pub open spec fn update_title_params(
    room_id: Seq<char>,
    csrf: Seq<char>,
    title: Seq<char>,
) -> Seq<(Seq<char>, Seq<char>)> {
    seq![
        ("room_id"@, room_id),
        ("platform"@, "pc_link"@),
        ("title"@, title),
        ("csrf_token"@, csrf),
        ("csrf"@, csrf),
    ]
}

/// The parameter set of the QR poll call.
pub open spec fn qr_poll_params(qrcode_key: Seq<char>) -> Seq<(Seq<char>, Seq<char>)> {
    seq![("qrcode_key"@, qrcode_key)]
}

/// The server-timestamp request: a bare unsigned fetch.
pub open spec fn spec_timestamp_request() -> ApiRequestView {
    ApiRequestView {
        method: Method::Get,
        url: "https://api.bilibili.com/x/report/click/now"@,
        params: Seq::<(Seq<char>, Seq<char>)>::empty(),
        headers: Seq::<(Seq<char>, Seq<char>)>::empty(),
    }
}

/// The client-version request, signed over the version parameters, carrying
/// the session cookies.
pub open spec fn spec_version_request(
    key: Seq<char>,
    secret: Seq<char>,
    cookies: Seq<char>,
    ts: int,
) -> ApiRequestView {
    ApiRequestView {
        method: Method::Get,
        url: "https://api.live.bilibili.com/xlive/app-blink/v1/liveVersionInfo/getHomePageLiveVersion"@,
        params: spec_signed_params(version_params(ts), key, secret),
        headers: link_get_headers(cookies),
    }
}

/// The start-live request, signed over the start parameters, carrying the
/// session cookies.
pub open spec fn spec_start_live_request(
    key: Seq<char>,
    secret: Seq<char>,
    room_id: Seq<char>,
    cookies: Seq<char>,
    csrf: Seq<char>,
    area_id: nat,
    build: int,
    curr_version: Seq<char>,
    ts: int,
) -> ApiRequestView {
    ApiRequestView {
        method: Method::Post,
        url: "https://api.live.bilibili.com/room/v1/Room/startLive"@,
        params: spec_signed_params(
            start_live_params(room_id, csrf, area_id, build, curr_version, ts),
            key,
            secret,
        ),
        headers: link_post_headers(cookies),
    }
}

/// The stop-live request: unsigned, an asymmetry upstream imposes.
pub open spec fn spec_stop_live_request(
    room_id: Seq<char>,
    cookies: Seq<char>,
    csrf: Seq<char>,
) -> ApiRequestView {
    ApiRequestView {
        method: Method::Post,
        url: "https://api.live.bilibili.com/room/v1/Room/stopLive"@,
        params: stop_live_params(room_id, csrf),
        headers: link_post_headers(cookies),
    }
}

/// The retitle request: unsigned, like the stop.
pub open spec fn spec_update_title_request(
    room_id: Seq<char>,
    cookies: Seq<char>,
    csrf: Seq<char>,
    title: Seq<char>,
) -> ApiRequestView {
    ApiRequestView {
        method: Method::Post,
        url: "https://api.live.bilibili.com/room/v1/Room/update"@,
        params: update_title_params(room_id, csrf, title),
        headers: link_post_headers(cookies),
    }
}

/// The profile request.
pub open spec fn spec_nav_request(cookies: Seq<char>) -> ApiRequestView {
    ApiRequestView {
        method: Method::Get,
        url: "https://api.bilibili.com/x/web-interface/nav"@,
        params: Seq::<(Seq<char>, Seq<char>)>::empty(),
        headers: nav_headers(cookies),
    }
}

/// The profile-statistics request.
pub open spec fn spec_stat_request(cookies: Seq<char>) -> ApiRequestView {
    ApiRequestView {
        method: Method::Get,
        url: "https://api.bilibili.com/x/web-interface/nav/stat"@,
        params: Seq::<(Seq<char>, Seq<char>)>::empty(),
        headers: stat_headers(cookies),
    }
}

/// The QR ticket request.
pub open spec fn spec_qr_generate_request() -> ApiRequestView {
    ApiRequestView {
        method: Method::Get,
        url: "https://passport.bilibili.com/x/passport-login/web/qrcode/generate"@,
        params: Seq::<(Seq<char>, Seq<char>)>::empty(),
        headers: Seq::<(Seq<char>, Seq<char>)>::empty(),
    }
}

/// The QR poll request.
pub open spec fn spec_qr_poll_request(qrcode_key: Seq<char>) -> ApiRequestView {
    ApiRequestView {
        method: Method::Get,
        url: "https://passport.bilibili.com/x/passport-login/web/qrcode/poll"@,
        params: qr_poll_params(qrcode_key),
        headers: Seq::<(Seq<char>, Seq<char>)>::empty(),
    }
}

fn push_header(h: &mut Vec<(String, String)>, name: &str, value: String)
    ensures
        kv_view(final(h)@) == kv_view(old(h)@).push((name@, value@)),
{
    h.push((String::from_str(name), value));
    proof {
        assert(kv_view(h@) =~= kv_view(old(h)@).push((name@, value@)));
    }
}

fn empty_headers() -> (h: Vec<(String, String)>)
    ensures
        kv_view(h@) == Seq::<(Seq<char>, Seq<char>)>::empty(),
{
    let h: Vec<(String, String)> = Vec::new();
    proof {
        assert(kv_view(h@) =~= Seq::<(Seq<char>, Seq<char>)>::empty());
    }
    h
}

fn build_link_headers() -> (h: Vec<(String, String)>)
    ensures
        kv_view(h@) == link_headers(),
{
    let mut h = empty_headers();
    push_header(&mut h, "User-Agent", String::from_str("Mozilla/5.0"));
    push_header(
        &mut h,
        "Referer",
        String::from_str("https://link.bilibili.com/p/center/index"),
    );
    proof {
        assert(kv_view(h@) =~= link_headers());
    }
    h
}

fn build_link_get_headers(cookies: &str) -> (h: Vec<(String, String)>)
    ensures
        kv_view(h@) == link_get_headers(cookies@),
{
    let mut h = build_link_headers();
    push_header(&mut h, "Cookie", String::from_str(cookies));
    proof {
        assert(kv_view(h@) =~= link_get_headers(cookies@));
    }
    h
}

fn build_link_post_headers(cookies: &str) -> (h: Vec<(String, String)>)
    ensures
        kv_view(h@) == link_post_headers(cookies@),
{
    let mut h = build_link_headers();
    push_header(&mut h, "Origin", String::from_str("https://link.bilibili.com"));
    push_header(&mut h, "Cookie", String::from_str(cookies));
    proof {
        assert(kv_view(h@) =~= link_post_headers(cookies@));
    }
    h
}

fn pm_add(p: &mut ParamMap, k: &str, v: String)
    ensures
        final(p)@ == spec_upsert(old(p)@, k@, v@),
{
    p.insert(String::from_str(k), v);
}

/// The client: the credential pair, immutable for its lifetime, applied to
/// every signed call.
#[allow(non_camel_case_types)]
pub struct gugugagaClient {
    pub app_key: String,
    pub app_secret: String,
}

impl gugugagaClient {
    /// A client around one credential pair.
    pub fn new(app_key: String, app_secret: String) -> (r: Self)
        ensures
            r.app_key == app_key,
            r.app_secret == app_secret,
    {
        gugugagaClient { app_key, app_secret }
    }

    /// Signs a parameter map with this client's credentials.
    pub fn app_sign(&self, params: ParamMap) -> (r: ParamMap)
        ensures
            r@ == spec_signed_params(params@, self.app_key@, self.app_secret@),
    {
        sign_params(params, self.app_key.as_str(), self.app_secret.as_str())
    }

    /// Parses a raw cookie header into a jar.
    pub fn parse_cookies(&self, cookie_str: &str) -> (r: CookieJar)
        ensures
            r@ == spec_parse_cookies(cookie_str@),
    {
        parse_cookies(cookie_str)
    }

    /// Builds the server-timestamp request.
    pub fn timestamp_request(&self) -> (r: ApiRequest)
        ensures
            r@ == spec_timestamp_request(),
    {
        ApiRequest {
            method: Method::Get,
            url: String::from_str("https://api.bilibili.com/x/report/click/now"),
            params: ParamMap::new(),
            headers: empty_headers(),
        }
    }

    /// Builds the client-version request: the version parameters for the
    /// given server timestamp, signed, with the session cookies attached.
    pub fn version_request(&self, cookies: &str, ts: i64) -> (r: ApiRequest)
        ensures
            r@ == spec_version_request(self.app_key@, self.app_secret@, cookies@, ts as int),
    {
        let mut p = ParamMap::new();
        pm_add(&mut p, "system_version", String::from_str("2"));
        proof {
            assert(p@ =~= seq![("system_version"@, "2"@)]);
        }
        pm_add(&mut p, "ts", i64_to_string(ts));
        proof {
            reveal_strlit("system_version");
            reveal_strlit("ts");
            assert("system_version"@.len() == 14);
            assert("ts"@.len() == 2);
            lemma_upsert_missing(seq![("system_version"@, "2"@)], "ts"@, int_dec_rep(ts as int));
            assert(p@ =~= version_params(ts as int));
        }
        let signed = self.app_sign(p);
        ApiRequest {
            method: Method::Get,
            url: String::from_str(
                "https://api.live.bilibili.com/xlive/app-blink/v1/liveVersionInfo/getHomePageLiveVersion",
            ),
            params: signed,
            headers: build_link_get_headers(cookies),
        }
    }

    /// Builds the start-live request: room, platform tag, area, CSRF pair,
    /// client build and version, and timestamp, signed, with the session
    /// cookies attached.
    pub fn start_live_request(
        &self,
        room_id: &str,
        cookies: &str,
        csrf_token: &str,
        area_id: u32,
        build: i64,
        curr_version: &str,
        ts: i64,
    ) -> (r: ApiRequest)
        ensures
            r@ == spec_start_live_request(
                self.app_key@,
                self.app_secret@,
                room_id@,
                cookies@,
                csrf_token@,
                area_id as nat,
                build as int,
                curr_version@,
                ts as int,
            ),
    {
        let mut p = ParamMap::new();
        proof {
            reveal_strlit("room_id");
            reveal_strlit("platform");
            reveal_strlit("area_v2");
            reveal_strlit("backup_stream");
            reveal_strlit("csrf_token");
            reveal_strlit("csrf");
            reveal_strlit("build");
            reveal_strlit("version");
            reveal_strlit("ts");
            assert("room_id"@.len() == 7);
            assert("platform"@.len() == 8);
            assert("area_v2"@.len() == 7);
            assert("backup_stream"@.len() == 13);
            assert("csrf_token"@.len() == 10);
            assert("csrf"@.len() == 4);
            assert("build"@.len() == 5);
            assert("version"@.len() == 7);
            assert("ts"@.len() == 2);
            assert("room_id"@[0] == 'r');
            assert("area_v2"@[0] == 'a');
            assert("version"@[0] == 'v');
        }
        pm_add(&mut p, "room_id", String::from_str(room_id));
        proof {
            assert(p@ =~= start_live_params(
                room_id@,
                csrf_token@,
                area_id as nat,
                build as int,
                curr_version@,
                ts as int,
            ).take(1));
        }
        pm_add(&mut p, "platform", String::from_str("pc_link"));
        proof {
            let full = start_live_params(
                room_id@,
                csrf_token@,
                area_id as nat,
                build as int,
                curr_version@,
                ts as int,
            );
            lemma_upsert_missing(full.take(1), "platform"@, "pc_link"@);
            assert(p@ =~= full.take(2));
        }
        pm_add(&mut p, "area_v2", u32_to_string(area_id));
        proof {
            let full = start_live_params(
                room_id@,
                csrf_token@,
                area_id as nat,
                build as int,
                curr_version@,
                ts as int,
            );
            lemma_upsert_missing(full.take(2), "area_v2"@, dec_rep(area_id as nat));
            assert(p@ =~= full.take(3));
        }
        pm_add(&mut p, "backup_stream", String::from_str("0"));
        proof {
            let full = start_live_params(
                room_id@,
                csrf_token@,
                area_id as nat,
                build as int,
                curr_version@,
                ts as int,
            );
            lemma_upsert_missing(full.take(3), "backup_stream"@, "0"@);
            assert(p@ =~= full.take(4));
        }
        pm_add(&mut p, "csrf_token", String::from_str(csrf_token));
        proof {
            let full = start_live_params(
                room_id@,
                csrf_token@,
                area_id as nat,
                build as int,
                curr_version@,
                ts as int,
            );
            lemma_upsert_missing(full.take(4), "csrf_token"@, csrf_token@);
            assert(p@ =~= full.take(5));
        }
        pm_add(&mut p, "csrf", String::from_str(csrf_token));
        proof {
            let full = start_live_params(
                room_id@,
                csrf_token@,
                area_id as nat,
                build as int,
                curr_version@,
                ts as int,
            );
            lemma_upsert_missing(full.take(5), "csrf"@, csrf_token@);
            assert(p@ =~= full.take(6));
        }
        pm_add(&mut p, "build", i64_to_string(build));
        proof {
            let full = start_live_params(
                room_id@,
                csrf_token@,
                area_id as nat,
                build as int,
                curr_version@,
                ts as int,
            );
            lemma_upsert_missing(full.take(6), "build"@, int_dec_rep(build as int));
            assert(p@ =~= full.take(7));
        }
        pm_add(&mut p, "version", String::from_str(curr_version));
        proof {
            let full = start_live_params(
                room_id@,
                csrf_token@,
                area_id as nat,
                build as int,
                curr_version@,
                ts as int,
            );
            lemma_upsert_missing(full.take(7), "version"@, curr_version@);
            assert(p@ =~= full.take(8));
        }
        pm_add(&mut p, "ts", i64_to_string(ts));
        proof {
            let full = start_live_params(
                room_id@,
                csrf_token@,
                area_id as nat,
                build as int,
                curr_version@,
                ts as int,
            );
            lemma_upsert_missing(full.take(8), "ts"@, int_dec_rep(ts as int));
            assert(p@ =~= full.take(9));
            assert(full.take(9) =~= full);
        }
        let signed = self.app_sign(p);
        ApiRequest {
            method: Method::Post,
            url: String::from_str("https://api.live.bilibili.com/room/v1/Room/startLive"),
            params: signed,
            headers: build_link_post_headers(cookies),
        }
    }

    /// Builds the stop-live request: fixed fields, no signing.
    pub fn stop_live_request(&self, room_id: &str, cookies: &str, csrf_token: &str) -> (r:
        ApiRequest)
        ensures
            r@ == spec_stop_live_request(room_id@, cookies@, csrf_token@),
    {
        let mut p = ParamMap::new();
        proof {
            reveal_strlit("room_id");
            reveal_strlit("platform");
            reveal_strlit("csrf_token");
            reveal_strlit("csrf");
            assert("room_id"@.len() == 7);
            assert("platform"@.len() == 8);
            assert("csrf_token"@.len() == 10);
            assert("csrf"@.len() == 4);
        }
        pm_add(&mut p, "room_id", String::from_str(room_id));
        proof {
            assert(p@ =~= stop_live_params(room_id@, csrf_token@).take(1));
        }
        pm_add(&mut p, "platform", String::from_str("pc_link"));
        proof {
            let full = stop_live_params(room_id@, csrf_token@);
            lemma_upsert_missing(full.take(1), "platform"@, "pc_link"@);
            assert(p@ =~= full.take(2));
        }
        pm_add(&mut p, "csrf_token", String::from_str(csrf_token));
        proof {
            let full = stop_live_params(room_id@, csrf_token@);
            lemma_upsert_missing(full.take(2), "csrf_token"@, csrf_token@);
            assert(p@ =~= full.take(3));
        }
        pm_add(&mut p, "csrf", String::from_str(csrf_token));
        proof {
            let full = stop_live_params(room_id@, csrf_token@);
            lemma_upsert_missing(full.take(3), "csrf"@, csrf_token@);
            assert(p@ =~= full.take(4));
            assert(full.take(4) =~= full);
        }
        ApiRequest {
            method: Method::Post,
            url: String::from_str("https://api.live.bilibili.com/room/v1/Room/stopLive"),
            params: p,
            headers: build_link_post_headers(cookies),
        }
    }

    /// Builds the retitle request: fixed fields plus the title, no signing.
    pub fn update_title_request(
        &self,
        room_id: &str,
        cookies: &str,
        csrf_token: &str,
        title: &str,
    ) -> (r: ApiRequest)
        ensures
            r@ == spec_update_title_request(room_id@, cookies@, csrf_token@, title@),
    {
        let mut p = ParamMap::new();
        proof {
            reveal_strlit("room_id");
            reveal_strlit("platform");
            reveal_strlit("title");
            reveal_strlit("csrf_token");
            reveal_strlit("csrf");
            assert("room_id"@.len() == 7);
            assert("platform"@.len() == 8);
            assert("title"@.len() == 5);
            assert("csrf_token"@.len() == 10);
            assert("csrf"@.len() == 4);
        }
        pm_add(&mut p, "room_id", String::from_str(room_id));
        proof {
            assert(p@ =~= update_title_params(room_id@, csrf_token@, title@).take(1));
        }
        pm_add(&mut p, "platform", String::from_str("pc_link"));
        proof {
            let full = update_title_params(room_id@, csrf_token@, title@);
            lemma_upsert_missing(full.take(1), "platform"@, "pc_link"@);
            assert(p@ =~= full.take(2));
        }
        pm_add(&mut p, "title", String::from_str(title));
        proof {
            let full = update_title_params(room_id@, csrf_token@, title@);
            lemma_upsert_missing(full.take(2), "title"@, title@);
            assert(p@ =~= full.take(3));
        }
        pm_add(&mut p, "csrf_token", String::from_str(csrf_token));
        proof {
            let full = update_title_params(room_id@, csrf_token@, title@);
            lemma_upsert_missing(full.take(3), "csrf_token"@, csrf_token@);
            assert(p@ =~= full.take(4));
        }
        pm_add(&mut p, "csrf", String::from_str(csrf_token));
        proof {
            let full = update_title_params(room_id@, csrf_token@, title@);
            lemma_upsert_missing(full.take(4), "csrf"@, csrf_token@);
            assert(p@ =~= full.take(5));
            assert(full.take(5) =~= full);
        }
        ApiRequest {
            method: Method::Post,
            url: String::from_str("https://api.live.bilibili.com/room/v1/Room/update"),
            params: p,
            headers: build_link_post_headers(cookies),
        }
    }

    /// Builds the profile request.
    pub fn nav_request(&self, cookies: &str) -> (r: ApiRequest)
        ensures
            r@ == spec_nav_request(cookies@),
    {
        let mut h = empty_headers();
        push_header(
            &mut h,
            "User-Agent",
            String::from_str(
                "Mozilla/5.0 (Windows NT 10.0; Win64; x64) AppleWebKit/537.36 (KHTML, like Gecko) Chrome/58.0.3029.110 Safari/537.3",
            ),
        );
        push_header(&mut h, "Referer", String::from_str("https://www.bilibili.com/"));
        push_header(&mut h, "Cookie", String::from_str(cookies));
        proof {
            assert(kv_view(h@) =~= nav_headers(cookies@));
        }
        ApiRequest {
            method: Method::Get,
            url: String::from_str("https://api.bilibili.com/x/web-interface/nav"),
            params: ParamMap::new(),
            headers: h,
        }
    }

    /// Builds the profile-statistics request.
    pub fn stat_request(&self, cookies: &str) -> (r: ApiRequest)
        ensures
            r@ == spec_stat_request(cookies@),
    {
        let mut h = empty_headers();
        push_header(&mut h, "User-Agent", String::from_str("Mozilla/5.0"));
        push_header(&mut h, "Cookie", String::from_str(cookies));
        proof {
            assert(kv_view(h@) =~= stat_headers(cookies@));
        }
        ApiRequest {
            method: Method::Get,
            url: String::from_str("https://api.bilibili.com/x/web-interface/nav/stat"),
            params: ParamMap::new(),
            headers: h,
        }
    }

    /// Builds the QR ticket request.
    pub fn qr_generate_request(&self) -> (r: ApiRequest)
        ensures
            r@ == spec_qr_generate_request(),
    {
        ApiRequest {
            method: Method::Get,
            url: String::from_str("https://passport.bilibili.com/x/passport-login/web/qrcode/generate"),
            params: ParamMap::new(),
            headers: empty_headers(),
        }
    }

    /// Builds the QR poll request for one ticket key.
    pub fn qr_poll_request(&self, qrcode_key: &str) -> (r: ApiRequest)
        ensures
            r@ == spec_qr_poll_request(qrcode_key@),
    {
        let mut p = ParamMap::new();
        pm_add(&mut p, "qrcode_key", String::from_str(qrcode_key));
        proof {
            assert(p@ =~= qr_poll_params(qrcode_key@));
        }
        ApiRequest {
            method: Method::Get,
            url: String::from_str("https://passport.bilibili.com/x/passport-login/web/qrcode/poll"),
            params: p,
            headers: empty_headers(),
        }
    }
}

} // verus!
