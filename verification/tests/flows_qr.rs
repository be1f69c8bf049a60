use live_gateway::envelope::ApiError;
use live_gateway::flows::{
    merge_user_info, timestamp_result, unit_fetch_result, StartLiveFlow, UserInfoFlow, VersionFlow,
};
use live_gateway::json::JsonValue;
use live_gateway::models::{
    gugugagaApiResponse, RtmpData, SessionIdentity, StartLiveData, TimestampData, VersionData,
};
use live_gateway::qr::{
    classify_poll_code, extract_csrf, on_ticket_issued, poll_response, qr_code_response, qr_step,
    session_identity, QrLoginState, QrPollEvent,
};
use live_gateway::requests::{gugugagaClient, Method};

fn client() -> gugugagaClient {
    gugugagaClient::new("key".to_string(), "secret".to_string())
}

fn ts_ok(now: i64) -> Result<gugugagaApiResponse<TimestampData>, String> {
    Ok(gugugagaApiResponse {
        code: 0,
        message: String::new(),
        data: Some(TimestampData { now }),
    })
}

#[test]
fn start_live_happy_path_orders_its_calls() {
    let c = client();
    let mut flow = StartLiveFlow::begin();

    let q1 = flow
        .next_request(&c, "room", "ck=1", "tok", 27)
        .expect("first request");
    assert!(matches!(q1.method, Method::Get));
    assert_eq!(q1.url, "https://api.bilibili.com/x/report/click/now");

    flow = flow.on_timestamp(ts_ok(111));
    let q2 = flow
        .next_request(&c, "room", "ck=1", "tok", 27)
        .expect("version request");
    assert!(q2.url.contains("getHomePageLiveVersion"));
    assert_eq!(q2.params.get("ts").map(|s| s.as_str()), Some("111"));
    assert!(q2.params.get("sign").is_some());
    assert!(q2.headers.iter().any(|(n, v)| n == "Cookie" && v == "ck=1"));

    flow = flow.on_version(Ok(gugugagaApiResponse {
        code: 0,
        message: String::new(),
        data: Some(VersionData {
            build: 9999,
            curr_version: "7.17.0".to_string(),
        }),
    }));
    let q3 = flow
        .next_request(&c, "room", "ck=1", "tok", 27)
        .expect("second timestamp request");
    assert_eq!(q3.url, "https://api.bilibili.com/x/report/click/now");

    flow = flow.on_timestamp(ts_ok(222));
    let q4 = flow
        .next_request(&c, "room", "ck=1", "tok", 27)
        .expect("start request");
    assert!(matches!(q4.method, Method::Post));
    assert_eq!(q4.url, "https://api.live.bilibili.com/room/v1/Room/startLive");
    assert_eq!(q4.params.get("room_id").map(|s| s.as_str()), Some("room"));
    assert_eq!(q4.params.get("platform").map(|s| s.as_str()), Some("pc_link"));
    assert_eq!(q4.params.get("area_v2").map(|s| s.as_str()), Some("27"));
    assert_eq!(q4.params.get("csrf").map(|s| s.as_str()), Some("tok"));
    assert_eq!(q4.params.get("build").map(|s| s.as_str()), Some("9999"));
    assert_eq!(q4.params.get("version").map(|s| s.as_str()), Some("7.17.0"));
    assert_eq!(q4.params.get("ts").map(|s| s.as_str()), Some("222"));
    assert!(q4.params.get("sign").is_some());
    assert!(q4
        .headers
        .iter()
        .any(|(n, v)| n == "Cookie" && v == "ck=1"));

    flow = flow.on_start(Ok(gugugagaApiResponse {
        code: 0,
        message: String::new(),
        data: Some(StartLiveData {
            rtmp: RtmpData {
                addr: "rtmp://ingest".to_string(),
                code: "streamkey".to_string(),
            },
        }),
    }));
    match flow {
        StartLiveFlow::Done { info } => {
            assert_eq!(info.server_url, "rtmp://ingest");
            assert_eq!(info.stream_key, "streamkey");
        }
        _ => panic!("expected Done"),
    }
}

#[test]
fn start_live_fails_fast_after_first_fetch() {
    let c = client();
    let mut issued = 0;
    let mut flow = StartLiveFlow::begin();
    if flow.next_request(&c, "room", "ck", "tok", 1).is_some() {
        issued += 1;
        flow = flow.on_timestamp(Err("network down".to_string()));
    }
    while let Some(_q) = flow.next_request(&c, "room", "ck", "tok", 1) {
        issued += 1;
        panic!("a failed flow must not issue further requests");
    }
    assert_eq!(issued, 1);
    match flow {
        StartLiveFlow::Failed { error } => {
            assert_eq!(error, ApiError::Transport("network down".to_string()));
        }
        _ => panic!("expected Failed"),
    }
}

#[test]
fn start_live_stops_on_upstream_failure() {
    let flow = StartLiveFlow::begin().on_timestamp(Ok(gugugagaApiResponse {
        code: 65530,
        message: "ratelimited".to_string(),
        data: None,
    }));
    match flow {
        StartLiveFlow::Failed { error } => match error {
            ApiError::Remote { code, message } => {
                assert_eq!(code, 65530);
                assert_eq!(message, "ratelimited");
            }
            other => panic!("expected Remote, got {:?}", other),
        },
        _ => panic!("expected Failed"),
    }
}

#[test]
fn version_flow_reaches_the_version() {
    let c = client();
    let mut flow = VersionFlow::begin();
    assert!(flow.next_request(&c, "ck=1").is_some());
    flow = flow.on_timestamp(ts_ok(5));
    let q = flow.next_request(&c, "ck=1").expect("version request");
    assert!(q.headers.iter().any(|(n, v)| n == "Cookie" && v == "ck=1"));
    flow = flow.on_version(Ok(gugugagaApiResponse {
        code: 0,
        message: String::new(),
        data: Some(VersionData {
            build: 1,
            curr_version: "v".to_string(),
        }),
    }));
    match flow {
        VersionFlow::Done { version } => {
            assert_eq!(version.build, 1);
            assert_eq!(version.curr_version, "v");
        }
        _ => panic!("expected Done"),
    }
    }

#[test]
fn timestamp_result_unwraps_now() {
    assert_eq!(timestamp_result(ts_ok(1234)), Ok(1234));
    assert_eq!(
        timestamp_result(Err("boom".to_string())),
        Err(ApiError::Transport("boom".to_string()))
    );
}

#[test]
fn unit_result_ignores_payload() {
    let ok: Result<gugugagaApiResponse<JsonValue>, String> = Ok(gugugagaApiResponse {
        code: 0,
        message: String::new(),
        data: None,
    });
    assert_eq!(unit_fetch_result(ok), Ok(()));
}

#[test]
fn user_info_flow_merges_with_permissive_defaults() {
    let c = client();
    let mut flow = UserInfoFlow::begin();
    assert!(flow.next_request(&c, "ck").is_some());
    let nav = JsonValue::Obj(vec![
        ("mid".to_string(), JsonValue::UInt(123)),
        ("uname".to_string(), JsonValue::Str("alice".to_string())),
        ("money".to_string(), JsonValue::Num("12.5".to_string())),
        (
            "level_info".to_string(),
            JsonValue::Obj(vec![
                ("current_level".to_string(), JsonValue::UInt(6)),
                ("current_exp".to_string(), JsonValue::UInt(4500)),
                ("next_exp".to_string(), JsonValue::Str("10800".to_string())),
            ]),
        ),
        (
            "wallet".to_string(),
            JsonValue::Obj(vec![(
                "bcoin_balance".to_string(),
                JsonValue::UInt(3),
            )]),
        ),
    ]);
    flow = flow.on_nav(Ok(gugugagaApiResponse {
        code: 0,
        message: String::new(),
        data: Some(nav),
    }));
    assert!(flow.next_request(&c, "ck").is_some());
    let stat = JsonValue::Obj(vec![
        ("following".to_string(), JsonValue::UInt(10)),
        ("follower".to_string(), JsonValue::UInt(20)),
        ("dynamic_count".to_string(), JsonValue::UInt(30)),
    ]);
    flow = flow.on_stat(Ok(gugugagaApiResponse {
        code: 0,
        message: String::new(),
        data: Some(stat),
    }));
    match flow {
        UserInfoFlow::Done { info } => {
            assert_eq!(info.uid, 123);
            assert_eq!(info.uname, "alice");
            assert_eq!(info.face, "");
            assert_eq!(info.level, 6);
            assert_eq!(info.coins, "12.5");
            assert_eq!(info.bcoin, "3");
            assert_eq!(info.current_exp, 4500);
            assert_eq!(info.next_exp, "10800");
            assert_eq!(info.following, 10);
            assert_eq!(info.follower, 20);
            assert_eq!(info.dynamic_count, 30);
        }
        _ => panic!("expected Done"),
    }
}

#[test]
fn user_info_flow_fails_fast_when_profile_fetch_fails() {
    let c = client();
    let flow = UserInfoFlow::begin().on_nav(Err("offline".to_string()));
    assert!(flow.next_request(&c, "ck").is_none());
    match flow {
        UserInfoFlow::Failed { error } => {
            assert_eq!(error, ApiError::Transport("offline".to_string()));
        }
        _ => panic!("expected Failed"),
    }
}

#[test]
fn user_info_flow_aborts_on_stat_failure() {
    let c = client();
    let mut flow = UserInfoFlow::begin();
    flow = flow.on_nav(Ok(gugugagaApiResponse {
        code: 0,
        message: String::new(),
        data: Some(JsonValue::Obj(vec![(
            "mid".to_string(),
            JsonValue::UInt(1),
        )])),
    }));
    flow = flow.on_stat(Ok(gugugagaApiResponse {
        code: -352,
        message: "risk control".to_string(),
        data: None,
    }));
    assert!(flow.next_request(&c, "ck").is_none());
    match flow {
        UserInfoFlow::Failed { error } => match error {
            ApiError::Remote { code, message } => {
                assert_eq!(code, -352);
                assert_eq!(message, "risk control");
            }
            other => panic!("expected Remote, got {:?}", other),
        },
        _ => panic!("expected Failed"),
    }
}

#[test]
fn user_info_merge_defaults_everything_on_empty_payloads() {
    let info = merge_user_info(&JsonValue::Null, &JsonValue::Null);
    assert_eq!(info.uid, 0);
    assert_eq!(info.uname, "");
    assert_eq!(info.face, "");
    assert_eq!(info.level, 0);
    assert_eq!(info.coins, "0");
    assert_eq!(info.bcoin, "0");
    assert_eq!(info.current_exp, 0);
    assert_eq!(info.next_exp, "0");
    assert_eq!(info.following, 0);
    assert_eq!(info.follower, 0);
    assert_eq!(info.dynamic_count, 0);
}

fn identity() -> SessionIdentity {
    SessionIdentity {
        cookies: "SESSDATA=s; bili_jct=tok".to_string(),
        csrf_token: "tok".to_string(),
        room_id: "42".to_string(),
    }
}

#[test]
fn qr_confirmed_is_terminal_and_idempotent() {
    let s1 = on_ticket_issued(QrLoginState::Idle);
    let s2 = qr_step(s1, QrPollEvent::Scanned);
    assert!(matches!(s2, QrLoginState::Scanned));
    let s3 = qr_step(
        s2,
        QrPollEvent::Confirmed {
            identity: identity(),
        },
    );
    assert!(s3.is_terminal());
    let s4 = qr_step(s3, QrPollEvent::Expired);
    match &s4 {
        QrLoginState::Confirmed { identity } => assert_eq!(identity.csrf_token, "tok"),
        _ => panic!("a second poll flipped a confirmed login"),
    }
    let s5 = qr_step(s4, QrPollEvent::Rejected);
    assert!(matches!(s5, QrLoginState::Confirmed { .. }));
}

#[test]
fn qr_expired_and_cancelled_absorb_too() {
    let expired = qr_step(QrLoginState::TicketIssued, QrPollEvent::Expired);
    assert!(matches!(expired, QrLoginState::Expired));
    let still = qr_step(
        expired,
        QrPollEvent::Confirmed {
            identity: identity(),
        },
    );
    assert!(matches!(still, QrLoginState::Expired));

    let cancelled = qr_step(QrLoginState::Scanned, QrPollEvent::Rejected);
    assert!(matches!(cancelled, QrLoginState::Cancelled));
    let still = qr_step(cancelled, QrPollEvent::Scanned);
    assert!(matches!(still, QrLoginState::Cancelled));
}

#[test]
fn qr_poll_codes_classify_as_documented() {
    assert!(matches!(classify_poll_code(86038), QrPollEvent::Expired));
    assert!(matches!(classify_poll_code(86090), QrPollEvent::Scanned));
    assert!(matches!(classify_poll_code(86101), QrPollEvent::Waiting));
    assert!(matches!(classify_poll_code(1), QrPollEvent::Rejected));
}

#[test]
fn csrf_token_comes_from_the_cookie_jar() {
    assert_eq!(
        extract_csrf("SESSDATA=abc; bili_jct=token123; sid=x"),
        Some("token123".to_string())
    );
    assert_eq!(extract_csrf("SESSDATA=abc"), None);
}

#[test]
fn session_identity_keeps_cookies_verbatim() {
    let id = session_identity(" bili_jct=t ; other=1".to_string(), "77".to_string())
        .expect("csrf present");
    assert_eq!(id.cookies, " bili_jct=t ; other=1");
    assert_eq!(id.csrf_token, "t");
    assert_eq!(id.room_id, "77");
    assert!(session_identity("no_csrf=1".to_string(), "77".to_string()).is_none());
}

#[test]
fn poll_response_exposes_credentials_only_when_confirmed() {
    let confirmed = QrLoginState::Confirmed {
        identity: identity(),
    };
    let r = poll_response(0, "ok".to_string(), &confirmed);
    assert_eq!(r.code, 0);
    assert_eq!(r.message, "ok");
    assert_eq!(r.cookies.as_deref(), Some("SESSDATA=s; bili_jct=tok"));
    assert_eq!(r.csrf_token.as_deref(), Some("tok"));
    assert_eq!(r.room_id.as_deref(), Some("42"));

    let waiting = poll_response(86101, "waiting".to_string(), &QrLoginState::TicketIssued);
    assert!(waiting.cookies.is_none());
    assert!(waiting.csrf_token.is_none());
    assert!(waiting.room_id.is_none());
}

#[test]
fn qr_ticket_response_carries_the_ticket_over() {
    let r = qr_code_response(live_gateway::models::QrCodeData {
        url: "https://example.invalid/qr".to_string(),
        qrcode_key: "k0".to_string(),
    });
    assert_eq!(r.qr_url, "https://example.invalid/qr");
    assert_eq!(r.qrcode_key, "k0");
}
