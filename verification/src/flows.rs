//! The sequential operations, modelled as explicit state machines: each
//! flow says which request it is waiting on and how a response moves it
//! forward. Later parameters depend on earlier responses (timestamp, then
//! version, then the signed call), so the chain is strictly ordered, and any
//! failure makes the flow terminal at once — no later request is issued.

use vstd::pervasive::unreached;
use vstd::prelude::*;
use vstd::string::*;

use crate::envelope::{spec_status, spec_unwrap, unwrap_envelope, ApiError};
use crate::json::{index_of, spec_as_str_or, spec_as_u64_or, spec_index, spec_num_text, JsonValue};
use crate::models::{
    gugugagaApiResponse, StartLiveData, StreamInfo, TimestampData, UserInfo, VersionData,
};
use crate::requests::{
    gugugagaClient, spec_nav_request, spec_start_live_request, spec_stat_request,
    spec_timestamp_request, spec_version_request, ApiRequest,
};

verus! {

/// What one fetch yields once transport and envelope are accounted for: a
/// transport fault, the upstream failure, or the payload.
pub open spec fn spec_fetch<T>(resp: Result<gugugagaApiResponse<T>, String>) -> Result<
    T,
    ApiError,
> {
    match resp {
        Err(m) => Err(ApiError::Transport(m)),
        Ok(env) => spec_unwrap(env),
    }
}

/// Like `spec_fetch`, for the calls whose payload is deliberately ignored.
pub open spec fn spec_unit_fetch<T>(resp: Result<gugugagaApiResponse<T>, String>) -> Result<
    (),
    ApiError,
> {
    match resp {
        Err(m) => Err(ApiError::Transport(m)),
        Ok(env) => spec_status(env),
    }
}

/// Folds a transport result and its envelope into one fetch result.
pub fn fetch_result<T>(resp: Result<gugugagaApiResponse<T>, String>) -> (r: Result<T, ApiError>)
    ensures
        r == spec_fetch(resp),
{
    match resp {
        Err(m) => Err(ApiError::Transport(m)),
        Ok(env) => unwrap_envelope(env),
    }
}

/// The outcome of a call that returns nothing: the payload is ignored, only
/// transport and the envelope code decide.
pub fn unit_fetch_result<T>(resp: Result<gugugagaApiResponse<T>, String>) -> (r: Result<
    (),
    ApiError,
>)
    ensures
        r == spec_unit_fetch(resp),
{
    match resp {
        Err(m) => Err(ApiError::Transport(m)),
        Ok(env) => {
            if env.code != 0 {
                Err(ApiError::Remote { code: env.code, message: env.message })
            } else {
                Ok(())
            }
        },
    }
}

/// The server timestamp a fetch yields.
pub fn timestamp_result(resp: Result<gugugagaApiResponse<TimestampData>, String>) -> (r: Result<
    i64,
    ApiError,
>)
    ensures
        match spec_fetch(resp) {
            Ok(d) => r == Ok::<i64, ApiError>(d.now),
            Err(e) => r == Err::<i64, ApiError>(e),
        },
{
    match fetch_result(resp) {
        Ok(d) => Ok(d.now),
        Err(e) => Err(e),
    }
}

/// The start-live chain: timestamp for the version call, the version, a
/// fresh timestamp, then the signed start request, in that order.
pub enum StartLiveFlow {
    /// Waiting on the timestamp that the version call will be signed with.
    FetchVersionTs,
    /// Waiting on the client version.
    FetchVersion { ts: i64 },
    /// Waiting on the timestamp that the start call will be signed with.
    FetchStartTs { build: i64, curr_version: String },
    /// Waiting on the start call itself.
    FetchStart { build: i64, curr_version: String, ts: i64 },
    /// The stream descriptor is ready.
    Done { info: StreamInfo },
    /// The chain stopped at its first failure.
    Failed { error: ApiError },
}

impl StartLiveFlow {
    /// Whether the flow has finished, well or badly.
    pub open spec fn spec_terminal(self) -> bool {
        self is Done || self is Failed
    }

    /// The states whose pending request is a timestamp fetch.
    pub open spec fn spec_awaits_timestamp(self) -> bool {
        self is FetchVersionTs || self is FetchStartTs
    }

    /// A fresh flow: the first thing fetched is a timestamp.
    pub fn begin() -> (s: Self)
        ensures
            s == StartLiveFlow::FetchVersionTs,
    {
        StartLiveFlow::FetchVersionTs
    }

    /// How a timestamp response moves the flow.
    pub open spec fn spec_on_timestamp(
        self,
        resp: Result<gugugagaApiResponse<TimestampData>, String>,
    ) -> Self {
        match spec_fetch(resp) {
            Err(e) => StartLiveFlow::Failed { error: e },
            Ok(d) => match self {
                StartLiveFlow::FetchVersionTs => StartLiveFlow::FetchVersion { ts: d.now },
                StartLiveFlow::FetchStartTs { build, curr_version } => StartLiveFlow::FetchStart {
                    build,
                    curr_version,
                    ts: d.now,
                },
                _ => self,
            },
        }
    }

    /// Feeds the flow the timestamp fetch it is waiting on.
    pub fn on_timestamp(self, resp: Result<gugugagaApiResponse<TimestampData>, String>) -> (next:
        Self)
        requires
            self.spec_awaits_timestamp(),
        ensures
            next == self.spec_on_timestamp(resp),
    {
        match fetch_result(resp) {
            Err(e) => StartLiveFlow::Failed { error: e },
            Ok(d) => match self {
                StartLiveFlow::FetchVersionTs => StartLiveFlow::FetchVersion { ts: d.now },
                StartLiveFlow::FetchStartTs { build, curr_version } => StartLiveFlow::FetchStart {
                    build,
                    curr_version,
                    ts: d.now,
                },
                _ => unreached(),
            },
        }
    }

    /// How a version response moves the flow.
    pub open spec fn spec_on_version(
        self,
        resp: Result<gugugagaApiResponse<VersionData>, String>,
    ) -> Self {
        match spec_fetch(resp) {
            Err(e) => StartLiveFlow::Failed { error: e },
            Ok(v) => StartLiveFlow::FetchStartTs { build: v.build, curr_version: v.curr_version },
        }
    }

    /// Feeds the flow the version fetch it is waiting on.
    pub fn on_version(self, resp: Result<gugugagaApiResponse<VersionData>, String>) -> (next: Self)
        requires
            self is FetchVersion,
        ensures
            next == self.spec_on_version(resp),
    {
        match fetch_result(resp) {
            Err(e) => StartLiveFlow::Failed { error: e },
            Ok(v) => StartLiveFlow::FetchStartTs { build: v.build, curr_version: v.curr_version },
        }
    }

    /// How the start response ends the flow: the stream descriptor is read
    /// from the RTMP field of the payload.
    pub open spec fn spec_on_start(
        self,
        resp: Result<gugugagaApiResponse<StartLiveData>, String>,
    ) -> Self {
        match spec_fetch(resp) {
            Err(e) => StartLiveFlow::Failed { error: e },
            Ok(d) => StartLiveFlow::Done {
                info: StreamInfo { server_url: d.rtmp.addr, stream_key: d.rtmp.code },
            },
        }
    }

    /// Feeds the flow the start call it is waiting on.
    pub fn on_start(self, resp: Result<gugugagaApiResponse<StartLiveData>, String>) -> (next: Self)
        requires
            self is FetchStart,
        ensures
            next == self.spec_on_start(resp),
    {
        match fetch_result(resp) {
            Err(e) => StartLiveFlow::Failed { error: e },
            Ok(d) => StartLiveFlow::Done {
                info: StreamInfo { server_url: d.rtmp.addr, stream_key: d.rtmp.code },
            },
        }
    }

    /// The request the flow is waiting on; a terminal flow issues none.
    pub fn next_request(
        &self,
        client: &gugugagaClient,
        room_id: &str,
        cookies: &str,
        csrf_token: &str,
        area_id: u32,
    ) -> (r: Option<ApiRequest>)
        ensures
            r is None <==> self.spec_terminal(),
            self.spec_awaits_timestamp() ==> (r matches Some(q) && q@ == spec_timestamp_request()),
            self matches StartLiveFlow::FetchVersion { ts } ==> r matches Some(q) && q@
                == spec_version_request(client.app_key@, client.app_secret@, cookies@, ts as int),
            self matches StartLiveFlow::FetchStart { build, curr_version, ts } ==> r matches Some(
                q,
            ) && q@ == spec_start_live_request(
                client.app_key@,
                client.app_secret@,
                room_id@,
                cookies@,
                csrf_token@,
                area_id as nat,
                build as int,
                curr_version@,
                ts as int,
            ),
    {
        match self {
            StartLiveFlow::FetchVersionTs => Some(client.timestamp_request()),
            StartLiveFlow::FetchVersion { ts } => Some(client.version_request(cookies, *ts)),
            StartLiveFlow::FetchStartTs { .. } => Some(client.timestamp_request()),
            StartLiveFlow::FetchStart { build, curr_version, ts } => Some(
                client.start_live_request(
                    room_id,
                    cookies,
                    csrf_token,
                    area_id,
                    *build,
                    curr_version.as_str(),
                    *ts,
                ),
            ),
            StartLiveFlow::Done { .. } => None,
            StartLiveFlow::Failed { .. } => None,
        }
    }
}

/// Law: the start chain fails fast. When its very first fetch fails —
/// transport fault, upstream failure, or a success without payload — the
/// flow is terminal at once, so (by `next_request`) no later call of the
/// chain is attempted.
pub proof fn lemma_start_live_fail_fast(resp: Result<gugugagaApiResponse<TimestampData>, String>)
    requires
        spec_fetch(resp) is Err,
    ensures
        StartLiveFlow::FetchVersionTs.spec_on_timestamp(resp) is Failed,
        StartLiveFlow::FetchVersionTs.spec_on_timestamp(resp).spec_terminal(),
{
}

/// The standalone client-version chain: a timestamp, then the signed
/// version call.
pub enum VersionFlow {
    /// Waiting on the timestamp the version call will be signed with.
    FetchTs,
    /// Waiting on the version call.
    FetchVersion { ts: i64 },
    /// The version is ready.
    Done { version: VersionData },
    /// The chain stopped at its first failure.
    Failed { error: ApiError },
}

impl VersionFlow {
    /// Whether the flow has finished, well or badly.
    pub open spec fn spec_terminal(self) -> bool {
        self is Done || self is Failed
    }

    /// A fresh flow.
    pub fn begin() -> (s: Self)
        ensures
            s == VersionFlow::FetchTs,
    {
        VersionFlow::FetchTs
    }

    /// How the timestamp response moves the flow.
    pub open spec fn spec_on_timestamp(
        self,
        resp: Result<gugugagaApiResponse<TimestampData>, String>,
    ) -> Self {
        match spec_fetch(resp) {
            Err(e) => VersionFlow::Failed { error: e },
            Ok(d) => VersionFlow::FetchVersion { ts: d.now },
        }
    }

    /// Feeds the flow the timestamp fetch it is waiting on.
    pub fn on_timestamp(self, resp: Result<gugugagaApiResponse<TimestampData>, String>) -> (next:
        Self)
        requires
            self is FetchTs,
        ensures
            next == self.spec_on_timestamp(resp),
    {
        match fetch_result(resp) {
            Err(e) => VersionFlow::Failed { error: e },
            Ok(d) => VersionFlow::FetchVersion { ts: d.now },
        }
    }

    /// How the version response ends the flow.
    pub open spec fn spec_on_version(
        self,
        resp: Result<gugugagaApiResponse<VersionData>, String>,
    ) -> Self {
        match spec_fetch(resp) {
            Err(e) => VersionFlow::Failed { error: e },
            Ok(v) => VersionFlow::Done { version: v },
        }
    }

    /// Feeds the flow the version fetch it is waiting on.
    pub fn on_version(self, resp: Result<gugugagaApiResponse<VersionData>, String>) -> (next: Self)
        requires
            self is FetchVersion,
        ensures
            next == self.spec_on_version(resp),
    {
        match fetch_result(resp) {
            Err(e) => VersionFlow::Failed { error: e },
            Ok(v) => VersionFlow::Done { version: v },
        }
    }

    /// The request the flow is waiting on; a terminal flow issues none.
    pub fn next_request(&self, client: &gugugagaClient, cookies: &str) -> (r: Option<ApiRequest>)
        ensures
            r is None <==> self.spec_terminal(),
            self is FetchTs ==> (r matches Some(q) && q@ == spec_timestamp_request()),
            self matches VersionFlow::FetchVersion { ts } ==> r matches Some(q) && q@
                == spec_version_request(client.app_key@, client.app_secret@, cookies@, ts as int),
    {
        match self {
            VersionFlow::FetchTs => Some(client.timestamp_request()),
            VersionFlow::FetchVersion { ts } => Some(client.version_request(cookies, *ts)),
            VersionFlow::Done { .. } => None,
            VersionFlow::Failed { .. } => None,
        }
    }
}

/// The lower 32 bits of a count, as the narrowing the profile read applies.
pub open spec fn low32(x: u64) -> u32 {
    (x % 0x100000000) as u32
}

/// What the merged profile must hold, field by field, given the two
/// payloads: counts default to zero, strings to empty (`next_exp` to `0`),
/// and the two money fields are carried as decimal text.
pub open spec fn user_info_ok(info: UserInfo, nav: JsonValue, stat: JsonValue) -> bool {
    &&& info.uid == spec_as_u64_or(spec_index(nav, "mid"@), 0)
    &&& info.uname@ == spec_as_str_or(spec_index(nav, "uname"@), ""@)
    &&& info.face@ == spec_as_str_or(spec_index(nav, "face"@), ""@)
    &&& info.level == low32(
        spec_as_u64_or(spec_index(spec_index(nav, "level_info"@), "current_level"@), 0),
    )
    &&& info.coins@ == spec_num_text(spec_index(nav, "money"@))
    &&& info.bcoin@ == spec_num_text(spec_index(spec_index(nav, "wallet"@), "bcoin_balance"@))
    &&& info.current_exp == spec_as_u64_or(
        spec_index(spec_index(nav, "level_info"@), "current_exp"@),
        0,
    )
    &&& info.next_exp@ == spec_as_str_or(
        spec_index(spec_index(nav, "level_info"@), "next_exp"@),
        "0"@,
    )
    &&& info.following == spec_as_u64_or(spec_index(stat, "following"@), 0)
    &&& info.follower == spec_as_u64_or(spec_index(stat, "follower"@), 0)
    &&& info.dynamic_count == spec_as_u64_or(spec_index(stat, "dynamic_count"@), 0)
}

/// Merges the profile payload and the statistics payload into one profile,
/// with the permissive defaults upstream's omissions require.
pub fn merge_user_info(nav: &JsonValue, stat: &JsonValue) -> (r: UserInfo)
    ensures
        user_info_ok(r, *nav, *stat),
{
    let null = JsonValue::Null;
    let level_info = index_of(nav, "level_info", &null);
    let wallet = index_of(nav, "wallet", &null);
    let level64 = index_of(level_info, "current_level", &null).as_u64_or(0);
    let level = #[verifier::truncate] (level64 as u32);
    proof {
        assert(level64 as u32 == (level64 % 0x100000000) as u32) by (bit_vector);
        assert(level == low32(level64));
    }
    UserInfo {
        uid: index_of(nav, "mid", &null).as_u64_or(0),
        uname: index_of(nav, "uname", &null).as_str_or(""),
        face: index_of(nav, "face", &null).as_str_or(""),
        level,
        coins: index_of(nav, "money", &null).num_text(),
        bcoin: index_of(wallet, "bcoin_balance", &null).num_text(),
        current_exp: index_of(level_info, "current_exp", &null).as_u64_or(0),
        next_exp: index_of(level_info, "next_exp", &null).as_str_or("0"),
        following: index_of(stat, "following", &null).as_u64_or(0),
        follower: index_of(stat, "follower", &null).as_u64_or(0),
        dynamic_count: index_of(stat, "dynamic_count", &null).as_u64_or(0),
    }
}

/// The statistics payload merged on success: a successful envelope without
/// a payload counts as an empty one, so every statistics field falls back
/// to zero.
pub open spec fn stat_payload(env: gugugagaApiResponse<JsonValue>) -> JsonValue {
    match env.data {
        Some(d) => d,
        None => JsonValue::Null,
    }
}

/// The profile chain: the profile fetch, then the statistics fetch, merged.
pub enum UserInfoFlow {
    /// Waiting on the profile call.
    FetchNav,
    /// Waiting on the statistics call.
    FetchStat { nav: JsonValue },
    /// The merged profile is ready.
    Done { info: UserInfo },
    /// The chain stopped at its first failure.
    Failed { error: ApiError },
}

impl UserInfoFlow {
    /// Whether the flow has finished, well or badly.
    pub open spec fn spec_terminal(self) -> bool {
        self is Done || self is Failed
    }

    /// A fresh flow.
    pub fn begin() -> (s: Self)
        ensures
            s == UserInfoFlow::FetchNav,
    {
        UserInfoFlow::FetchNav
    }

    /// How the profile response moves the flow: its envelope is checked and
    /// unwrapped, and any failure ends the chain before the statistics call.
    pub open spec fn spec_on_nav(resp: Result<gugugagaApiResponse<JsonValue>, String>) -> Self {
        match spec_fetch(resp) {
            Err(e) => UserInfoFlow::Failed { error: e },
            Ok(d) => UserInfoFlow::FetchStat { nav: d },
        }
    }

    /// Feeds the flow the profile fetch it is waiting on.
    pub fn on_nav(self, resp: Result<gugugagaApiResponse<JsonValue>, String>) -> (next: Self)
        requires
            self is FetchNav,
        ensures
            next == UserInfoFlow::spec_on_nav(resp),
    {
        match fetch_result(resp) {
            Err(e) => UserInfoFlow::Failed { error: e },
            Ok(d) => UserInfoFlow::FetchStat { nav: d },
        }
    }

    /// What feeding the statistics response must yield: a transport fault
    /// or a non-zero envelope code fails the whole operation, preserving
    /// upstream's code and message; on success the payloads are merged.
    pub open spec fn stat_step_ok(
        nav: JsonValue,
        resp: Result<gugugagaApiResponse<JsonValue>, String>,
        next: UserInfoFlow,
    ) -> bool {
        match resp {
            Err(m) => next == (UserInfoFlow::Failed { error: ApiError::Transport(m) }),
            Ok(env) => {
                if env.code != 0 {
                    next == (UserInfoFlow::Failed {
                        error: ApiError::Remote { code: env.code, message: env.message },
                    })
                } else {
                    next matches UserInfoFlow::Done { info } && user_info_ok(
                        info,
                        nav,
                        stat_payload(env),
                    )
                }
            },
        }
    }

    /// Feeds the flow the statistics fetch: a transport fault or a non-zero
    /// envelope code fails the whole operation, preserving upstream's code
    /// and message; on success a missing payload merges as empty — the
    /// permissive defaults cover omitted fields, never an upstream failure.
    pub fn on_stat(self, resp: Result<gugugagaApiResponse<JsonValue>, String>) -> (next: Self)
        requires
            self is FetchStat,
        ensures
            self matches UserInfoFlow::FetchStat { nav } ==> UserInfoFlow::stat_step_ok(
                nav,
                resp,
                next,
            ),
    {
        match self {
            UserInfoFlow::FetchStat { nav } => match resp {
                Err(m) => UserInfoFlow::Failed { error: ApiError::Transport(m) },
                Ok(env) => {
                    if env.code != 0 {
                        UserInfoFlow::Failed {
                            error: ApiError::Remote { code: env.code, message: env.message },
                        }
                    } else {
                        let stat = match env.data {
                            Some(d) => d,
                            None => JsonValue::Null,
                        };
                        let info = merge_user_info(&nav, &stat);
                        UserInfoFlow::Done { info }
                    }
                },
            },
            _ => unreached(),
        }
    }

    /// The request the flow is waiting on; a terminal flow issues none.
    pub fn next_request(&self, client: &gugugagaClient, cookies: &str) -> (r: Option<ApiRequest>)
        ensures
            r is None <==> self.spec_terminal(),
            self is FetchNav ==> (r matches Some(q) && q@ == spec_nav_request(cookies@)),
            self is FetchStat ==> (r matches Some(q) && q@ == spec_stat_request(cookies@)),
    {
        match self {
            UserInfoFlow::FetchNav => Some(client.nav_request(cookies)),
            UserInfoFlow::FetchStat { .. } => Some(client.stat_request(cookies)),
            UserInfoFlow::Done { .. } => None,
            UserInfoFlow::Failed { .. } => None,
        }
    }
}

} // verus!
