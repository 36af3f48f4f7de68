//! Usage buckets read from Anthropic rate-limit response headers, and the
//! decision whether a response reports usage or an error.

use reqwest::header::HeaderMap;
use vstd::prelude::*;

use crate::headers::{
    header_first_values,
    header_text, header_text_spec, is_header_name_char, is_plain_header_name, is_visible_ascii,
    is_visible_ascii_text,
};
use crate::numbers::{is_float_literal, is_float_text, parse_i64, parse_i64_spec};
use crate::text::{ascii_chars, decimal, lemma_ascii_bytes_decode, string_from_utf8};

verus! {

/// Earliest Unix second that chrono represents (`DateTime::<Utc>::MIN_UTC`).
pub const MIN_TIMESTAMP: i64 = -8_334_601_228_800;

/// Latest Unix second that chrono represents (`DateTime::<Utc>::MAX_UTC`).
pub const MAX_TIMESTAMP: i64 = 8_210_266_876_799;

/// Whole seconds that chrono can turn into a `DateTime<Utc>`.
pub open spec fn timestamp_in_range(secs: i64) -> bool {
    MIN_TIMESTAMP <= secs <= MAX_TIMESTAMP
}

/// A point in time as seconds since the Unix epoch and nanoseconds within
/// the second (above one billion only during a leap second).
#[derive(Clone, Copy, Debug, PartialEq, Eq, Structural)]
pub struct Timestamp {
    pub secs: i64,
    pub nanos: u32,
}

/// `chrono::DateTime::from_timestamp(secs, 0)` succeeds exactly when the
/// seconds fall within chrono's date range, from `MIN_UTC` to `MAX_UTC`.
#[verifier::external_body]
fn timestamp_representable(secs: i64) -> (ok: bool)
    ensures
        ok == timestamp_in_range(secs),
{
    chrono::DateTime::from_timestamp(secs, 0).is_some()
}

/// One rate-limit window: its utilization as the header gave it (text that
/// parses as an `f64`) and the Unix second at which the window resets.
#[derive(Debug)]
pub struct UsageBucket {
    pub utilization: String,
    pub resets_at: i64,
}

/// The mathematical content of a [`UsageBucket`].
pub struct BucketView {
    pub utilization: Seq<char>,
    pub resets_at: i64,
}

impl View for UsageBucket {
    type V = BucketView;

    open spec fn view(&self) -> BucketView {
        BucketView { utilization: self.utilization@, resets_at: self.resets_at }
    }
}

/// The view of an optional bucket.
pub open spec fn bucket_view(b: Option<UsageBucket>) -> Option<BucketView> {
    match b {
        Some(b) => Some(b@),
        None => None,
    }
}

/// Usage of the session window, the weekly window and the weekly Sonnet
/// window, and when it was read.
#[derive(Debug)]
pub struct UsageData {
    pub session: Option<UsageBucket>,
    pub weekly_all: Option<UsageBucket>,
    pub weekly_sonnet: Option<UsageBucket>,
    pub last_updated: Timestamp,
}

/// The mathematical content of a [`UsageData`].
pub struct UsageView {
    pub session: Option<BucketView>,
    pub weekly_all: Option<BucketView>,
    pub weekly_sonnet: Option<BucketView>,
    pub last_updated: Timestamp,
}

impl View for UsageData {
    type V = UsageView;

    open spec fn view(&self) -> UsageView {
        UsageView {
            session: bucket_view(self.session),
            weekly_all: bucket_view(self.weekly_all),
            weekly_sonnet: bucket_view(self.weekly_sonnet),
            last_updated: self.last_updated,
        }
    }
}

/// A window name usable inside a header name.
pub open spec fn is_window_name(window: Seq<char>) -> bool {
    &&& 0 < window.len() <= 32
    &&& forall|i: int| 0 <= i < window.len() ==> is_header_name_char(#[trigger] window[i])
}

/// Name of the header holding a window's utilization.
pub open spec fn utilization_header(window: Seq<char>) -> Seq<char> {
    "anthropic-ratelimit-unified-"@ + window + "-utilization"@
}

/// Name of the header holding a window's reset time.
pub open spec fn reset_header(window: Seq<char>) -> Seq<char> {
    "anthropic-ratelimit-unified-"@ + window + "-reset"@
}

/// The bucket of a window: present when its utilization header is text that
/// parses as an `f64`, and its reset header is text that parses as an `i64`
/// second that chrono can represent.
pub open spec fn bucket_spec(headers: HeaderMap, window: Seq<char>) -> Option<BucketView> {
    match header_text_spec(headers, utilization_header(window)) {
        None => None,
        Some(util) => if !is_float_literal(util) {
            None
        } else {
            match header_text_spec(headers, reset_header(window)) {
                None => None,
                Some(reset) => match parse_i64_spec(reset) {
                    None => None,
                    Some(secs) => if timestamp_in_range(secs) {
                        Some(BucketView { utilization: ascii_chars(util), resets_at: secs })
                    } else {
                        None
                    },
                },
            }
        },
    }
}

/// The usage that a set of response headers reports, read at `now`: the
/// session (`5h`) and weekly (`7d`) windows, and the weekly Sonnet window
/// under `7d-sonnet`, or under `7d_sonnet` when the former gives nothing.
pub open spec fn usage_spec(headers: HeaderMap, now: Timestamp) -> UsageView {
    UsageView {
        session: bucket_spec(headers, "5h"@),
        weekly_all: bucket_spec(headers, "7d"@),
        weekly_sonnet: match bucket_spec(headers, "7d-sonnet"@) {
            Some(b) => Some(b),
            None => bucket_spec(headers, "7d_sonnet"@),
        },
        last_updated: now,
    }
}

/// `anthropic-ratelimit-unified-{window}{suffix}`.
fn header_name(window: &str, suffix: &str) -> (name: String)
    requires
        is_window_name(window@),
        suffix@ == "-utilization"@ || suffix@ == "-reset"@,
    ensures
        name@ == "anthropic-ratelimit-unified-"@ + window@ + suffix@,
        is_plain_header_name(name@),
{
    let mut name = "anthropic-ratelimit-unified-".to_owned();
    name.append(window);
    name.append(suffix);
    proof {
        reveal_strlit("anthropic-ratelimit-unified-");
        reveal_strlit("-utilization");
        reveal_strlit("-reset");
        let p = "anthropic-ratelimit-unified-"@;
        assert forall|i: int| 0 <= i < name@.len() implies is_header_name_char(#[trigger] name@[i]) by {
            if i < p.len() {
                assert(name@[i] == p[i]);
            } else if i < p.len() + window@.len() {
                assert(name@[i] == window@[i - p.len()]);
            } else {
                assert(name@[i] == suffix@[i - p.len() - window@.len()]);
            }
        }
    }
    name
}

/// Visible-ASCII bytes as a string of the same characters.
fn ascii_string(bytes: Vec<u8>) -> (s: String)
    requires
        is_visible_ascii_text(bytes@),
    ensures
        s@ == ascii_chars(bytes@),
{
    proof {
        assert forall|i: int| 0 <= i < bytes@.len() implies #[trigger] bytes@[i] < 0x80 by {
            assert(is_visible_ascii(bytes@[i]));
        }
        lemma_ascii_bytes_decode(bytes@);
    }
    match string_from_utf8(bytes) {
        Some(s) => s,
        None => {
            assert(false);
            String::new()
        },
    }
}

/// The bucket of one window: its utilization and reset headers read and checked.
fn parse_bucket(headers: &HeaderMap, window: &str) -> (bucket: Option<UsageBucket>)
    requires
        is_window_name(window@),
    ensures
        bucket_view(bucket) == bucket_spec(*headers, window@),
{
    proof {
        reveal_strlit("-utilization");
        reveal_strlit("-reset");
    }
    let util_name = header_name(window, "-utilization");
    let reset_name = header_name(window, "-reset");
    let util = match header_text(headers, util_name.as_str()) {
        Some(u) => u,
        None => return None,
    };
    assert(util.deep_view() =~= util@);
    if !is_float_text(&util) {
        return None;
    }
    let reset = match header_text(headers, reset_name.as_str()) {
        Some(r) => r,
        None => return None,
    };
    assert(reset.deep_view() =~= reset@);
    let secs = match parse_i64(&reset) {
        Some(secs) => secs,
        None => return None,
    };
    if !timestamp_representable(secs) {
        return None;
    }
    let utilization = ascii_string(util);
    Some(UsageBucket { utilization, resets_at: secs })
}

/// Reads the usage buckets from response headers, stamped with `now`.
pub fn parse_usage_headers(headers: &HeaderMap, now: Timestamp) -> (data: UsageData)
    ensures
        data@ == usage_spec(*headers, now),
{
    proof {
        reveal_strlit("5h");
        reveal_strlit("7d");
        reveal_strlit("7d-sonnet");
        reveal_strlit("7d_sonnet");
    }
    let session = parse_bucket(headers, "5h");
    let weekly_all = parse_bucket(headers, "7d");
    let weekly_sonnet = match parse_bucket(headers, "7d-sonnet") {
        Some(b) => Some(b),
        None => parse_bucket(headers, "7d_sonnet"),
    };
    UsageData { session, weekly_all, weekly_sonnet, last_updated: now }
}

impl UsageData {
    /// Usage with no bucket known, stamped with `now`.
    pub fn empty(now: Timestamp) -> (data: UsageData)
        ensures
            data.session is None,
            data.weekly_all is None,
            data.weekly_sonnet is None,
            data.last_updated == now,
    {
        UsageData { session: None, weekly_all: None, weekly_sonnet: None, last_updated: now }
    }
}

/// The text that `reqwest::StatusCode` displays for a code.
pub uninterp spec fn status_code_text(code: u16) -> Seq<char>;

/// `reqwest::StatusCode::from_u16(code)` displayed with `to_string()`: the
/// three digits of the code, a space, and its canonical reason phrase (or
/// `<unknown status code>`). The reason phrase comes from the crate's table
/// and is left to the name `status_code_text`.
#[verifier::external_body]
fn status_text(code: u16) -> (text: String)
    requires
        100 <= code <= 999,
    ensures
        text@ == status_code_text(code),
        text@.len() > 4,
        text@.subrange(0, 3) == decimal(code as nat),
        text@[3] == ' ',
{
    match reqwest::StatusCode::from_u16(code) {
        Ok(status) => status.to_string(),
        Err(_) => String::new(),
    }
}

/// Whether a status code is in the success class 200–299
/// (`StatusCode::is_success`).
pub open spec fn is_success_status(code: u16) -> bool {
    200 <= code < 300
}

/// A response reports an error when it carried neither a session nor a weekly
/// bucket and its status is neither a success nor 429 (rate limit headers come
/// with 429 responses too).
pub open spec fn response_failed(data: UsageView, status: u16) -> bool {
    data.session is None && data.weekly_all is None && !is_success_status(status) && status != 429
}

/// The message reported for a failed response.
pub open spec fn status_error_message(status: u16) -> Seq<char> {
    "API returned status "@ + status_code_text(status)
}

/// Decides what a usage request reports, given the usage read from its
/// headers and its status code: the usage, or an error naming the status.
pub fn check_response(data: UsageData, status: u16) -> (result: Result<UsageData, String>)
    requires
        100 <= status <= 999,
    ensures
        result is Err <==> response_failed(data@, status),
        data.session is None && data.weekly_all is None && !(200 <= status < 300) && status != 429
            ==> result is Err,
        data.session is Some || data.weekly_all is Some || (200 <= status < 300) || status == 429
            ==> result is Ok,
        result matches Ok(d) ==> d@ == data@,
        result matches Err(message) ==> message@ == status_error_message(status),
{
    if data.session.is_none() && data.weekly_all.is_none() && !(200 <= status && status < 300)
        && status != 429 {
        let mut message = "API returned status ".to_owned();
        let text = status_text(status);
        message.append(text.as_str());
        Err(message)
    } else {
        Ok(data)
    }
}

/// A response fails exactly when it carried neither a session nor a weekly
/// bucket and its status is outside 200–299 and is not 429: every such status
/// (503 included) is reported as an error.
pub proof fn lemma_failure_condition(data: UsageView, status: u16)
    ensures
        response_failed(data, status) <==> (data.session is None && data.weekly_all is None && !(200
            <= status < 300) && status != 429),
{
}

/// A rate-limited (429) or successful response always reports its usage,
/// whatever headers it carried.
pub proof fn lemma_rate_limited_or_success_never_fails(data: UsageView, status: u16)
    requires
        status == 429 || is_success_status(status),
    ensures
        !response_failed(data, status),
{
}

/// A response that carried a session or a weekly bucket reports its usage,
/// whatever its status.
pub proof fn lemma_known_usage_never_fails(data: UsageView, status: u16)
    requires
        data.session is Some || data.weekly_all is Some,
    ensures
        !response_failed(data, status),
{
}

/// The weekly Sonnet bucket is read from `7d-sonnet` when that window yields
/// one; `7d_sonnet` is consulted only when it does not.
pub proof fn lemma_sonnet_window_preference(headers: HeaderMap, now: Timestamp)
    ensures
        bucket_spec(headers, "7d-sonnet"@) is Some ==> usage_spec(headers, now).weekly_sonnet
            == bucket_spec(headers, "7d-sonnet"@),
        bucket_spec(headers, "7d-sonnet"@) is None ==> usage_spec(headers, now).weekly_sonnet
            == bucket_spec(headers, "7d_sonnet"@),
{
}

/// A window whose utilization header is visible-ASCII text that `f64::from_str`
/// accepts, and whose reset header is visible-ASCII text that `i64::from_str`
/// reads as a second within chrono's range, yields a bucket holding exactly
/// that text and that second, whatever the utilization's value (zero included).
pub proof fn lemma_complete_window_gives_bucket(
    headers: HeaderMap,
    window: Seq<char>,
    util: Seq<u8>,
    reset: Seq<u8>,
    secs: i64,
)
    requires
        header_first_values(headers).dom().contains(utilization_header(window)),
        header_first_values(headers)[utilization_header(window)] == util,
        is_visible_ascii_text(util),
        is_float_literal(util),
        header_first_values(headers).dom().contains(reset_header(window)),
        header_first_values(headers)[reset_header(window)] == reset,
        is_visible_ascii_text(reset),
        parse_i64_spec(reset) == Some(secs),
        MIN_TIMESTAMP <= secs <= MAX_TIMESTAMP,
    ensures
        bucket_spec(headers, window) == Some(BucketView { utilization: ascii_chars(util), resets_at: secs }),
{
}

/// A window yields a bucket only when both of its headers are present as
/// visible-ASCII text.
pub proof fn lemma_bucket_needs_both_headers(headers: HeaderMap, window: Seq<char>)
    requires
        bucket_spec(headers, window) is Some,
    ensures
        header_first_values(headers).dom().contains(utilization_header(window)),
        header_first_values(headers).dom().contains(reset_header(window)),
        is_visible_ascii_text(header_first_values(headers)[utilization_header(window)]),
        is_visible_ascii_text(header_first_values(headers)[reset_header(window)]),
{
}

/// The session bucket is that of the `5h` window, and the weekly bucket that
/// of the `7d` window, read at any time.
pub proof fn lemma_session_and_weekly_windows(headers: HeaderMap, now: Timestamp)
    ensures
        usage_spec(headers, now).session == bucket_spec(headers, "5h"@),
        usage_spec(headers, now).weekly_all == bucket_spec(headers, "7d"@),
        usage_spec(headers, now).last_updated == now,
{
}

/// Every bucket read from headers carries utilization text that `f64::from_str`
/// accepts and a reset second that chrono can represent.
pub proof fn lemma_bucket_fields_convert(headers: HeaderMap, window: Seq<char>)
    requires
        bucket_spec(headers, window) is Some,
    ensures
        timestamp_in_range(bucket_spec(headers, window)->0.resets_at),
        exists|util: Seq<u8>|
            is_float_literal(util) && bucket_spec(headers, window)->0.utilization == ascii_chars(util),
{
    let util = header_text_spec(headers, utilization_header(window))->0;
    assert(is_float_literal(util));
}

} // verus!
