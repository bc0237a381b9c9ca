use vstd::arithmetic::power2::{lemma2_to64, lemma_pow2_strictly_increases, lemma_pow2_unfold, pow2};
use vstd::prelude::*;

use crate::position::{Position, PositionStore};

verus! {

/// Why reading the feed failed.
#[derive(Clone, Copy, Debug, PartialEq, Eq, Structural)]
pub enum FeedError {
    /// A line that is not valid JSON. Fatal to the read loop: the
    /// stream is not resynchronized mid-way, only the initial
    /// connection is ever retried.
    Malformed,
}

/// The fixed handshake sent upon connecting to the feed: enable
/// watching, JSON mode.
pub open spec fn spec_watch_command() -> Seq<char> {
    "?WATCH={\"enable\":true,\"json\":true}"@
}

/// The handshake line the client sends right after connecting.
pub fn watch_command() -> (r: &'static str)
    ensures
        r@ == spec_watch_command(),
{
    "?WATCH={\"enable\":true,\"json\":true}"
}

/// The fields a feed message can contribute to a fix, each missing when
/// the message lacks it or gives it an unusable type: the message class,
/// the fix mode, the timestamp, and the two coordinates as raw IEEE bit
/// patterns.
#[derive(Debug)]
pub struct TpvFields {
    pub class: Option<String>,
    pub mode: Option<u64>,
    pub time: Option<String>,
    pub lat_bits: Option<u64>,
    pub lon_bits: Option<u64>,
}

/// Whether serde_json accepts the line as one JSON value.
pub uninterp spec fn json_line_ok(s: Seq<char>) -> bool;

/// The fields a line of the feed yields once parsed: which fields a
/// given text carries is a function of the text alone.
pub uninterp spec fn tpv_fields_of(s: Seq<char>) -> TpvFields;

/// Relies on serde_json::from_str and on serde_json::Value's accessors
/// get, as_str, as_u64 and as_f64: parsing succeeds exactly when
/// serde_json accepts the line, and both acceptance and the fields a
/// line carries are functions of the text alone. The two coordinates
/// come out as the raw bit patterns of the 64-bit IEEE values.
#[verifier::external_body]
fn parse_fields(line: &str) -> (r: Option<TpvFields>)
    ensures
        r is Some <==> json_line_ok(line@),
        r matches Some(f) ==> f == tpv_fields_of(line@),
{
    let v: serde_json::Value = match serde_json::from_str(line) {
        Ok(v) => v,
        Err(_) => return None,
    };
    Some(TpvFields {
        class: v.get("class").and_then(|c| c.as_str()).map(|s| s.to_owned()),
        mode: v.get("mode").and_then(|m| m.as_u64()),
        time: v.get("time").and_then(|t| t.as_str()).map(|s| s.to_owned()),
        lat_bits: v.get("lat").and_then(|x| x.as_f64()).map(|x| x.to_bits()),
        lon_bits: v.get("lon").and_then(|x| x.as_f64()).map(|x| x.to_bits()),
    })
}

/// The message class is "TPV": time-position-velocity.
pub open spec fn class_is_tpv(msg: TpvFields) -> bool {
    match msg.class {
        Some(c) => c@ == "TPV"@,
        None => false,
    }
}

/// The mode field announces a 2-D or 3-D fix. Modes 0 and 1 mean no
/// fix; a missing, null, negative or non-integer mode deliberately
/// counts as no fix rather than as an error — only a line that is not
/// valid JSON is fatal to the feed.
pub open spec fn mode_has_fix(msg: TpvFields) -> bool {
    msg.mode == Some(2u64) || msg.mode == Some(3u64)
}

/// A message yields a fix exactly when it is a TPV message whose mode
/// announces one.
pub open spec fn is_fix_message(msg: TpvFields) -> bool {
    class_is_tpv(msg) && mode_has_fix(msg)
}

/// The timestamp a fix takes from the message: missing time defaults to
/// the empty string.
pub open spec fn fix_time(msg: TpvFields) -> Seq<char> {
    match msg.time {
        Some(t) => t@,
        None => Seq::<char>::empty(),
    }
}

/// The latitude bits a fix takes from the message: a missing latitude
/// defaults to zero, the bit pattern of coordinate zero.
pub open spec fn fix_lat_bits(msg: TpvFields) -> u64 {
    match msg.lat_bits {
        Some(b) => b,
        None => 0u64,
    }
}

/// The longitude bits a fix takes from the message: a missing longitude
/// defaults to zero, the bit pattern of coordinate zero.
pub open spec fn fix_lon_bits(msg: TpvFields) -> u64 {
    match msg.lon_bits {
        Some(b) => b,
        None => 0u64,
    }
}

/// Decide what a message means: a TPV message in mode 2 or 3 yields the
/// fix built from its time and coordinates, with the documented
/// defaults for missing fields; every other message — another class, no
/// fix, or a TPV whose mode is missing or unusable — yields nothing and
/// leaves any prior fix in force.
pub fn interpret(msg: TpvFields) -> (r: Option<Position>)
    ensures
        r is Some <==> is_fix_message(msg),
        match r {
            Some(fix) => {
                &&& fix.time@ == fix_time(msg)
                &&& fix.lat_bits == fix_lat_bits(msg)
                &&& fix.lon_bits == fix_lon_bits(msg)
            },
            None => true,
        },
{
    let is_tpv = match &msg.class {
        Some(c) => {
            let tpv: String = "TPV".to_owned();
            *c == tpv
        },
        None => false,
    };
    if !is_tpv {
        return None;
    }
    let has_fix = match msg.mode {
        Some(m) => m == 2 || m == 3,
        None => false,
    };
    if !has_fix {
        return None;
    }
    let time = match msg.time {
        Some(t) => t,
        None => String::new(),
    };
    let lat_bits = match msg.lat_bits {
        Some(b) => b,
        None => 0,
    };
    let lon_bits = match msg.lon_bits {
        Some(b) => b,
        None => 0,
    };
    Some(Position { time, lat_bits, lon_bits })
}

/// Read one line of the feed: a line that is not valid JSON is the
/// fatal `Malformed` error, exactly when serde_json rejects it; a valid
/// line yields a fix exactly when the fields it carries announce one,
/// and the fix is built from those fields with the documented defaults.
pub fn process_line(line: &str) -> (r: Result<Option<Position>, FeedError>)
    ensures
        r is Err <==> !json_line_ok(line@),
        r == Err::<Option<Position>, FeedError>(FeedError::Malformed) <==> !json_line_ok(line@),
        r matches Ok(m) ==> (m is Some <==> is_fix_message(tpv_fields_of(line@))),
        r matches Ok(Some(fix)) ==> {
            &&& fix.time@ == fix_time(tpv_fields_of(line@))
            &&& fix.lat_bits == fix_lat_bits(tpv_fields_of(line@))
            &&& fix.lon_bits == fix_lon_bits(tpv_fields_of(line@))
        },
{
    match parse_fields(line) {
        None => Err(FeedError::Malformed),
        Some(fields) => Ok(interpret(fields)),
    }
}

/// The delay before connection retry number `retries`, in milliseconds:
/// binary exponential backoff, `2 ^ retries`, with no cap on the retry
/// count — the delay saturates at the machine word once the exponent
/// no longer fits.
pub fn backoff_delay_ms(retries: u32) -> (r: u64)
    ensures
        retries < 64 ==> r == pow2(retries as nat),
        retries >= 64 ==> r == u64::MAX,
{
    if retries >= 64 {
        u64::MAX
    } else {
        let mut i: u32 = 0;
        let mut r: u64 = 1;
        proof {
            lemma2_to64();
        }
        while i < retries
            invariant
                i <= retries,
                retries < 64,
                r == pow2(i as nat),
            decreases retries - i,
        {
            proof {
                lemma_pow2_unfold((i + 1) as nat);
                lemma_pow2_strictly_increases((i + 1) as nat, 64);
                lemma2_to64();
            }
            r = r * 2;
            i = i + 1;
        }
        r
    }
}

/// The resilient client for the line-delimited JSON position feed: it
/// owns the store of the latest fix and the retry counter for the
/// connection backoff. The connecting, handshaking and line reading are
/// the caller's loop; this state decides how long to back off and what
/// each line does to the store.
pub struct LocationFeedClient {
    pub retries: u32,
    pub store: PositionStore,
}

impl LocationFeedClient {
    /// A fresh client: no retries yet, the store at its default fix.
    pub fn new() -> (c: LocationFeedClient)
        ensures
            c.retries == 0,
            c.store.stored().time@ == Seq::<char>::empty(),
            c.store.stored().lat_bits == 0,
            c.store.stored().lon_bits == 0,
    {
        LocationFeedClient { retries: 0, store: PositionStore::new() }
    }

    /// The delay to wait before the next connection attempt, bumping
    /// the retry counter. Connection failure is never fatal: the count
    /// is unbounded, and only the delay saturates.
    pub fn next_backoff_ms(&mut self) -> (r: u64)
        ensures
            old(self).retries < 64 ==> r == pow2(old(self).retries as nat),
            old(self).retries >= 64 ==> r == u64::MAX,
            final(self).retries == if old(self).retries < u32::MAX {
                (old(self).retries + 1) as u32
            } else {
                u32::MAX
            },
            final(self).store == old(self).store,
    {
        let delay: u64 = backoff_delay_ms(self.retries);
        self.retries = self.retries.saturating_add(1);
        delay
    }

    /// Feed one line into the client. A line that is not valid JSON is
    /// the fatal error, and the store keeps its fix. A valid line that
    /// carries a fix replaces the stored one with exactly that fix (the
    /// result is `Ok(true)`); any other valid line leaves the store
    /// untouched (`Ok(false)`).
    pub fn on_line(&mut self, line: &str) -> (r: Result<bool, FeedError>)
        ensures
            final(self).retries == old(self).retries,
            r is Err <==> !json_line_ok(line@),
            r == Ok::<bool, FeedError>(true) <==> json_line_ok(line@) && is_fix_message(
                tpv_fields_of(line@),
            ),
            r == Ok::<bool, FeedError>(true) ==> {
                &&& final(self).store.stored().time@ == fix_time(tpv_fields_of(line@))
                &&& final(self).store.stored().lat_bits == fix_lat_bits(tpv_fields_of(line@))
                &&& final(self).store.stored().lon_bits == fix_lon_bits(tpv_fields_of(line@))
            },
            r == Ok::<bool, FeedError>(false) || r is Err ==> final(self).store
                == old(self).store,
    {
        match process_line(line) {
            Err(e) => Err(e),
            Ok(None) => Ok(false),
            Ok(Some(fix)) => {
                self.store.set(fix);
                Ok(true)
            },
        }
    }
}

} // verus!
