//! The simulated clock that stamps each message.
//!
//! Instants are held as whole seconds since the Unix epoch and the nanoseconds
//! since that second, as `chrono` reports them; `chrono` parses, adds and
//! formats them.
use vstd::prelude::*;

use crate::config::model::{TimeConfig, TimeMode};
use crate::error::{MerError, MerErrorView};
use crate::text::{concat3, owned};

verus! {

/// Seconds of the earliest instant `chrono` represents (-262143-01-01T00:00:00Z).
pub const MIN_UTC_SECS: i64 = -8334601315200i64;

/// Seconds of the latest instant `chrono` represents (262142-12-31T23:59:59Z).
pub const MAX_UTC_SECS: i64 = 8210266876799i64;

/// The largest number of seconds a `chrono::TimeDelta` holds (`i64::MAX` milliseconds).
pub const MAX_DELTA_SECS: i64 = 9223372036854775i64;

/// An instant: whole seconds since the Unix epoch and nanoseconds past that second.
/// The nanoseconds reach past one second only during a leap second.
#[derive(Debug, Clone, Copy, PartialEq, Eq, Structural)]
pub struct Timestamp {
    pub secs: i64,
    pub nanos: u32,
}

impl Timestamp {
    /// An instant `chrono` can represent.
    pub open spec fn valid(self) -> bool {
        &&& MIN_UTC_SECS <= self.secs <= MAX_UTC_SECS
        &&& (self.nanos < 1_000_000_000 || (self.nanos < 2_000_000_000 && self.secs % 60 == 59))
    }

    /// The RFC 3339 text of the instant, as `chrono` writes it.
    pub fn to_rfc3339(&self) -> (res: String)
        requires
            self.valid(),
        ensures
            res@ == rfc3339_text(self.secs, self.nanos),
    {
        rfc3339_of(*self)
    }

    /// Whether `chrono` can represent the instant.
    pub fn is_valid(&self) -> (res: bool)
        ensures
            res == self.valid(),
    {
        if self.secs < MIN_UTC_SECS || self.secs > MAX_UTC_SECS {
            return false;
        }
        if self.nanos < 1_000_000_000 {
            return true;
        }
        // `%` truncates towards zero: a second that is 59 past the minute leaves
        // 59 when counted forwards from the epoch and -1 when counted backwards.
        let r: i64 = self.secs % 60;
        self.nanos < 2_000_000_000 && (r == 59 || r == -1)
    }

    /// Whether the instant is inside a leap second.
    pub open spec fn is_leap(self) -> bool {
        self.nanos >= 1_000_000_000
    }
}

/// A number of seconds that fits in a `chrono::TimeDelta`.
pub open spec fn delta_ok(d: int) -> bool {
    -MAX_DELTA_SECS <= d <= MAX_DELTA_SECS
}

/// Adding `d` seconds to `t` stays within the instants `chrono` represents.
pub open spec fn add_ok(t: Timestamp, d: int) -> bool {
    &&& delta_ok(d)
    &&& MIN_UTC_SECS <= t.secs + d
    &&& t.secs + d + (if t.is_leap() { 1int } else { 0int }) <= MAX_UTC_SECS
}

/// The instant an RFC 3339 text denotes, as `chrono::DateTime::parse_from_rfc3339`
/// reads it, or `None` when `chrono` rejects the text.
pub uninterp spec fn rfc3339_instant(text: Seq<char>) -> Option<(i64, u32)>;

/// The instant a text denotes when `chrono::NaiveDateTime::parse_from_str` reads
/// it in the given format and it is taken as UTC, or `None` when rejected.
pub uninterp spec fn utc_naive_instant(text: Seq<char>, format: Seq<char>) -> Option<(i64, u32)>;

/// The RFC 3339 text `chrono` writes for an instant.
pub uninterp spec fn rfc3339_text(secs: i64, nanos: u32) -> Seq<char>;

/// The instant `chrono` computes for an instant plus a number of seconds.
pub uninterp spec fn instant_plus(secs: i64, nanos: u32, delta: i64) -> (i64, u32);

/// The current time (`chrono::Utc::now`). Nothing is stated of which instant it
/// is, only that `chrono` can represent it.
#[verifier::external_body]
fn utc_now() -> (res: Timestamp)
    ensures
        res.valid(),
{
    let now = chrono::Utc::now();
    Timestamp { secs: now.timestamp(), nanos: now.timestamp_subsec_nanos() }
}

/// Parses an RFC 3339 text (`chrono::DateTime::parse_from_rfc3339`) and takes the
/// instant it denotes; the offset it was written with does not change the instant.
#[verifier::external_body]
fn parse_rfc3339(text: &str) -> (res: Option<Timestamp>)
    ensures
        res matches Some(t) ==> t.valid(),
        rfc3339_instant(text@) == (match res {
            Some(t) => Some((t.secs, t.nanos)),
            None => None,
        }),
{
    match chrono::DateTime::parse_from_rfc3339(text) {
        Ok(dt) => Some(Timestamp { secs: dt.timestamp(), nanos: dt.timestamp_subsec_nanos() }),
        Err(_) => None,
    }
}

/// Parses a date and time in `format` (`chrono::NaiveDateTime::parse_from_str`)
/// and reads it as UTC.
#[verifier::external_body]
fn parse_utc_naive(text: &str, format: &str) -> (res: Option<Timestamp>)
    ensures
        res matches Some(t) ==> t.valid(),
        utc_naive_instant(text@, format@) == (match res {
            Some(t) => Some((t.secs, t.nanos)),
            None => None,
        }),
{
    match chrono::NaiveDateTime::parse_from_str(text, format) {
        Ok(naive) => {
            let dt = naive.and_utc();
            Some(Timestamp { secs: dt.timestamp(), nanos: dt.timestamp_subsec_nanos() })
        },
        Err(_) => None,
    }
}

/// `t` plus `delta` seconds (`DateTime<Utc> + TimeDelta::seconds`). Outside a leap
/// second this is plain addition of seconds; `chrono` documents that it counts
/// no leap seconds. The arguments keep the addition from panicking.
#[verifier::external_body]
fn add_seconds(t: Timestamp, delta: i64) -> (res: Timestamp)
    requires
        t.valid(),
        add_ok(t, delta as int),
    ensures
        (res.secs, res.nanos) == instant_plus(t.secs, t.nanos, delta),
        res.valid(),
        !t.is_leap() ==> res == (Timestamp { secs: (t.secs + delta) as i64, nanos: t.nanos }),
{
    match chrono::DateTime::from_timestamp(t.secs, t.nanos) {
        Some(dt) => {
            let r = dt + chrono::TimeDelta::seconds(delta);
            Timestamp { secs: r.timestamp(), nanos: r.timestamp_subsec_nanos() }
        },
        None => t,
    }
}

/// The RFC 3339 text of an instant (`DateTime<Utc>::to_rfc3339`).
#[verifier::external_body]
fn rfc3339_of(t: Timestamp) -> (res: String)
    requires
        t.valid(),
    ensures
        res@ == rfc3339_text(t.secs, t.nanos),
{
    match chrono::DateTime::from_timestamp(t.secs, t.nanos) {
        Some(dt) => dt.to_rfc3339(),
        None => String::new(),
    }
}

/// Whether `r` is a value `rand::Rng::gen_range` may draw from `lo..=hi` on the
/// thread's generator. Which one it draws is chance.
pub uninterp spec fn drawn_between(lo: int, hi: int, r: int) -> bool;

/// A random number in `lo..=hi` (`rand::Rng::gen_range` on the thread's generator).
/// The contract says that the number lies in the range and was drawn from it; which
/// number is drawn is left unsaid, as it rests on chance.
#[verifier::external_body]
fn random_between(lo: i64, hi: i64) -> (res: i64)
    requires
        lo <= hi,
    ensures
        lo <= res <= hi,
        drawn_between(lo as int, hi as int, res as int),
{
    rand::Rng::gen_range(&mut rand::thread_rng(), lo..=hi)
}

/// The instant a configured start text denotes: RFC 3339 first, then
/// `YYYY-MM-DD HH:MM:SS` read as UTC.
pub open spec fn start_instant(text: Seq<char>) -> Option<(i64, u32)> {
    if rfc3339_instant(text) is Some {
        rfc3339_instant(text)
    } else {
        utc_naive_instant(text, "%Y-%m-%d %H:%M:%S"@)
    }
}

/// The error for a start text that is neither form.
pub open spec fn bad_start_error(text: Seq<char>) -> MerErrorView {
    MerErrorView::Config(
        "Invalid time.start '"@ + text
            + "': expected RFC3339 (2026-01-01T00:00:00Z) or 'YYYY-MM-DD HH:MM:SS'"@,
    )
}

/// Reads a configured start instant.
pub fn parse_start(text: &str) -> (res: Result<Timestamp, MerError>)
    ensures
        match start_instant(text@) {
            Some(p) => res matches Ok(t) && (t.secs, t.nanos) == p && t.valid(),
            None => res matches Err(e) && e@ == bad_start_error(text@),
        },
{
    if let Some(t) = parse_rfc3339(text) {
        return Ok(t);
    }
    if let Some(t) = parse_utc_naive(text, "%Y-%m-%d %H:%M:%S") {
        return Ok(t);
    }
    Err(
        MerError::Config(
            concat3(
                "Invalid time.start '",
                text,
                "': expected RFC3339 (2026-01-01T00:00:00Z) or 'YYYY-MM-DD HH:MM:SS'",
            ),
        ),
    )
}

/// Whether a time section can be turned into a clock: its start, when given, is
/// a text `chrono` reads.
pub open spec fn clock_config_ok(cfg: Option<TimeConfig>) -> bool {
    match cfg {
        Some(t) => match t.start {
            Some(s) => start_instant(s@) is Some,
            None => true,
        },
        None => true,
    }
}

/// The clock a time section describes: the real clock writing under `"ts"` when
/// there is none; otherwise its mode, steps (0 when absent) and field, starting at
/// its start instant (some valid instant when absent) with the current instant
/// at the start.
pub open spec fn clock_from_config(cfg: Option<TimeConfig>, c: SimClockView) -> bool {
    &&& c.current == c.start
    &&& match cfg {
        None => {
            &&& c.mode == TimeMode::Real
            &&& c.step_secs == 0
            &&& c.min_secs == 0
            &&& c.max_secs == 0
            &&& c.field == "ts"@
        },
        Some(t) => {
            &&& c.mode == t.mode
            &&& c.step_secs == t.step_secs.unwrap_or(0)
            &&& c.min_secs == t.min_secs.unwrap_or(0)
            &&& c.max_secs == t.max_secs.unwrap_or(0)
            &&& c.field == t.field@
            &&& t.start matches Some(s) ==> start_instant(s@) == Some((c.start.secs, c.start.nanos))
        },
    }
}

/// The settings and state of a clock.
pub struct SimClockView {
    pub mode: TimeMode,
    pub start: Timestamp,
    pub step_secs: i64,
    pub min_secs: i64,
    pub max_secs: i64,
    pub current: Timestamp,
    pub field: Seq<char>,
}

/// The clock that stamps messages. It is shared by all devices and moves on once
/// per message, in the order of the message sequence numbers.
pub struct SimClock {
    mode: TimeMode,
    start: Timestamp,
    step_secs: i64,
    min_secs: i64,
    max_secs: i64,
    current: Timestamp,
    field: String,
}

impl View for SimClock {
    type V = SimClockView;

    closed spec fn view(&self) -> SimClockView {
        SimClockView {
            mode: self.mode,
            start: self.start,
            step_secs: self.step_secs,
            min_secs: self.min_secs,
            max_secs: self.max_secs,
            current: self.current,
            field: self.field@,
        }
    }
}

/// The smallest and largest step a random clock can take.
pub open spec fn random_step_bounds(c: SimClockView) -> (i64, i64) {
    if c.max_secs > c.min_secs {
        (c.min_secs, c.max_secs)
    } else {
        (c.min_secs, c.min_secs)
    }
}

/// Whether stamping message `seq` stays within what `chrono` can represent,
/// whatever random step is drawn.
pub open spec fn can_stamp(c: SimClockView, seq: nat) -> bool {
    match c.mode {
        TimeMode::Real => true,
        TimeMode::Fixed => seq <= i64::MAX && add_ok(c.start, c.step_secs * seq),
        TimeMode::Random => {
            let (lo, hi) = random_step_bounds(c);
            add_ok(c.current, lo as int) && add_ok(c.current, hi as int)
        },
    }
}

/// Whether `step` is how far the random clock `c` may move: a number drawn from
/// `min_secs..=max_secs` when `max_secs` is larger, else exactly `min_secs`.
pub open spec fn step_drawn(c: SimClockView, step: i64) -> bool {
    if c.max_secs > c.min_secs {
        drawn_between(c.min_secs as int, c.max_secs as int, step as int)
    } else {
        step == c.min_secs
    }
}

/// How the clock `c1` and the stamp `ts` follow from the clock `c0` stamping
/// message `seq`: the settings stay; the real clock gives some valid instant; the
/// fixed clock gives `start + seq * step_secs`; the random clock gives its current
/// instant and moves on by a step between its bounds.
pub open spec fn stamp_step(c0: SimClockView, c1: SimClockView, seq: nat, ts: Timestamp) -> bool {
    &&& ts.valid()
    &&& c1.mode == c0.mode
    &&& c1.start == c0.start
    &&& c1.step_secs == c0.step_secs
    &&& c1.min_secs == c0.min_secs
    &&& c1.max_secs == c0.max_secs
    &&& c1.field == c0.field
    &&& c0.mode != TimeMode::Random ==> c1.current == c0.current
    &&& c0.mode == TimeMode::Fixed ==> (ts.secs, ts.nanos) == instant_plus(
        c0.start.secs,
        c0.start.nanos,
        (c0.step_secs * seq) as i64,
    )
    &&& c0.mode == TimeMode::Random ==> ts == c0.current && exists|step: i64|
        random_step_bounds(c0).0 <= step <= random_step_bounds(c0).1 && #[trigger] step_drawn(
            c0,
            step,
        ) && (
        c1.current.secs,
        c1.current.nanos,
    ) == instant_plus(c0.current.secs, c0.current.nanos, step)
    &&& c0.mode == TimeMode::Fixed && !c0.start.is_leap() ==> ts == (Timestamp {
        secs: (c0.start.secs + c0.step_secs * seq) as i64,
        nanos: c0.start.nanos,
    })
    &&& c0.mode == TimeMode::Random && !c0.current.is_leap() ==> {
        &&& random_step_bounds(c0).0 <= c1.current.secs - c0.current.secs
            <= random_step_bounds(c0).1
        &&& c1.current.nanos == c0.current.nanos
    }
}

/// A series of stamps: `cs[k]` is the clock before message `seqs[k]` is
/// stamped, `cs[k + 1]` the clock after it, and `ts[k]` the stamp given.
pub open spec fn stamped_in_turn(cs: Seq<SimClockView>, seqs: Seq<nat>, ts: Seq<Timestamp>) -> bool {
    &&& cs.len() == ts.len() + 1
    &&& seqs.len() == ts.len()
    &&& forall|k: int| 0 <= k < ts.len() ==> #[trigger] stamp_step(cs[k], cs[k + 1], seqs[k], ts[k])
}

/// Stamping never changes a clock's settings.
proof fn lemma_settings_kept(cs: Seq<SimClockView>, seqs: Seq<nat>, ts: Seq<Timestamp>, k: int)
    requires
        stamped_in_turn(cs, seqs, ts),
        0 <= k <= ts.len(),
    ensures
        cs[k].mode == cs[0].mode,
        cs[k].start == cs[0].start,
        cs[k].step_secs == cs[0].step_secs,
        cs[k].min_secs == cs[0].min_secs,
        cs[k].max_secs == cs[0].max_secs,
        cs[k].field == cs[0].field,
    decreases k,
{
    if k > 0 {
        let j = k - 1;
        lemma_settings_kept(cs, seqs, ts, j);
        assert(stamp_step(cs[j], cs[j + 1], seqs[j], ts[j]));
    }
}

/// Clock law over a series of stamps. Every stamp is an instant `chrono`
/// represents. The fixed clock stamps message `n` with its start plus `n` steps,
/// whatever was stamped before. The random clock's first stamp is its current
/// instant (its start, for a clock made by `from_config`), and each later stamp
/// lies a drawn step within the bounds past the one before.
pub proof fn clock_stamps_in_series(cs: Seq<SimClockView>, seqs: Seq<nat>, ts: Seq<Timestamp>)
    requires
        stamped_in_turn(cs, seqs, ts),
    ensures
        forall|k: int| 0 <= k < ts.len() ==> (#[trigger] ts[k]).valid(),
        cs[0].mode == TimeMode::Fixed ==> forall|k: int|
            0 <= k < ts.len() ==> ((#[trigger] ts[k]).secs, ts[k].nanos) == instant_plus(
                cs[0].start.secs,
                cs[0].start.nanos,
                (cs[0].step_secs * seqs[k]) as i64,
            ),
        cs[0].mode == TimeMode::Fixed && !cs[0].start.is_leap() ==> forall|k: int|
            0 <= k < ts.len() ==> #[trigger] ts[k] == (Timestamp {
                secs: (cs[0].start.secs + cs[0].step_secs * seqs[k]) as i64,
                nanos: cs[0].start.nanos,
            }),
        cs[0].mode == TimeMode::Random && ts.len() > 0 ==> ts[0] == cs[0].current,
        cs[0].mode == TimeMode::Random ==> forall|k: int|
            #![trigger ts[k]]
            0 <= k && k + 1 < ts.len() ==> exists|step: i64|
                random_step_bounds(cs[0]).0 <= step <= random_step_bounds(cs[0]).1
                    && #[trigger] step_drawn(cs[0], step) && (ts[k + 1].secs, ts[k + 1].nanos)
                    == instant_plus(ts[k].secs, ts[k].nanos, step),
        cs[0].mode == TimeMode::Random ==> forall|k: int|
            0 <= k && k + 1 < ts.len() && !(#[trigger] ts[k]).is_leap() ==> {
                &&& random_step_bounds(cs[0]).0 <= ts[k + 1].secs - ts[k].secs
                    <= random_step_bounds(cs[0]).1
                &&& ts[k + 1].nanos == ts[k].nanos
            },
{
    assert forall|k: int| 0 <= k < ts.len() implies {
        &&& (#[trigger] ts[k]).valid()
        &&& cs[k].mode == cs[0].mode
        &&& cs[k].start == cs[0].start
        &&& cs[k].step_secs == cs[0].step_secs
        &&& cs[k].min_secs == cs[0].min_secs
        &&& cs[k].max_secs == cs[0].max_secs
        &&& stamp_step(cs[k], cs[k + 1], seqs[k], ts[k])
    } by {
        lemma_settings_kept(cs, seqs, ts, k);
        assert(stamp_step(cs[k], cs[k + 1], seqs[k], ts[k]));
    }
    if ts.len() > 0 {
        assert(stamp_step(cs[0], cs[1], seqs[0], ts[0]));
    }
    if cs[0].mode == TimeMode::Random {
        assert forall|k: int| #![trigger ts[k]] 0 <= k && k + 1 < ts.len() implies exists|step: i64|
            random_step_bounds(cs[0]).0 <= step <= random_step_bounds(cs[0]).1
                && #[trigger] step_drawn(cs[0], step) && (ts[k + 1].secs, ts[k + 1].nanos)
                == instant_plus(ts[k].secs, ts[k].nanos, step) by {
            lemma_settings_kept(cs, seqs, ts, k);
            lemma_settings_kept(cs, seqs, ts, k + 1);
            assert(stamp_step(cs[k], cs[k + 1], seqs[k], ts[k]));
            let j = k + 1;
            assert(stamp_step(cs[j], cs[j + 1], seqs[j], ts[j]));
            let step = choose|step: i64|
                random_step_bounds(cs[k]).0 <= step <= random_step_bounds(cs[k]).1
                    && #[trigger] step_drawn(cs[k], step) && (cs[k + 1].current.secs, cs[k
                    + 1].current.nanos) == instant_plus(cs[k].current.secs, cs[k].current.nanos, step);
            assert(step_drawn(cs[0], step));
        }
        assert forall|k: int| 0 <= k && k + 1 < ts.len() && !(#[trigger] ts[k]).is_leap() implies {
            &&& random_step_bounds(cs[0]).0 <= ts[k + 1].secs - ts[k].secs
                <= random_step_bounds(cs[0]).1
            &&& ts[k + 1].nanos == ts[k].nanos
        } by {
            lemma_settings_kept(cs, seqs, ts, k);
            lemma_settings_kept(cs, seqs, ts, k + 1);
            assert(stamp_step(cs[k], cs[k + 1], seqs[k], ts[k]));
            let j = k + 1;
            assert(stamp_step(cs[j], cs[j + 1], seqs[j], ts[j]));
        }
    }
}

impl SimClock {
    /// The instants the clock holds are ones `chrono` represents.
    #[verifier::type_invariant]
    spec fn instants_valid(&self) -> bool {
        self.start.valid() && self.current.valid()
    }

    /// The clock a configuration describes; without a time section, the real clock
    /// writing under `"ts"`.
    pub fn from_config(cfg: &Option<TimeConfig>) -> (res: Result<Self, MerError>)
        ensures
            res is Ok <==> clock_config_ok(*cfg),
            res matches Ok(c) ==> clock_from_config(*cfg, c@),
            res matches Err(e) ==> (cfg matches Some(t) && t.start matches Some(s) && e@
                == bad_start_error(s@)),
    {
        match cfg {
            None => {
                let now = utc_now();
                Ok(
                    SimClock {
                        mode: TimeMode::Real,
                        start: now,
                        step_secs: 0,
                        min_secs: 0,
                        max_secs: 0,
                        current: now,
                        field: owned("ts"),
                    },
                )
            },
            Some(t) => {
                let start = match &t.start {
                    Some(s) => parse_start(s.as_str())?,
                    None => utc_now(),
                };
                Ok(
                    SimClock {
                        mode: t.mode,
                        start,
                        step_secs: t.step_secs.unwrap_or(0),
                        min_secs: t.min_secs.unwrap_or(0),
                        max_secs: t.max_secs.unwrap_or(0),
                        current: start,
                        field: owned(t.field.as_str()),
                    },
                )
            },
        }
    }

    /// The payload key the timestamp is written under.
    pub fn field(&self) -> (res: &str)
        ensures
            res@ == self@.field,
    {
        self.field.as_str()
    }

    /// Whether `timestamp(seq)` can be called: stamping message `seq` stays within
    /// what `chrono` represents.
    pub fn can_stamp(&self, seq: usize) -> (res: bool)
        ensures
            res == can_stamp(self@, seq as nat),
    {
        match self.mode {
            TimeMode::Real => true,
            TimeMode::Fixed => {
                if seq as u64 > i64::MAX as u64 {
                    return false;
                }
                let step = self.step_secs as i128;
                let n = seq as i128;
                assert(-0x4000_0000_0000_0000_0000_0000_0000_0000 <= step * n
                    <= 0x4000_0000_0000_0000_0000_0000_0000_0000) by (nonlinear_arith)
                    requires
                        -0x8000_0000_0000_0000 <= step < 0x8000_0000_0000_0000,
                        0 <= n < 0x8000_0000_0000_0000,
                {
                }
                Self::add_fits(self.start, step * n)
            },
            TimeMode::Random => {
                let (lo, hi) = if self.max_secs > self.min_secs {
                    (self.min_secs, self.max_secs)
                } else {
                    (self.min_secs, self.min_secs)
                };
                Self::add_fits(self.current, lo as i128) && Self::add_fits(self.current, hi as i128)
            },
        }
    }

    /// Whether adding `d` seconds to `t` stays within what `chrono` represents.
    fn add_fits(t: Timestamp, d: i128) -> (res: bool)
        ensures
            res == add_ok(t, d as int),
    {
        if d < -(MAX_DELTA_SECS as i128) || d > MAX_DELTA_SECS as i128 {
            return false;
        }
        let sum = t.secs as i128 + d;
        let leap: i128 = if t.nanos >= 1_000_000_000 { 1 } else { 0 };
        (MIN_UTC_SECS as i128) <= sum && sum + leap <= MAX_UTC_SECS as i128
    }

    /// The timestamp of message `seq`. The real clock reads the current time; the
    /// fixed clock gives `start + seq * step_secs`; the random clock gives its
    /// current instant and then moves on by a random step in `[min_secs, max_secs]`
    /// (by exactly `min_secs` when `max_secs` is not larger).
    pub fn timestamp(&mut self, seq: usize) -> (res: Timestamp)
        requires
            can_stamp(old(self)@, seq as nat),
        ensures
            stamp_step(old(self)@, final(self)@, seq as nat, res),
    {
        proof {
            use_type_invariant(&*self);
        }
        match self.mode {
            TimeMode::Real => utc_now(),
            TimeMode::Fixed => {
                let d = self.step_secs * (seq as i64);
                add_seconds(self.start, d)
            },
            TimeMode::Random => {
                let ghost c0 = self@;
                let ts = self.current;
                let step = if self.max_secs > self.min_secs {
                    random_between(self.min_secs, self.max_secs)
                } else {
                    self.min_secs
                };
                assert(step_drawn(c0, step));
                self.current = add_seconds(self.current, step);
                ts
            },
        }
    }
}

} // verus!
