//! Importing sessions exported by other meditation apps. Each source's rows are
//! read (by the caller) into plain records; here the rows that qualify are
//! selected, durations read, overlaps with existing sessions dropped, and the
//! totals and the SQL that stores the result built.
use vstd::prelude::*;
use crate::datetime::{
    Instant, at_or_before, naive_utc_parse, parse_naive_utc, shifted_before, to_rfc3339,
    utc_day, utc_rfc3339,
};
use crate::ids::{is_ulid_char_upper, new_ulid_string};
use crate::meditation::Meditation;
use crate::parse::{
    chars_of, first_word, first_word_of, parse_i32, parsed_i32, split_chars, split_on,
    string_of,
};
use crate::text::{int_decimal, nat_decimal, push_i64, push_str, push_u64, trunc_div, trunc_rem};

verus! {

/// Whether an import takes every row or only rows newer than the latest session.
#[derive(Debug, Clone, Copy, PartialEq, Eq, Structural)]
pub enum ImportType {
    NewEntries,
    AllEntries,
}

/// The apps whose exports can be imported.
#[derive(Debug, Clone, Copy, PartialEq, Eq, Structural)]
pub enum Source {
    AppleHealth,
    FinchBreathing,
    FinchMeditation,
    InsightTimer,
    MindfulnessCoach,
    WakingUp,
}

/// Why an import was refused.
#[derive(Debug, Clone, Copy, PartialEq, Eq, Structural)]
pub enum ImportError {
    /// A duration field holds something that is not a number.
    InvalidNumber,
    /// An Insight Timer duration has fewer than three `:`-separated fields.
    MissingDurationField,
    /// A duration or a running total does not fit in 32 bits.
    TotalOverflow,
}

/// A session to be stored.
#[derive(Debug, Clone, Copy, PartialEq, Eq, Structural)]
pub struct BloomRecord {
    pub occurred_at: Instant,
    pub meditation_minutes: i32,
    pub meditation_seconds: i32,
}

/// The result of an import: the sessions, their total minutes and seconds, and a
/// description of the source.
pub struct Import {
    pub data: Vec<BloomRecord>,
    pub minutes: i32,
    pub seconds: i32,
    pub source: String,
}

/// A row of an Apple Health export (prepared with Bloom Parser).
pub struct AppleHealthRecord {
    pub app_name: String,
    pub occurred_at: Instant,
    pub meditation_minutes: i32,
    pub meditation_seconds: i32,
}

/// A row of an Insight Timer export.
pub struct InsightTimerRecord {
    pub start_time: String,
    pub duration: String,
    pub preset: Option<String>,
    pub activity: String,
}

/// A row of a VA Mindfulness Coach export.
pub struct MindfulnessCoachRecord {
    pub date: String,
    pub duration: String,
}

/// A row of a Waking Up export.
pub struct WakingUpRecord {
    pub date: String,
    pub title: String,
    pub duration: String,
}

/// A Finch timer session export.
pub struct FinchTimerSession {
    pub data: Vec<FinchTimerSessionRecord>,
}

/// One Finch timer session.
pub struct FinchTimerSessionRecord {
    pub timer_type: i32,
    pub selected_duration: i32,
    pub start_time: String,
    pub completed_time: String,
}

/// A Finch breathing session export.
pub struct FinchBreathingSession {
    pub data: Vec<FinchBreathingSessionRecord>,
}

/// One Finch breathing session.
pub struct FinchBreathingSessionRecord {
    pub breathing_type: String,
    pub duration: i32,
    pub start_time: String,
    pub completed_time: String,
}

/// What becomes of one row.
#[derive(Debug, Clone, Copy, PartialEq, Eq, Structural)]
pub enum RowOutcome {
    Skip,
    Take(BloomRecord),
    Fail(ImportError),
}

/// Sessions taken so far and their running totals.
pub struct Tally {
    pub records: Seq<BloomRecord>,
    pub minutes: int,
    pub seconds: int,
}

pub open spec fn fits_i32(x: int) -> bool {
    i32::MIN <= x <= i32::MAX
}

/// The rows' outcomes taken in order: taken sessions are collected and summed;
/// the first failing row, or the first total that leaves the `i32` range, ends
/// the import with that error.
pub open spec fn tally(outs: Seq<RowOutcome>) -> Result<Tally, ImportError>
    decreases outs.len(),
{
    if outs.len() == 0 {
        Ok(Tally { records: Seq::empty(), minutes: 0, seconds: 0 })
    } else {
        match tally(outs.drop_last()) {
            Err(e) => Err(e),
            Ok(t) => match outs.last() {
                RowOutcome::Skip => Ok(t),
                RowOutcome::Fail(e) => Err(e),
                RowOutcome::Take(r) => {
                    let m = t.minutes + r.meditation_minutes;
                    let s = t.seconds + r.meditation_seconds;
                    if fits_i32(m) && fits_i32(s) {
                        Ok(Tally { records: t.records.push(r), minutes: m, seconds: s })
                    } else {
                        Err(ImportError::TotalOverflow)
                    }
                },
            },
        }
    }
}

/// An existing session and a new one of `minutes` minutes starting at `start`
/// fall on the same UTC day and their time spans touch or overlap.
pub open spec fn overlaps(e: Meditation, start: Instant, minutes: int) -> bool {
    &&& utc_day(e.occurred_at) == utc_day(start)
    &&& !(shifted_before(e.occurred_at, e.minutes as int, start) || shifted_before(
        start,
        minutes,
        e.occurred_at,
    ))
}

/// The new session overlaps one of the existing sessions.
pub open spec fn overlaps_any(current: Seq<Meditation>, start: Instant, minutes: int) -> bool {
    exists|i: int| 0 <= i < current.len() && overlaps(#[trigger] current[i], start, minutes)
}

/// A row is left out as already imported: only new entries are wanted and it is
/// not later than the latest stored session.
pub open spec fn is_old(import_type: ImportType, t: Instant, latest: Instant) -> bool {
    import_type == ImportType::NewEntries && at_or_before(t, latest)
}

pub open spec fn instant_of(p: (i64, u32)) -> Instant {
    Instant { secs: p.0, nanos: p.1 }
}

/// Whether an existing session and a new session overlap (see [`overlaps`]).
pub fn time_overlaps(existing_entry: &Meditation, import_start: Instant, import_minutes: i32) -> (b:
    bool)
    ensures
        b == overlaps(*existing_entry, import_start, import_minutes as int),
{
    existing_entry.occurred_at.day() == import_start.day() && !(
    existing_entry.occurred_at.shifted_before(existing_entry.minutes, &import_start)
        || import_start.shifted_before(import_minutes, &existing_entry.occurred_at))
}

fn overlaps_existing(current: &Vec<Meditation>, start: Instant, minutes: i32) -> (b: bool)
    ensures
        b == overlaps_any(current@, start, minutes as int),
{
    let mut i: usize = 0;
    while i < current.len()
        invariant
            i <= current.len(),
            forall|j: int| 0 <= j < i ==> !overlaps(#[trigger] current@[j], start, minutes as int),
        decreases current.len() - i,
    {
        if time_overlaps(&current[i], start, minutes) {
            return true;
        }
        i += 1;
    }
    false
}

/// The outcome of an Apple Health row.
pub open spec fn apple_outcome(
    r: AppleHealthRecord,
    current: Seq<Meditation>,
    latest: Instant,
    import_type: ImportType,
) -> RowOutcome {
    if is_old(import_type, r.occurred_at, latest) || overlaps_any(
        current,
        r.occurred_at,
        r.meditation_minutes as int,
    ) {
        RowOutcome::Skip
    } else {
        RowOutcome::Take(
            BloomRecord {
                occurred_at: r.occurred_at,
                meditation_minutes: r.meditation_minutes,
                meditation_seconds: r.meditation_seconds,
            },
        )
    }
}

/// The format of Finch start and completion times.
pub open spec fn finch_format() -> Seq<char> {
    "%a, %d %b %Y %H:%M:%S"@
}

/// The outcome of a Finch breathing session: completed sessions with a
/// readable start time and at least one whole minute.
pub open spec fn finch_breathing_outcome(
    r: FinchBreathingSessionRecord,
    current: Seq<Meditation>,
    latest: Instant,
    import_type: ImportType,
) -> RowOutcome {
    if r.completed_time@.len() == 0 {
        RowOutcome::Skip
    } else {
        match naive_utc_parse(r.start_time@, finch_format()) {
            None => RowOutcome::Skip,
            Some(p) => {
                let t = instant_of(p);
                let minutes = trunc_div(r.duration as int, 60);
                if is_old(import_type, t, latest) || minutes < 1 || overlaps_any(
                    current,
                    t,
                    minutes,
                ) {
                    RowOutcome::Skip
                } else {
                    RowOutcome::Take(
                        BloomRecord {
                            occurred_at: t,
                            meditation_minutes: minutes as i32,
                            meditation_seconds: trunc_rem(r.duration as int, 60) as i32,
                        },
                    )
                }
            },
        }
    }
}

/// Whole seconds from `a` to `b`, rounded toward zero.
pub open spec fn span_seconds(a: Instant, b: Instant) -> int {
    trunc_div((b.secs - a.secs) * 1_000_000_000 + (b.nanos - a.nanos), 1_000_000_000)
}

/// Duration of a Finch timer session: from start to completion when the
/// completion time is readable (cut to 32 bits), else the selected duration;
/// as minutes and remaining seconds.
pub open spec fn finch_timer_duration(r: FinchTimerSessionRecord, t: Instant) -> (int, int) {
    match naive_utc_parse(r.completed_time@, finch_format()) {
        Some(e) => {
            let n = (span_seconds(t, instant_of(e)) as i64) as i32;
            (trunc_div(n as int, 60), trunc_rem(n as int, 60))
        },
        None => (
            trunc_div(r.selected_duration as int, 60),
            trunc_rem(r.selected_duration as int, 60),
        ),
    }
}

/// The outcome of a Finch timer session: timers of type 0 with a readable start
/// time and at least one whole minute.
pub open spec fn finch_timer_outcome(
    r: FinchTimerSessionRecord,
    current: Seq<Meditation>,
    latest: Instant,
    import_type: ImportType,
) -> RowOutcome {
    if r.timer_type != 0 {
        RowOutcome::Skip
    } else {
        match naive_utc_parse(r.start_time@, finch_format()) {
            None => RowOutcome::Skip,
            Some(p) => {
                let t = instant_of(p);
                let (minutes, seconds) = finch_timer_duration(r, t);
                if is_old(import_type, t, latest) || minutes < 1 || overlaps_any(
                    current,
                    t,
                    minutes,
                ) {
                    RowOutcome::Skip
                } else {
                    RowOutcome::Take(
                        BloomRecord {
                            occurred_at: t,
                            meditation_minutes: minutes as i32,
                            meditation_seconds: seconds as i32,
                        },
                    )
                }
            },
        }
    }
}

/// The activities that Insight Timer exports for meditation.
pub open spec fn is_meditation_activity(a: Seq<char>) -> bool {
    a == "PracticeType.Meditation"@ || a == "Meditation"@ || a == "瞑想"@
}

/// The format of Insight Timer start times.
pub open spec fn insight_format() -> Seq<char> {
    "%m/%d/%Y %H:%M:%S"@
}

/// The outcome of an Insight Timer row: meditation sessions with a readable start
/// time; the duration is `h:m:s`.
pub open spec fn insight_outcome(
    r: InsightTimerRecord,
    current: Seq<Meditation>,
    latest: Instant,
    import_type: ImportType,
) -> RowOutcome {
    if !is_meditation_activity(r.activity@) {
        RowOutcome::Skip
    } else {
        match naive_utc_parse(r.start_time@, insight_format()) {
            None => RowOutcome::Skip,
            Some(p) => {
                let t = instant_of(p);
                let parts = split_on(r.duration@, ':');
                if is_old(import_type, t, latest) {
                    RowOutcome::Skip
                } else if parts.len() < 3 {
                    RowOutcome::Fail(ImportError::MissingDurationField)
                } else {
                    match (parsed_i32(parts[0]), parsed_i32(parts[1]), parsed_i32(parts[2])) {
                        (Some(h), Some(m), Some(s)) => {
                            let minutes = h * 60 + m;
                            if !fits_i32(minutes) {
                                RowOutcome::Fail(ImportError::TotalOverflow)
                            } else if overlaps_any(current, t, minutes) {
                                RowOutcome::Skip
                            } else {
                                RowOutcome::Take(
                                    BloomRecord {
                                        occurred_at: t,
                                        meditation_minutes: minutes as i32,
                                        meditation_seconds: s,
                                    },
                                )
                            }
                        },
                        _ => RowOutcome::Fail(ImportError::InvalidNumber),
                    }
                }
            },
        }
    }
}

/// The outcome of a Mindfulness Coach row: the date starts the day (UTC) and the
/// duration's first word is the number of minutes.
pub open spec fn mindfulness_outcome(
    r: MindfulnessCoachRecord,
    latest: Instant,
    import_type: ImportType,
) -> RowOutcome {
    match naive_utc_parse(r.date@ + " 00:00:00"@, "%Y-%m-%d %H:%M:%S"@) {
        None => RowOutcome::Skip,
        Some(p) => {
            let t = instant_of(p);
            if is_old(import_type, t, latest) {
                RowOutcome::Skip
            } else {
                match first_word(r.duration@) {
                    None => RowOutcome::Skip,
                    Some(w) => match parsed_i32(w) {
                        None => RowOutcome::Fail(ImportError::InvalidNumber),
                        Some(m) => RowOutcome::Take(
                            BloomRecord {
                                occurred_at: t,
                                meditation_minutes: m,
                                meditation_seconds: 0,
                            },
                        ),
                    },
                }
            }
        },
    }
}

/// The outcome of a Waking Up row: the date starts the day (UTC) and the duration
/// is in seconds.
pub open spec fn waking_up_outcome(r: WakingUpRecord, latest: Instant, import_type: ImportType) -> RowOutcome {
    match naive_utc_parse(r.date@ + " 00:00:00"@, "%m/%d/%Y %H:%M:%S"@) {
        None => RowOutcome::Skip,
        Some(p) => {
            let t = instant_of(p);
            if is_old(import_type, t, latest) {
                RowOutcome::Skip
            } else {
                match parsed_i32(r.duration@) {
                    None => RowOutcome::Fail(ImportError::InvalidNumber),
                    Some(d) => RowOutcome::Take(
                        BloomRecord {
                            occurred_at: t,
                            meditation_minutes: trunc_div(d as int, 60) as i32,
                            meditation_seconds: trunc_rem(d as int, 60) as i32,
                        },
                    ),
                }
            }
        },
    }
}

/// The running state of an import.
struct Accumulator {
    data: Vec<BloomRecord>,
    minutes: i32,
    seconds: i32,
}

impl Accumulator {
    spec fn holds(&self, t: Tally) -> bool {
        self.data@ == t.records && self.minutes == t.minutes && self.seconds == t.seconds
    }

    fn new() -> (a: Accumulator)
        ensures
            a.holds(Tally { records: Seq::empty(), minutes: 0, seconds: 0 }),
    {
        Accumulator { data: Vec::new(), minutes: 0, seconds: 0 }
    }

    /// Applies one more outcome; `Err` when the import fails at it.
    fn step(&mut self, outs: Ghost<Seq<RowOutcome>>, out: RowOutcome) -> (r: Result<(), ImportError>)
        requires
            tally(outs@) matches Ok(t) && old(self).holds(t),
        ensures
            match tally(outs@.push(out)) {
                Ok(t) => r is Ok && final(self).holds(t),
                Err(e) => r == Err::<(), ImportError>(e),
            },
    {
        assert(outs@.push(out).drop_last() =~= outs@);
        match out {
            RowOutcome::Skip => Ok(()),
            RowOutcome::Fail(e) => Err(e),
            RowOutcome::Take(r) => {
                let m = self.minutes as i64 + r.meditation_minutes as i64;
                let s = self.seconds as i64 + r.meditation_seconds as i64;
                if m < i32::MIN as i64 || m > i32::MAX as i64 || s < i32::MIN as i64 || s
                    > i32::MAX as i64 {
                    Err(ImportError::TotalOverflow)
                } else {
                    self.minutes = m as i32;
                    self.seconds = s as i32;
                    self.data.push(r);
                    Ok(())
                }
            },
        }
    }
}

fn apple_row(
    r: &AppleHealthRecord,
    current: &Vec<Meditation>,
    latest: Instant,
    import_type: ImportType,
) -> (o: RowOutcome)
    ensures
        o == apple_outcome(*r, current@, latest, import_type),
{
    if (import_type == ImportType::NewEntries && r.occurred_at.le(&latest)) || overlaps_existing(
        current,
        r.occurred_at,
        r.meditation_minutes,
    ) {
        RowOutcome::Skip
    } else {
        RowOutcome::Take(
            BloomRecord {
                occurred_at: r.occurred_at,
                meditation_minutes: r.meditation_minutes,
                meditation_seconds: r.meditation_seconds,
            },
        )
    }
}

fn finch_breathing_row(
    r: &FinchBreathingSessionRecord,
    current: &Vec<Meditation>,
    latest: Instant,
    import_type: ImportType,
) -> (o: RowOutcome)
    ensures
        o == finch_breathing_outcome(*r, current@, latest, import_type),
{
    if r.completed_time.as_str().unicode_len() == 0 {
        return RowOutcome::Skip;
    }
    match parse_naive_utc(r.start_time.as_str(), "%a, %d %b %Y %H:%M:%S") {
        None => RowOutcome::Skip,
        Some(t) => {
            let minutes = r.duration / 60;
            if (import_type == ImportType::NewEntries && t.le(&latest)) || minutes < 1
                || overlaps_existing(current, t, minutes) {
                RowOutcome::Skip
            } else {
                RowOutcome::Take(
                    BloomRecord {
                        occurred_at: t,
                        meditation_minutes: minutes,
                        meditation_seconds: r.duration % 60,
                    },
                )
            }
        },
    }
}

fn finch_timer_row(
    r: &FinchTimerSessionRecord,
    current: &Vec<Meditation>,
    latest: Instant,
    import_type: ImportType,
) -> (o: RowOutcome)
    ensures
        o == finch_timer_outcome(*r, current@, latest, import_type),
{
    if r.timer_type != 0 {
        return RowOutcome::Skip;
    }
    match parse_naive_utc(r.start_time.as_str(), "%a, %d %b %Y %H:%M:%S") {
        None => RowOutcome::Skip,
        Some(t) => {
            let (minutes, seconds) = match parse_naive_utc(
                r.completed_time.as_str(),
                "%a, %d %b %Y %H:%M:%S",
            ) {
                Some(e) => {
                    let total: i128 = (e.secs as i128 - t.secs as i128) * 1_000_000_000i128 + (
                    e.nanos as i128 - t.nanos as i128);
                    let whole: i128 = total / 1_000_000_000i128;
                    let n: i32 = (whole as i64) as i32;
                    (n / 60, n % 60)
                },
                None => (r.selected_duration / 60, r.selected_duration % 60),
            };
            if (import_type == ImportType::NewEntries && t.le(&latest)) || minutes < 1
                || overlaps_existing(current, t, minutes) {
                RowOutcome::Skip
            } else {
                RowOutcome::Take(
                    BloomRecord {
                        occurred_at: t,
                        meditation_minutes: minutes,
                        meditation_seconds: seconds,
                    },
                )
            }
        },
    }
}

fn text_is(s: &String, lit: &str) -> (b: bool)
    ensures
        b == (s@ == lit@),
{
    let l = crate::text::str_to_string(lit);
    *s == l
}

fn insight_row(
    r: &InsightTimerRecord,
    current: &Vec<Meditation>,
    latest: Instant,
    import_type: ImportType,
) -> (o: RowOutcome)
    ensures
        o == insight_outcome(*r, current@, latest, import_type),
{
    if !(text_is(&r.activity, "PracticeType.Meditation") || text_is(&r.activity, "Meditation")
        || text_is(&r.activity, "瞑想")) {
        return RowOutcome::Skip;
    }
    match parse_naive_utc(r.start_time.as_str(), "%m/%d/%Y %H:%M:%S") {
        None => RowOutcome::Skip,
        Some(t) => {
            if import_type == ImportType::NewEntries && t.le(&latest) {
                return RowOutcome::Skip;
            }
            let duration = chars_of(r.duration.as_str());
            let parts = split_chars(&duration, ':');
            if parts.len() < 3 {
                return RowOutcome::Fail(ImportError::MissingDurationField);
            }
            let h = parse_i32(&parts[0]);
            let m = parse_i32(&parts[1]);
            let s = parse_i32(&parts[2]);
            match (h, m, s) {
                (Some(h), Some(m), Some(s)) => {
                    let minutes: i64 = h as i64 * 60 + m as i64;
                    if minutes < i32::MIN as i64 || minutes > i32::MAX as i64 {
                        RowOutcome::Fail(ImportError::TotalOverflow)
                    } else if overlaps_existing(current, t, minutes as i32) {
                        RowOutcome::Skip
                    } else {
                        RowOutcome::Take(
                            BloomRecord {
                                occurred_at: t,
                                meditation_minutes: minutes as i32,
                                meditation_seconds: s,
                            },
                        )
                    }
                },
                _ => RowOutcome::Fail(ImportError::InvalidNumber),
            }
        },
    }
}

fn at_midnight(date: &String) -> (s: String)
    ensures
        s@ == date@ + " 00:00:00"@,
{
    let mut s = date.clone();
    push_str(&mut s, " 00:00:00");
    s
}

fn mindfulness_row(r: &MindfulnessCoachRecord, latest: Instant, import_type: ImportType) -> (o:
    RowOutcome)
    ensures
        o == mindfulness_outcome(*r, latest, import_type),
{
    let date = at_midnight(&r.date);
    match parse_naive_utc(date.as_str(), "%Y-%m-%d %H:%M:%S") {
        None => RowOutcome::Skip,
        Some(t) => {
            if import_type == ImportType::NewEntries && t.le(&latest) {
                return RowOutcome::Skip;
            }
            let duration = chars_of(r.duration.as_str());
            match first_word_of(&duration) {
                None => RowOutcome::Skip,
                Some(w) => match parse_i32(&w) {
                    None => RowOutcome::Fail(ImportError::InvalidNumber),
                    Some(m) => RowOutcome::Take(
                        BloomRecord { occurred_at: t, meditation_minutes: m, meditation_seconds: 0 },
                    ),
                },
            }
        },
    }
}

fn waking_up_row(r: &WakingUpRecord, latest: Instant, import_type: ImportType) -> (o: RowOutcome)
    ensures
        o == waking_up_outcome(*r, latest, import_type),
{
    let date = at_midnight(&r.date);
    match parse_naive_utc(date.as_str(), "%m/%d/%Y %H:%M:%S") {
        None => RowOutcome::Skip,
        Some(t) => {
            if import_type == ImportType::NewEntries && t.le(&latest) {
                return RowOutcome::Skip;
            }
            let duration = chars_of(r.duration.as_str());
            match parse_i32(&duration) {
                None => RowOutcome::Fail(ImportError::InvalidNumber),
                Some(d) => RowOutcome::Take(
                    BloomRecord {
                        occurred_at: t,
                        meditation_minutes: d / 60,
                        meditation_seconds: d % 60,
                    },
                ),
            }
        },
    }
}


proof fn lemma_tally_error_persists(outs: Seq<RowOutcome>, k: int, e: ImportError)
    requires
        0 <= k <= outs.len(),
        tally(outs.take(k)) == Err::<Tally, ImportError>(e),
    ensures
        tally(outs) == Err::<Tally, ImportError>(e),
    decreases outs.len() - k,
{
    if k == outs.len() {
        assert(outs.take(k) =~= outs);
    } else {
        assert(outs.take(k + 1).drop_last() =~= outs.take(k));
        lemma_tally_error_persists(outs, k + 1, e);
    }
}

/// `res` is the import described by the tally `t` with the source description `source`.
pub open spec fn import_matches(
    t: Result<Tally, ImportError>,
    res: Result<Import, ImportError>,
    source: Seq<char>,
) -> bool {
    match t {
        Ok(t) => res matches Ok(imp) && imp.data@ == t.records && imp.minutes == t.minutes
            && imp.seconds == t.seconds && imp.source@ == source,
        Err(e) => res matches Err(e2) && e2 == e,
    }
}

fn apple_tally(rows: &Vec<AppleHealthRecord>, current: &Vec<Meditation>, latest: Instant, import_type: ImportType) -> (res: Result<Accumulator, ImportError>)
    ensures
        match tally(rows@.map_values(|r: AppleHealthRecord| apple_outcome(r, current@, latest, import_type))) {
            Ok(t) => res matches Ok(a) && a.holds(t),
            Err(e) => res matches Err(e2) && e2 == e,
        },
{
    let ghost f = |r: AppleHealthRecord| apple_outcome(r, current@, latest, import_type);
    let mut acc = Accumulator::new();
    let mut i: usize = 0;
    assert(rows@.take(0).map_values(f) =~= Seq::<RowOutcome>::empty());
    while i < rows.len()
        invariant
            i <= rows.len(),
            f == (|r: AppleHealthRecord| apple_outcome(r, current@, latest, import_type)),
            tally(rows@.take(i as int).map_values(f)) matches Ok(t) && acc.holds(t),
        decreases rows.len() - i,
    {
        let o = apple_row(&rows[i], current, latest, import_type);
        let ghost prefix = rows@.take(i as int).map_values(f);
        proof {
            assert(rows@.take(i as int + 1).map_values(f) =~= prefix.push(o));
        }
        match acc.step(Ghost(prefix), o) {
            Ok(()) => {},
            Err(e) => {
                proof {
                    assert(rows@.map_values(f).take(i as int + 1) =~= prefix.push(o));
                    lemma_tally_error_persists(rows@.map_values(f), i as int + 1, e);
                }
                return Err(e);
            },
        }
        i += 1;
    }
    assert(rows@.take(rows@.len() as int) =~= rows@);
    Ok(acc)
}

fn finch_breathing_tally(rows: &Vec<FinchBreathingSessionRecord>, current: &Vec<Meditation>, latest: Instant, import_type: ImportType) -> (res: Result<Accumulator, ImportError>)
    ensures
        match tally(rows@.map_values(|r: FinchBreathingSessionRecord| finch_breathing_outcome(r, current@, latest, import_type))) {
            Ok(t) => res matches Ok(a) && a.holds(t),
            Err(e) => res matches Err(e2) && e2 == e,
        },
{
    let ghost f = |r: FinchBreathingSessionRecord| finch_breathing_outcome(r, current@, latest, import_type);
    let mut acc = Accumulator::new();
    let mut i: usize = 0;
    assert(rows@.take(0).map_values(f) =~= Seq::<RowOutcome>::empty());
    while i < rows.len()
        invariant
            i <= rows.len(),
            f == (|r: FinchBreathingSessionRecord| finch_breathing_outcome(r, current@, latest, import_type)),
            tally(rows@.take(i as int).map_values(f)) matches Ok(t) && acc.holds(t),
        decreases rows.len() - i,
    {
        let o = finch_breathing_row(&rows[i], current, latest, import_type);
        let ghost prefix = rows@.take(i as int).map_values(f);
        proof {
            assert(rows@.take(i as int + 1).map_values(f) =~= prefix.push(o));
        }
        match acc.step(Ghost(prefix), o) {
            Ok(()) => {},
            Err(e) => {
                proof {
                    assert(rows@.map_values(f).take(i as int + 1) =~= prefix.push(o));
                    lemma_tally_error_persists(rows@.map_values(f), i as int + 1, e);
                }
                return Err(e);
            },
        }
        i += 1;
    }
    assert(rows@.take(rows@.len() as int) =~= rows@);
    Ok(acc)
}

fn finch_timer_tally(rows: &Vec<FinchTimerSessionRecord>, current: &Vec<Meditation>, latest: Instant, import_type: ImportType) -> (res: Result<Accumulator, ImportError>)
    ensures
        match tally(rows@.map_values(|r: FinchTimerSessionRecord| finch_timer_outcome(r, current@, latest, import_type))) {
            Ok(t) => res matches Ok(a) && a.holds(t),
            Err(e) => res matches Err(e2) && e2 == e,
        },
{
    let ghost f = |r: FinchTimerSessionRecord| finch_timer_outcome(r, current@, latest, import_type);
    let mut acc = Accumulator::new();
    let mut i: usize = 0;
    assert(rows@.take(0).map_values(f) =~= Seq::<RowOutcome>::empty());
    while i < rows.len()
        invariant
            i <= rows.len(),
            f == (|r: FinchTimerSessionRecord| finch_timer_outcome(r, current@, latest, import_type)),
            tally(rows@.take(i as int).map_values(f)) matches Ok(t) && acc.holds(t),
        decreases rows.len() - i,
    {
        let o = finch_timer_row(&rows[i], current, latest, import_type);
        let ghost prefix = rows@.take(i as int).map_values(f);
        proof {
            assert(rows@.take(i as int + 1).map_values(f) =~= prefix.push(o));
        }
        match acc.step(Ghost(prefix), o) {
            Ok(()) => {},
            Err(e) => {
                proof {
                    assert(rows@.map_values(f).take(i as int + 1) =~= prefix.push(o));
                    lemma_tally_error_persists(rows@.map_values(f), i as int + 1, e);
                }
                return Err(e);
            },
        }
        i += 1;
    }
    assert(rows@.take(rows@.len() as int) =~= rows@);
    Ok(acc)
}

fn insight_tally(rows: &Vec<InsightTimerRecord>, current: &Vec<Meditation>, latest: Instant, import_type: ImportType) -> (res: Result<Accumulator, ImportError>)
    ensures
        match tally(rows@.map_values(|r: InsightTimerRecord| insight_outcome(r, current@, latest, import_type))) {
            Ok(t) => res matches Ok(a) && a.holds(t),
            Err(e) => res matches Err(e2) && e2 == e,
        },
{
    let ghost f = |r: InsightTimerRecord| insight_outcome(r, current@, latest, import_type);
    let mut acc = Accumulator::new();
    let mut i: usize = 0;
    assert(rows@.take(0).map_values(f) =~= Seq::<RowOutcome>::empty());
    while i < rows.len()
        invariant
            i <= rows.len(),
            f == (|r: InsightTimerRecord| insight_outcome(r, current@, latest, import_type)),
            tally(rows@.take(i as int).map_values(f)) matches Ok(t) && acc.holds(t),
        decreases rows.len() - i,
    {
        let o = insight_row(&rows[i], current, latest, import_type);
        let ghost prefix = rows@.take(i as int).map_values(f);
        proof {
            assert(rows@.take(i as int + 1).map_values(f) =~= prefix.push(o));
        }
        match acc.step(Ghost(prefix), o) {
            Ok(()) => {},
            Err(e) => {
                proof {
                    assert(rows@.map_values(f).take(i as int + 1) =~= prefix.push(o));
                    lemma_tally_error_persists(rows@.map_values(f), i as int + 1, e);
                }
                return Err(e);
            },
        }
        i += 1;
    }
    assert(rows@.take(rows@.len() as int) =~= rows@);
    Ok(acc)
}

fn mindfulness_tally(rows: &Vec<MindfulnessCoachRecord>, latest: Instant, import_type: ImportType) -> (res: Result<Accumulator, ImportError>)
    ensures
        match tally(rows@.map_values(|r: MindfulnessCoachRecord| mindfulness_outcome(r, latest, import_type))) {
            Ok(t) => res matches Ok(a) && a.holds(t),
            Err(e) => res matches Err(e2) && e2 == e,
        },
{
    let ghost f = |r: MindfulnessCoachRecord| mindfulness_outcome(r, latest, import_type);
    let mut acc = Accumulator::new();
    let mut i: usize = 0;
    assert(rows@.take(0).map_values(f) =~= Seq::<RowOutcome>::empty());
    while i < rows.len()
        invariant
            i <= rows.len(),
            f == (|r: MindfulnessCoachRecord| mindfulness_outcome(r, latest, import_type)),
            tally(rows@.take(i as int).map_values(f)) matches Ok(t) && acc.holds(t),
        decreases rows.len() - i,
    {
        let o = mindfulness_row(&rows[i], latest, import_type);
        let ghost prefix = rows@.take(i as int).map_values(f);
        proof {
            assert(rows@.take(i as int + 1).map_values(f) =~= prefix.push(o));
        }
        match acc.step(Ghost(prefix), o) {
            Ok(()) => {},
            Err(e) => {
                proof {
                    assert(rows@.map_values(f).take(i as int + 1) =~= prefix.push(o));
                    lemma_tally_error_persists(rows@.map_values(f), i as int + 1, e);
                }
                return Err(e);
            },
        }
        i += 1;
    }
    assert(rows@.take(rows@.len() as int) =~= rows@);
    Ok(acc)
}

fn waking_up_tally(rows: &Vec<WakingUpRecord>, latest: Instant, import_type: ImportType) -> (res: Result<Accumulator, ImportError>)
    ensures
        match tally(rows@.map_values(|r: WakingUpRecord| waking_up_outcome(r, latest, import_type))) {
            Ok(t) => res matches Ok(a) && a.holds(t),
            Err(e) => res matches Err(e2) && e2 == e,
        },
{
    let ghost f = |r: WakingUpRecord| waking_up_outcome(r, latest, import_type);
    let mut acc = Accumulator::new();
    let mut i: usize = 0;
    assert(rows@.take(0).map_values(f) =~= Seq::<RowOutcome>::empty());
    while i < rows.len()
        invariant
            i <= rows.len(),
            f == (|r: WakingUpRecord| waking_up_outcome(r, latest, import_type)),
            tally(rows@.take(i as int).map_values(f)) matches Ok(t) && acc.holds(t),
        decreases rows.len() - i,
    {
        let o = waking_up_row(&rows[i], latest, import_type);
        let ghost prefix = rows@.take(i as int).map_values(f);
        proof {
            assert(rows@.take(i as int + 1).map_values(f) =~= prefix.push(o));
        }
        match acc.step(Ghost(prefix), o) {
            Ok(()) => {},
            Err(e) => {
                proof {
                    assert(rows@.map_values(f).take(i as int + 1) =~= prefix.push(o));
                    lemma_tally_error_persists(rows@.map_values(f), i as int + 1, e);
                }
                return Err(e);
            },
        }
        i += 1;
    }
    assert(rows@.take(rows@.len() as int) =~= rows@);
    Ok(acc)
}

/// `sources` lists each distinct value of `names` once, in order of first appearance.
pub open spec fn distinct_in_order(names: Seq<Seq<char>>) -> Seq<Seq<char>>
    decreases names.len(),
{
    if names.len() == 0 {
        Seq::empty()
    } else {
        let d = distinct_in_order(names.drop_last());
        if d.contains(names.last()) {
            d
        } else {
            d.push(names.last())
        }
    }
}

/// The first `k` names of `names`, each followed by `, `, except the last of all
/// the names, which is followed by `)`.
pub open spec fn listed(names: Seq<Seq<char>>, k: int) -> Seq<char>
    decreases k,
{
    if k <= 0 {
        Seq::empty()
    } else {
        listed(names, k - 1) + names[k - 1] + if k < names.len() {
            ", "@
        } else {
            ")"@
        }
    }
}

/// The source description of an Apple Health import: the apps that wrote the
/// rows, each named once.
pub open spec fn apple_source(names: Seq<Seq<char>>) -> Seq<char> {
    "Apple Health Mindful Sessions ("@ + listed(
        distinct_in_order(names),
        distinct_in_order(names).len() as int,
    )
}

fn contains_text(v: &Vec<String>, s: &String) -> (b: bool)
    ensures
        b == v@.map_values(|x: String| x@).contains(s@),
{
    let mut i: usize = 0;
    while i < v.len()
        invariant
            i <= v.len(),
            forall|j: int| 0 <= j < i ==> v@[j]@ != s@,
        decreases v.len() - i,
    {
        if v[i] == *s {
            assert(v@.map_values(|x: String| x@)[i as int] == s@);
            return true;
        }
        i += 1;
    }
    proof {
        let m = v@.map_values(|x: String| x@);
        assert forall|j: int| 0 <= j < m.len() implies m[j] != s@ by {
            assert(m[j] == v@[j]@);
        }
    }
    false
}

fn apple_source_text(rows: &Vec<AppleHealthRecord>) -> (s: String)
    ensures
        s@ == apple_source(rows@.map_values(|r: AppleHealthRecord| r.app_name@)),
{
    let ghost names = rows@.map_values(|r: AppleHealthRecord| r.app_name@);
    let mut sources: Vec<String> = Vec::new();
    let mut i: usize = 0;
    while i < rows.len()
        invariant
            i <= rows.len(),
            names == rows@.map_values(|r: AppleHealthRecord| r.app_name@),
            sources@.map_values(|x: String| x@) == distinct_in_order(names.take(i as int)),
        decreases rows.len() - i,
    {
        proof {
            assert(names.take(i as int + 1).drop_last() =~= names.take(i as int));
        }
        let name = &rows[i].app_name;
        if !contains_text(&sources, name) {
            sources.push(name.clone());
            assert(sources@.map_values(|x: String| x@) =~= distinct_in_order(
                names.take(i as int),
            ).push(name@));
        }
        i += 1;
    }
    assert(names.take(rows@.len() as int) =~= names);
    let ghost d = sources@.map_values(|x: String| x@);
    let mut text = String::new();
    push_str(&mut text, "Apple Health Mindful Sessions (");
    let ghost head = text@;
    let mut k: usize = 0;
    while k < sources.len()
        invariant
            k <= sources.len(),
            d == sources@.map_values(|x: String| x@),
            text@ == head + listed(d, k as int),
        decreases sources.len() - k,
    {
        push_str(&mut text, sources[k].as_str());
        if k + 1 < sources.len() {
            push_str(&mut text, ", ");
        } else {
            push_str(&mut text, ")");
        }
        k += 1;
        assert(text@ =~= head + listed(d, k as int));
    }
    text
}

/// A session the import may take given the stored sessions `current`: it
/// overlaps none of them (same UTC day and touching spans), and, when only
/// new entries are wanted, it is later than the latest stored session.
pub open spec fn admissible(b: BloomRecord, current: Seq<Meditation>, latest: Instant, import_type: ImportType) -> bool {
    &&& !overlaps_any(current, b.occurred_at, b.meditation_minutes as int)
    &&& !is_old(import_type, b.occurred_at, latest)
}

/// Whatever holds of every taken row holds of every session an import
/// collects.
pub proof fn lemma_tally_takes_only(outs: Seq<RowOutcome>, p: spec_fn(BloomRecord) -> bool)
    requires
        forall|i: int| 0 <= i < outs.len() ==> (#[trigger] outs[i] matches RowOutcome::Take(b) ==> p(b)),
    ensures
        tally(outs) matches Ok(t) ==> forall|k: int| 0 <= k < t.records.len() ==> p(#[trigger] t.records[k]),
    decreases outs.len(),
{
    if outs.len() > 0 {
        let init = outs.drop_last();
        assert forall|i: int| 0 <= i < init.len() implies (#[trigger] init[i] matches RowOutcome::Take(b) ==> p(b)) by {
            assert(init[i] == outs[i]);
        }
        lemma_tally_takes_only(init, p);
        assert(outs.last() == outs[outs.len() - 1]);
    }
}

/// A taken Apple Health row never repeats a stored session: it overlaps none
/// of `current`, and it is newer than `latest` when only new entries are wanted.
pub proof fn lemma_apple_admissible(r: AppleHealthRecord, current: Seq<Meditation>, latest: Instant, import_type: ImportType)
    ensures
        apple_outcome(r, current, latest, import_type) matches RowOutcome::Take(b) ==> admissible(b, current, latest, import_type),
{
}

/// A taken Finch breathing session never repeats a stored session (see
/// [`admissible`]).
pub proof fn lemma_finch_breathing_admissible(
    r: FinchBreathingSessionRecord,
    current: Seq<Meditation>,
    latest: Instant,
    import_type: ImportType,
)
    ensures
        finch_breathing_outcome(r, current, latest, import_type) matches RowOutcome::Take(b) ==> admissible(
            b,
            current,
            latest,
            import_type,
        ),
{
    let m = trunc_div(r.duration as int, 60);
    assert(i32::MIN <= m <= i32::MAX) by (nonlinear_arith)
        requires
            m == trunc_div(r.duration as int, 60),
            i32::MIN <= r.duration <= i32::MAX,
    {
    }
}

/// A taken Finch timer session never repeats a stored session (see
/// [`admissible`]).
pub proof fn lemma_finch_timer_admissible(r: FinchTimerSessionRecord, current: Seq<Meditation>, latest: Instant, import_type: ImportType)
    ensures
        finch_timer_outcome(r, current, latest, import_type) matches RowOutcome::Take(b) ==> admissible(
            b,
            current,
            latest,
            import_type,
        ),
{
    if let Some(p) = naive_utc_parse(r.start_time@, finch_format()) {
        let t = instant_of(p);
        let n: int = match naive_utc_parse(r.completed_time@, finch_format()) {
            Some(e) => ((span_seconds(t, instant_of(e)) as i64) as i32) as int,
            None => r.selected_duration as int,
        };
        let m = trunc_div(n, 60);
        assert(i32::MIN <= m <= i32::MAX) by (nonlinear_arith)
            requires
                m == trunc_div(n, 60),
                i32::MIN <= n <= i32::MAX,
        {
        }
        assert(finch_timer_duration(r, t).0 == m);
    }
}

/// A taken Insight Timer row never repeats a stored session: it overlaps none
/// of `current`, and it is newer than `latest` when only new entries are wanted.
pub proof fn lemma_insight_admissible(r: InsightTimerRecord, current: Seq<Meditation>, latest: Instant, import_type: ImportType)
    ensures
        insight_outcome(r, current, latest, import_type) matches RowOutcome::Take(b) ==> admissible(b, current, latest, import_type),
{
}

/// A taken Mindfulness Coach row is newer than the latest stored session
/// when only new entries are wanted.
pub proof fn lemma_mindfulness_new(r: MindfulnessCoachRecord, latest: Instant, import_type: ImportType)
    ensures
        mindfulness_outcome(r, latest, import_type) matches RowOutcome::Take(b) ==> !is_old(import_type, b.occurred_at, latest),
{
}

/// A taken Waking Up row is newer than the latest stored session when only
/// new entries are wanted.
pub proof fn lemma_waking_up_new(r: WakingUpRecord, latest: Instant, import_type: ImportType)
    ensures
        waking_up_outcome(r, latest, import_type) matches RowOutcome::Take(b) ==> !is_old(import_type, b.occurred_at, latest),
{
}

/// Imports Apple Health rows. A row is taken unless only new entries are wanted
/// and it is not newer than `latest_time`, or it overlaps a session in
/// `current_data`; the source names every app that wrote a row.
pub fn apple_health(
    rows: &Vec<AppleHealthRecord>,
    current_data: &Vec<Meditation>,
    latest_time: Instant,
    import_type: ImportType,
) -> (res: Result<Import, ImportError>)
    ensures
        import_matches(
            tally(
                rows@.map_values(
                    |r: AppleHealthRecord| apple_outcome(r, current_data@, latest_time, import_type),
                ),
            ),
            res,
            apple_source(rows@.map_values(|r: AppleHealthRecord| r.app_name@)),
        ),
        res matches Ok(imp) ==> forall|k: int|
            0 <= k < imp.data@.len() ==> admissible(#[trigger] imp.data@[k], current_data@, latest_time, import_type),
{
    proof {
        let outs = rows@.map_values(|r: AppleHealthRecord| apple_outcome(r, current_data@, latest_time, import_type));
        assert forall|i: int| 0 <= i < outs.len() implies (#[trigger] outs[i] matches RowOutcome::Take(b) ==> admissible(
            b,
            current_data@,
            latest_time,
            import_type,
        )) by {
            lemma_apple_admissible(rows@[i], current_data@, latest_time, import_type);
        }
        lemma_tally_takes_only(outs, |b: BloomRecord| admissible(b, current_data@, latest_time, import_type));
    }
    match apple_tally(rows, current_data, latest_time, import_type) {
        Ok(acc) => {
            let source = apple_source_text(rows);
            Ok(Import { data: acc.data, minutes: acc.minutes, seconds: acc.seconds, source })
        },
        Err(e) => Err(e),
    }
}

/// Imports Finch breathing sessions (see [`finch_breathing_outcome`]).
pub fn finch_breathing(rows: &Vec<FinchBreathingSessionRecord>, current_data: &Vec<Meditation>, latest_time: Instant, import_type: ImportType) -> (res: Result<Import, ImportError>)
    ensures
        import_matches(
            tally(rows@.map_values(|r: FinchBreathingSessionRecord| finch_breathing_outcome(r, current_data@, latest_time, import_type))),
            res,
            "Finch Breathing Sessions"@,
        ),
        res matches Ok(imp) ==> forall|k: int|
            0 <= k < imp.data@.len() ==> admissible(#[trigger] imp.data@[k], current_data@, latest_time, import_type),
{
    proof {
        let outs = rows@.map_values(|r: FinchBreathingSessionRecord| finch_breathing_outcome(r, current_data@, latest_time, import_type));
        assert forall|i: int| 0 <= i < outs.len() implies (#[trigger] outs[i] matches RowOutcome::Take(b) ==> admissible(
            b,
            current_data@,
            latest_time,
            import_type,
        )) by {
            lemma_finch_breathing_admissible(rows@[i], current_data@, latest_time, import_type);
        }
        lemma_tally_takes_only(outs, |b: BloomRecord| admissible(b, current_data@, latest_time, import_type));
    }
    match finch_breathing_tally(rows, current_data, latest_time, import_type) {
        Ok(acc) => Ok(
            Import {
                data: acc.data,
                minutes: acc.minutes,
                seconds: acc.seconds,
                source: crate::text::str_to_string("Finch Breathing Sessions"),
            },
        ),
        Err(e) => Err(e),
    }
}

/// Imports Finch timer sessions (see [`finch_timer_outcome`]).
pub fn finch_meditation(rows: &Vec<FinchTimerSessionRecord>, current_data: &Vec<Meditation>, latest_time: Instant, import_type: ImportType) -> (res: Result<Import, ImportError>)
    ensures
        import_matches(
            tally(rows@.map_values(|r: FinchTimerSessionRecord| finch_timer_outcome(r, current_data@, latest_time, import_type))),
            res,
            "Finch Meditation Sessions"@,
        ),
        res matches Ok(imp) ==> forall|k: int|
            0 <= k < imp.data@.len() ==> admissible(#[trigger] imp.data@[k], current_data@, latest_time, import_type),
{
    proof {
        let outs = rows@.map_values(|r: FinchTimerSessionRecord| finch_timer_outcome(r, current_data@, latest_time, import_type));
        assert forall|i: int| 0 <= i < outs.len() implies (#[trigger] outs[i] matches RowOutcome::Take(b) ==> admissible(
            b,
            current_data@,
            latest_time,
            import_type,
        )) by {
            lemma_finch_timer_admissible(rows@[i], current_data@, latest_time, import_type);
        }
        lemma_tally_takes_only(outs, |b: BloomRecord| admissible(b, current_data@, latest_time, import_type));
    }
    match finch_timer_tally(rows, current_data, latest_time, import_type) {
        Ok(acc) => Ok(
            Import {
                data: acc.data,
                minutes: acc.minutes,
                seconds: acc.seconds,
                source: crate::text::str_to_string("Finch Meditation Sessions"),
            },
        ),
        Err(e) => Err(e),
    }
}

/// Imports Insight Timer rows (see [`insight_outcome`]).
pub fn insight_timer(rows: &Vec<InsightTimerRecord>, current_data: &Vec<Meditation>, latest_time: Instant, import_type: ImportType) -> (res: Result<Import, ImportError>)
    ensures
        import_matches(
            tally(rows@.map_values(|r: InsightTimerRecord| insight_outcome(r, current_data@, latest_time, import_type))),
            res,
            "Insight Timer"@,
        ),
        res matches Ok(imp) ==> forall|k: int|
            0 <= k < imp.data@.len() ==> admissible(#[trigger] imp.data@[k], current_data@, latest_time, import_type),
{
    proof {
        let outs = rows@.map_values(|r: InsightTimerRecord| insight_outcome(r, current_data@, latest_time, import_type));
        assert forall|i: int| 0 <= i < outs.len() implies (#[trigger] outs[i] matches RowOutcome::Take(b) ==> admissible(
            b,
            current_data@,
            latest_time,
            import_type,
        )) by {
            lemma_insight_admissible(rows@[i], current_data@, latest_time, import_type);
        }
        lemma_tally_takes_only(outs, |b: BloomRecord| admissible(b, current_data@, latest_time, import_type));
    }
    match insight_tally(rows, current_data, latest_time, import_type) {
        Ok(acc) => Ok(
            Import {
                data: acc.data,
                minutes: acc.minutes,
                seconds: acc.seconds,
                source: crate::text::str_to_string("Insight Timer"),
            },
        ),
        Err(e) => Err(e),
    }
}

/// Imports VA Mindfulness Coach rows (see [`mindfulness_outcome`]); existing
/// sessions are not checked for overlap.
pub fn mindfulness_coach(rows: &Vec<MindfulnessCoachRecord>, latest_time: Instant, import_type: ImportType) -> (res: Result<Import, ImportError>)
    ensures
        import_matches(
            tally(rows@.map_values(|r: MindfulnessCoachRecord| mindfulness_outcome(r, latest_time, import_type))),
            res,
            "VA Mindfulness Coach"@,
        ),
        res matches Ok(imp) ==> forall|k: int|
            0 <= k < imp.data@.len() ==> !is_old(import_type, (#[trigger] imp.data@[k]).occurred_at, latest_time),
{
    proof {
        let outs = rows@.map_values(|r: MindfulnessCoachRecord| mindfulness_outcome(r, latest_time, import_type));
        assert forall|i: int| 0 <= i < outs.len() implies (#[trigger] outs[i] matches RowOutcome::Take(b) ==> !is_old(
            import_type,
            b.occurred_at,
            latest_time,
        )) by {
            lemma_mindfulness_new(rows@[i], latest_time, import_type);
        }
        lemma_tally_takes_only(outs, |b: BloomRecord| !is_old(import_type, b.occurred_at, latest_time));
    }
    match mindfulness_tally(rows, latest_time, import_type) {
        Ok(acc) => Ok(
            Import {
                data: acc.data,
                minutes: acc.minutes,
                seconds: acc.seconds,
                source: crate::text::str_to_string("VA Mindfulness Coach"),
            },
        ),
        Err(e) => Err(e),
    }
}

/// Imports Waking Up rows (see [`waking_up_outcome`]); existing sessions are
/// not checked for overlap.
pub fn waking_up(rows: &Vec<WakingUpRecord>, latest_time: Instant, import_type: ImportType) -> (res: Result<Import, ImportError>)
    ensures
        import_matches(
            tally(rows@.map_values(|r: WakingUpRecord| waking_up_outcome(r, latest_time, import_type))),
            res,
            "Waking Up"@,
        ),
        res matches Ok(imp) ==> forall|k: int|
            0 <= k < imp.data@.len() ==> !is_old(import_type, (#[trigger] imp.data@[k]).occurred_at, latest_time),
{
    proof {
        let outs = rows@.map_values(|r: WakingUpRecord| waking_up_outcome(r, latest_time, import_type));
        assert forall|i: int| 0 <= i < outs.len() implies (#[trigger] outs[i] matches RowOutcome::Take(b) ==> !is_old(
            import_type,
            b.occurred_at,
            latest_time,
        )) by {
            lemma_waking_up_new(rows@[i], latest_time, import_type);
        }
        lemma_tally_takes_only(outs, |b: BloomRecord| !is_old(import_type, b.occurred_at, latest_time));
    }
    match waking_up_tally(rows, latest_time, import_type) {
        Ok(acc) => Ok(
            Import {
                data: acc.data,
                minutes: acc.minutes,
                seconds: acc.seconds,
                source: crate::text::str_to_string("Waking Up"),
            },
        ),
        Err(e) => Err(e),
    }
}


/// What `csv` reads as the header row of `data` (comma separated, first row
/// as headers): the fields, or, when they cannot be read, the text of the
/// error.
pub uninterp spec fn csv_headers(data: Seq<u8>) -> Result<Seq<Seq<char>>, Seq<char>>;

/// Reads the header row of a CSV text with `csv::Reader::from_reader(..).headers()`,
/// an error taken by its `Display` text. Which bytes form which headers, and
/// the error's wording, are only named here.
#[verifier::external_body]
fn read_csv_headers(data: &[u8]) -> (res: Result<Vec<String>, String>)
    ensures
        match csv_headers(data@) {
            Ok(h) => res matches Ok(v) && v@.map_values(|s: String| s@) == h,
            Err(e) => res matches Err(t) && t@ == e,
        },
{
    match csv::Reader::from_reader(data).headers() {
        Ok(h) => Ok(h.iter().map(String::from).collect()),
        Err(e) => Err(e.to_string()),
    }
}

/// How `{:?}` writes a list of texts: std's `Debug` of a slice of strings.
pub uninterp spec fn debug_texts(v: Seq<Seq<char>>) -> Seq<char>;

/// Writes a list of texts with `{:?}` (std's `Debug` for `[String]`). The
/// text is only named: the quoting and escaping are std's.
#[verifier::external_body]
fn debug_list(v: &Vec<String>) -> (s: String)
    ensures
        s@ == debug_texts(v@.map_values(|x: String| x@)),
{
    format!("{:?}", v)
}

/// Why the source of an export could not be detected.
#[derive(Debug, PartialEq, Eq)]
pub enum DetectError {
    /// The header row could not be read as CSV; the reader's error text.
    UnreadableCsv(String),
    /// The headers match none of the supported sources; the headers read.
    UnrecognizedHeaders(Vec<String>),
}

/// The text of a detection error: the reader's error, or the headers as
/// `csv` writes a `StringRecord` with `{:?}` (`StringRecord(` and the
/// fields' list, then `)`).
pub open spec fn detect_error_text(e: DetectError) -> Seq<char> {
    match e {
        DetectError::UnreadableCsv(t) => t@,
        DetectError::UnrecognizedHeaders(h) => "Unrecognized headers: StringRecord("@ + debug_texts(
            h@.map_values(|x: String| x@),
        ) + ")"@,
    }
}

impl DetectError {
    /// The text of the error (see [`detect_error_text`]).
    pub fn message(&self) -> (s: String)
        ensures
            s@ == detect_error_text(*self),
    {
        match self {
            DetectError::UnreadableCsv(t) => crate::text::str_to_string(t.as_str()),
            DetectError::UnrecognizedHeaders(h) => {
                let mut s = String::new();
                crate::text::push_str(&mut s, "Unrecognized headers: StringRecord(");
                let d = debug_list(h);
                crate::text::push_str(&mut s, d.as_str());
                crate::text::push_str(&mut s, ")");
                s
            },
        }
    }
}

fn copy_headers(h: &Vec<String>) -> (r: Vec<String>)
    ensures
        r@.map_values(|x: String| x@) == h@.map_values(|x: String| x@),
{
    let mut r: Vec<String> = Vec::new();
    let mut i: usize = 0;
    while i < h.len()
        invariant
            i <= h@.len(),
            r@.map_values(|x: String| x@) == h@.take(i as int).map_values(|x: String| x@),
        decreases h.len() - i,
    {
        let ghost prev = r@;
        let t = crate::text::str_to_string(h[i].as_str());
        r.push(t);
        assert(r@ == prev.push(t));
        assert(r@.map_values(|x: String| x@) =~= prev.map_values(|x: String| x@).push(h@[i as int]@));
        assert(h@.take(i as int + 1).map_values(|x: String| x@) =~= h@.take(i as int).map_values(|x: String| x@).push(
            h@[i as int]@,
        ));
        i += 1;
    }
    assert(h@.take(h@.len() as int) =~= h@);
    r
}

/// The source whose export starts with these headers.
pub open spec fn source_for_headers(h: Seq<Seq<char>>) -> Option<Source> {
    if h == seq!["App Name"@, "Start Time"@, "Minutes"@, "Seconds"@] {
        Some(Source::AppleHealth)
    } else if h == seq!["Started At"@, "Duration"@, "Preset"@, "Activity"@] {
        Some(Source::InsightTimer)
    } else if h == seq!["Date"@, "Exercise"@, "Duration"@, "Comments"@] {
        Some(Source::MindfulnessCoach)
    } else if h == seq!["Finished On"@, "Title"@, "Duration"@] {
        Some(Source::WakingUp)
    } else if h == seq![
        "timerTypeIndex"@,
        "selectedDurationSeconds"@,
        "startTime"@,
        "completedTime"@,
    ] {
        Some(Source::FinchMeditation)
    } else if h == seq!["breathing_type"@, "duration"@, "start_time"@, "completed_time"@] {
        Some(Source::FinchBreathing)
    } else {
        None
    }
}

fn headers_are(h: &Vec<String>, expected: &Vec<&str>) -> (b: bool)
    ensures
        b == (h@.map_values(|x: String| x@) == expected@.map_values(|x: &str| x@)),
{
    let ghost hv = h@.map_values(|x: String| x@);
    let ghost ev = expected@.map_values(|x: &str| x@);
    if h.len() != expected.len() {
        assert(hv.len() != ev.len());
        return false;
    }
    let mut i: usize = 0;
    while i < h.len()
        invariant
            i <= h.len() == expected.len(),
            hv == h@.map_values(|x: String| x@),
            ev == expected@.map_values(|x: &str| x@),
            forall|j: int| 0 <= j < i ==> hv[j] == ev[j],
        decreases h.len() - i,
    {
        if !text_is(&h[i], expected[i]) {
            assert(hv[i as int] != ev[i as int]);
            return false;
        }
        i += 1;
    }
    assert(hv =~= ev);
    true
}

impl Source {
    /// The source whose export starts with `headers`;
    /// [`DetectError::UnrecognizedHeaders`] with the headers when no source
    /// matches.
    pub fn autodetect(headers: &Vec<String>) -> (res: Result<Source, DetectError>)
        ensures
            match source_for_headers(headers@.map_values(|x: String| x@)) {
                Some(s) => res == Ok::<Source, DetectError>(s),
                None => res matches Err(DetectError::UnrecognizedHeaders(v)) && v@.map_values(|x: String| x@)
                    == headers@.map_values(|x: String| x@),
            },
    {
        let ghost hv = headers@.map_values(|x: String| x@);
        let apple = vec!["App Name", "Start Time", "Minutes", "Seconds"];
        assert(apple@.map_values(|x: &str| x@) =~= seq!["App Name"@, "Start Time"@, "Minutes"@, "Seconds"@]);
        if headers_are(headers, &apple) {
            return Ok(Source::AppleHealth);
        }
        let insight = vec!["Started At", "Duration", "Preset", "Activity"];
        assert(insight@.map_values(|x: &str| x@) =~= seq!["Started At"@, "Duration"@, "Preset"@, "Activity"@]);
        if headers_are(headers, &insight) {
            return Ok(Source::InsightTimer);
        }
        let coach = vec!["Date", "Exercise", "Duration", "Comments"];
        assert(coach@.map_values(|x: &str| x@) =~= seq!["Date"@, "Exercise"@, "Duration"@, "Comments"@]);
        if headers_are(headers, &coach) {
            return Ok(Source::MindfulnessCoach);
        }
        let waking = vec!["Finished On", "Title", "Duration"];
        assert(waking@.map_values(|x: &str| x@) =~= seq!["Finished On"@, "Title"@, "Duration"@]);
        if headers_are(headers, &waking) {
            return Ok(Source::WakingUp);
        }
        let timer = vec!["timerTypeIndex", "selectedDurationSeconds", "startTime", "completedTime"];
        assert(timer@.map_values(|x: &str| x@) =~= seq![
            "timerTypeIndex"@,
            "selectedDurationSeconds"@,
            "startTime"@,
            "completedTime"@,
        ]);
        if headers_are(headers, &timer) {
            return Ok(Source::FinchMeditation);
        }
        let breathing = vec!["breathing_type", "duration", "start_time", "completed_time"];
        assert(breathing@.map_values(|x: &str| x@) =~= seq![
            "breathing_type"@,
            "duration"@,
            "start_time"@,
            "completed_time"@,
        ]);
        if headers_are(headers, &breathing) {
            return Ok(Source::FinchBreathing);
        }
        Err(DetectError::UnrecognizedHeaders(copy_headers(headers)))
    }

    /// The source of a CSV export, detected from its header row;
    /// [`DetectError::UnreadableCsv`] with the reader's error text when the
    /// headers cannot be read.
    pub fn autodetect_csv(data: &[u8]) -> (res: Result<Source, DetectError>)
        ensures
            match csv_headers(data@) {
                Err(e) => res matches Err(DetectError::UnreadableCsv(t)) && t@ == e,
                Ok(h) => match source_for_headers(h) {
                    Some(s) => res == Ok::<Source, DetectError>(s),
                    None => res matches Err(DetectError::UnrecognizedHeaders(v)) && v@.map_values(|x: String| x@)
                        == h,
                },
            },
    {
        match read_csv_headers(data) {
            Err(e) => Err(DetectError::UnreadableCsv(e)),
            Ok(h) => Source::autodetect(&h),
        }
    }
}

/// The SQL that stores imported sessions and the SQL that removes them again.
pub struct SqlQueries {
    pub insert: String,
    pub delete: String,
}

/// The values row of one stored session.
pub open spec fn insert_row(
    id: Seq<char>,
    user_id: u64,
    guild_id: u64,
    r: BloomRecord,
    when: Seq<char>,
    last: bool,
) -> Seq<char> {
    " ('"@ + id + "', '"@ + nat_decimal(user_id as nat) + "', '"@ + int_decimal(
        r.meditation_minutes as int,
    ) + "', '"@ + int_decimal(r.meditation_seconds as int) + "', '"@ + nat_decimal(
        guild_id as nat,
    ) + "', '"@ + when + "')"@ + if last {
        ";"@
    } else {
        ","@
    }
}

/// The values rows of the first `k` sessions.
pub open spec fn insert_rows(
    ids: Seq<Seq<char>>,
    user_id: u64,
    guild_id: u64,
    recs: Seq<BloomRecord>,
    whens: Seq<Seq<char>>,
    k: int,
) -> Seq<char>
    decreases k,
{
    if k <= 0 {
        Seq::empty()
    } else {
        insert_rows(ids, user_id, guild_id, recs, whens, k - 1) + insert_row(
            ids[k - 1],
            user_id,
            guild_id,
            recs[k - 1],
            whens[k - 1],
            k == recs.len(),
        )
    }
}

/// The quoted identifiers of the first `k` of `n` sessions.
pub open spec fn delete_ids(ids: Seq<Seq<char>>, n: int, k: int) -> Seq<char>
    decreases k,
{
    if k <= 0 {
        Seq::empty()
    } else {
        delete_ids(ids, n, k - 1) + "'"@ + ids[k - 1] + if k == n {
            "');"@
        } else {
            "', "@
        }
    }
}

/// `q` stores the sessions `recs` of `user_id` in `guild_id` under the fresh
/// identifiers `ids`, and removes exactly those rows again.
pub open spec fn queries_for(
    ids: Seq<Seq<char>>,
    user_id: u64,
    guild_id: u64,
    recs: Seq<BloomRecord>,
    insert: Seq<char>,
    delete: Seq<char>,
) -> bool {
    &&& ids.len() == recs.len()
    &&& forall|i: int|
        0 <= i < ids.len() ==> (#[trigger] ids[i]).len() == 26 && forall|j: int|
            0 <= j < 26 ==> is_ulid_char_upper(#[trigger] ids[i][j])
    &&& forall|i: int|
        0 <= i < recs.len() ==> (#[trigger] utc_rfc3339(
            recs[i].occurred_at.secs,
            recs[i].occurred_at.nanos,
        )) is Some
    &&& insert == "INSERT INTO meditation (record_id, user_id, meditation_minutes, meditation_seconds, guild_id, occurred_at) VALUES"@
        + insert_rows(
        ids,
        user_id,
        guild_id,
        recs,
        recs.map_values(
            |r: BloomRecord| utc_rfc3339(r.occurred_at.secs, r.occurred_at.nanos)->0,
        ),
        recs.len() as int,
    )
    &&& delete == "DELETE FROM meditation WHERE record_id IN ("@ + delete_ids(
        ids,
        recs.len() as int,
        recs.len() as int,
    )
}

fn append_record_sql(
    insert: &mut String,
    delete: &mut String,
    id: &String,
    user_id: u64,
    guild_id: u64,
    record: BloomRecord,
    when: &String,
    last: bool,
)
    ensures
        final(insert)@ == old(insert)@ + insert_row(id@, user_id, guild_id, record, when@, last),
        final(delete)@ == old(delete)@ + "'"@ + id@ + if last {
            "');"@
        } else {
            "', "@
        },
{
    let ghost i0 = insert@;
    let ghost d0 = delete@;
    push_str(insert, " ('");
    push_str(insert, id.as_str());
    push_str(insert, "', '");
    push_u64(insert, user_id);
    push_str(insert, "', '");
    push_i64(insert, record.meditation_minutes as i64);
    push_str(insert, "', '");
    push_i64(insert, record.meditation_seconds as i64);
    push_str(insert, "', '");
    push_u64(insert, guild_id);
    push_str(insert, "', '");
    push_str(insert, when.as_str());
    push_str(insert, "')");
    if last {
        push_str(insert, ";");
    } else {
        push_str(insert, ",");
    }
    push_str(delete, "'");
    push_str(delete, id.as_str());
    if last {
        push_str(delete, "');");
    } else {
        push_str(delete, "', ");
    }
    assert(insert@ =~= i0 + insert_row(id@, user_id, guild_id, record, when@, last));
    assert(delete@ =~= d0 + "'"@ + id@ + if last {
        "');"@
    } else {
        "', "@
    });
}

impl SqlQueries {
    /// Builds the insert statement for the sessions, each under a fresh ULID, and
    /// the delete statement for the same identifiers. `None` when a session's
    /// time cannot be rendered as RFC 3339.
    pub fn generate(guild_id: u64, user_id: u64, user_data: &Vec<BloomRecord>) -> (res: Option<
        SqlQueries,
    >)
        ensures
            res is None <==> exists|i: int|
                0 <= i < user_data@.len() && (#[trigger] utc_rfc3339(
                    user_data@[i].occurred_at.secs,
                    user_data@[i].occurred_at.nanos,
                )) is None,
            res is Some ==> exists|ids: Seq<Seq<char>>|
                #[trigger] queries_for(
                    ids,
                    user_id,
                    guild_id,
                    user_data@,
                    res->0.insert@,
                    res->0.delete@,
                ),
    {
        let n = user_data.len();
        let ghost recs = user_data@;
        let ghost whens = recs.map_values(
            |r: BloomRecord| utc_rfc3339(r.occurred_at.secs, r.occurred_at.nanos)->0,
        );
        let mut insert = String::new();
        push_str(
            &mut insert,
            "INSERT INTO meditation (record_id, user_id, meditation_minutes, meditation_seconds, guild_id, occurred_at) VALUES",
        );
        let mut delete = String::new();
        push_str(&mut delete, "DELETE FROM meditation WHERE record_id IN (");
        let ghost insert_head = insert@;
        let ghost delete_head = delete@;
        let ghost mut ids: Seq<Seq<char>> = Seq::empty();
        let mut i: usize = 0;
        while i < n
            invariant
                i <= n == recs.len(),
                recs == user_data@,
                whens == recs.map_values(
                    |r: BloomRecord| utc_rfc3339(r.occurred_at.secs, r.occurred_at.nanos)->0,
                ),
                ids.len() == i,
                forall|k: int|
                    0 <= k < ids.len() ==> (#[trigger] ids[k]).len() == 26 && forall|j: int|
                        0 <= j < 26 ==> is_ulid_char_upper(#[trigger] ids[k][j]),
                forall|k: int|
                    0 <= k < i ==> (#[trigger] utc_rfc3339(
                        recs[k].occurred_at.secs,
                        recs[k].occurred_at.nanos,
                    )) is Some,
                insert@ == insert_head + insert_rows(ids, user_id, guild_id, recs, whens, i as int),
                delete@ == delete_head + delete_ids(ids, n as int, i as int),
            decreases n - i,
        {
            let record = user_data[i];
            let id = new_ulid_string();
            let when = match to_rfc3339(record.occurred_at) {
                Some(w) => w,
                None => {
                    return None;
                },
            };
            let ghost old_ids = ids;
            proof {
                ids = ids.push(id@);
                assert(whens[i as int] == when@);
                assert(ids[i as int] == id@);
            }
            append_record_sql(&mut insert, &mut delete, &id, user_id, guild_id, record, &when, i + 1 >= n);
            proof {
                lemma_insert_rows_prefix(old_ids, ids, user_id, guild_id, recs, whens, i as int);
                lemma_delete_ids_prefix(old_ids, ids, n as int, i as int);
                assert(insert_rows(ids, user_id, guild_id, recs, whens, i + 1) == insert_rows(
                    ids,
                    user_id,
                    guild_id,
                    recs,
                    whens,
                    i as int,
                ) + insert_row(ids[i as int], user_id, guild_id, recs[i as int], whens[i as int], i + 1 == n));
                assert(insert@ =~= insert_head + insert_rows(ids, user_id, guild_id, recs, whens, i + 1));
                assert(delete@ =~= delete_head + delete_ids(ids, n as int, i + 1));
            }
            i += 1;
        }
        let q = SqlQueries { insert, delete };
        let ghost gq = q;
        let res = Some(q);
        assert(res->0 == gq);
        assert(queries_for(ids, user_id, guild_id, user_data@, res->0.insert@, res->0.delete@));
        res
    }
}

proof fn lemma_insert_rows_prefix(
    a: Seq<Seq<char>>,
    b: Seq<Seq<char>>,
    user_id: u64,
    guild_id: u64,
    recs: Seq<BloomRecord>,
    whens: Seq<Seq<char>>,
    k: int,
)
    requires
        0 <= k <= a.len() <= b.len(),
        forall|i: int| 0 <= i < a.len() ==> a[i] == b[i],
    ensures
        insert_rows(a, user_id, guild_id, recs, whens, k) == insert_rows(
            b,
            user_id,
            guild_id,
            recs,
            whens,
            k,
        ),
    decreases k,
{
    if k > 0 {
        lemma_insert_rows_prefix(a, b, user_id, guild_id, recs, whens, k - 1);
    }
}

proof fn lemma_delete_ids_prefix(a: Seq<Seq<char>>, b: Seq<Seq<char>>, n: int, k: int)
    requires
        0 <= k <= a.len() <= b.len(),
        forall|i: int| 0 <= i < a.len() ==> a[i] == b[i],
    ensures
        delete_ids(a, n, k) == delete_ids(b, n, k),
    decreases k,
{
    if k > 0 {
        lemma_delete_ids_prefix(a, b, n, k - 1);
    }
}

/// The largest attachment a member other than staff may import, in bytes.
pub const MAX_SIZE: u32 = 262_144;

/// Why an import command stopped before or after the import itself.
#[derive(Debug, Clone, Copy, PartialEq, Eq, Structural)]
pub enum ImportProblem {
    AttachmentMissing,
    ImportOtherUser,
    FilesizeExceedsLimit,
    DownloadFailed,
    UnrecognizedFormat,
    NoQualifyingEntries,
    ZeroEntriesAdded,
}

/// The text shown for a problem.
pub open spec fn problem_text(p: ImportProblem) -> Seq<char> {
    match p {
        ImportProblem::AttachmentMissing => "No attachment found."@,
        ImportProblem::ImportOtherUser => "You cannot import files uploaded by other users."@,
        ImportProblem::FilesizeExceedsLimit => "File exceeds size limit. Please contact staff for assistance with importing large files."@,
        ImportProblem::DownloadFailed => "Failed to download attachment. Please try again."@,
        ImportProblem::UnrecognizedFormat => "**Unrecognized file format.**\n-# Please use an unaltered data export. Supported sources include Insight Timer, VA Mindfulness Coach, Waking Up, Finch Breathing and Meditation Sessions, and Apple Health (requires pre-processing with [Bloom Parser](<https://meditationmind.org/bloom/#bloom-parser>)). If you would like support for another format, please contact staff."@,
        ImportProblem::NoQualifyingEntries => "No qualifying entries found."@,
        ImportProblem::ZeroEntriesAdded => "No entries added. Please try again or contact staff for assistance."@,
    }
}

impl ImportProblem {
    /// The text shown for this problem.
    pub fn message(&self) -> (s: &'static str)
        ensures
            s@ == problem_text(*self),
    {
        match self {
            ImportProblem::AttachmentMissing => "No attachment found.",
            ImportProblem::ImportOtherUser => "You cannot import files uploaded by other users.",
            ImportProblem::FilesizeExceedsLimit => "File exceeds size limit. Please contact staff for assistance with importing large files.",
            ImportProblem::DownloadFailed => "Failed to download attachment. Please try again.",
            ImportProblem::UnrecognizedFormat => "**Unrecognized file format.**\n-# Please use an unaltered data export. Supported sources include Insight Timer, VA Mindfulness Coach, Waking Up, Finch Breathing and Meditation Sessions, and Apple Health (requires pre-processing with [Bloom Parser](<https://meditationmind.org/bloom/#bloom-parser>)). If you would like support for another format, please contact staff.",
            ImportProblem::NoQualifyingEntries => "No qualifying entries found.",
            ImportProblem::ZeroEntriesAdded => "No entries added. Please try again or contact staff for assistance.",
        }
    }
}

/// Whether an uploaded file may be imported: staff may import files of any
/// size, others up to [`MAX_SIZE`] bytes.
pub fn check_upload(staff: bool, size: u32) -> (r: Result<(), ImportProblem>)
    ensures
        r is Ok <==> (staff || size <= MAX_SIZE),
        r matches Err(p) ==> p == ImportProblem::FilesizeExceedsLimit,
{
    if !staff && size > MAX_SIZE {
        Err(ImportProblem::FilesizeExceedsLimit)
    } else {
        Ok(())
    }
}

/// The member whose sessions a message attachment is imported for: only
/// staff may import another member's file, or import for someone else; the
/// size limit holds for everyone but staff. `attachment_size` is `None` when
/// the message has no attachment.
pub fn check_message_import(
    attachment_size: Option<u32>,
    staff: bool,
    message_author: u64,
    invoker: u64,
    requested_user: Option<u64>,
) -> (r: Result<u64, ImportProblem>)
    ensures
        match attachment_size {
            None => r == Err::<u64, ImportProblem>(ImportProblem::AttachmentMissing),
            Some(size) => if !staff && message_author != invoker {
                r == Err::<u64, ImportProblem>(ImportProblem::ImportOtherUser)
            } else if !staff && size > MAX_SIZE {
                r == Err::<u64, ImportProblem>(ImportProblem::FilesizeExceedsLimit)
            } else {
                r == Ok::<u64, ImportProblem>(
                    match requested_user {
                        Some(u) => if staff {
                            u
                        } else {
                            message_author
                        },
                        None => message_author,
                    },
                )
            },
        },
{
    let size = match attachment_size {
        Some(s) => s,
        None => return Err(ImportProblem::AttachmentMissing),
    };
    if !staff {
        if message_author != invoker {
            return Err(ImportProblem::ImportOtherUser);
        }
        if size > MAX_SIZE {
            return Err(ImportProblem::FilesizeExceedsLimit);
        }
    }
    match requested_user {
        Some(u) => if staff {
            Ok(u)
        } else {
            Ok(message_author)
        },
        None => Ok(message_author),
    }
}

/// The confirmation of a finished import: how much was added from how many
/// entries, and from which source; `time` is the added time as displayed.
pub fn import_success_message(time: &str, result: u64, source: &str) -> (s: String)
    ensures
        s@ == "<:mmcheck:1279517233877483601> Successfully added a total of "@ + time@ + " from "@
            + nat_decimal(result as nat) + (if result == 1 {
            " entry"@
        } else {
            " entries"@
        }) + " imported from "@ + source@ + "."@,
{
    let mut s = String::new();
    push_str(&mut s, "<:mmcheck:1279517233877483601> Successfully added a total of ");
    push_str(&mut s, time);
    push_str(&mut s, " from ");
    push_u64(&mut s, result);
    if result == 1 {
        push_str(&mut s, " entry");
    } else {
        push_str(&mut s, " entries");
    }
    push_str(&mut s, " imported from ");
    push_str(&mut s, source);
    push_str(&mut s, ".");
    s
}

/// The log entry of an import for `user_id` run by `author_name` (`author_id`).
pub fn import_log(user_id: u64, result: u64, minutes: i32, source: &str, author_name: &str, author_id: u64) -> (e: crate::pagination::PageEmbed)
    ensures
        e.title@ == "Meditation Tracking Data Import"@,
        e.description@ == "**User**: <@"@ + nat_decimal(user_id as nat) + ">\n**Entries Added**: "@
            + nat_decimal(result as nat) + "\n**Total Time**: "@ + int_decimal(minutes as int)
            + " minutes\n**Source**: "@ + source@,
        e.fields@.len() == 0,
        e.footer matches Some(f) && f@ == "Added by "@ + author_name@ + " ("@ + nat_decimal(
            author_id as nat,
        ) + ")"@,
{
    let mut d = String::new();
    push_str(&mut d, "**User**: <@");
    push_u64(&mut d, user_id);
    push_str(&mut d, ">\n**Entries Added**: ");
    push_u64(&mut d, result);
    push_str(&mut d, "\n**Total Time**: ");
    push_i64(&mut d, minutes as i64);
    push_str(&mut d, " minutes\n**Source**: ");
    push_str(&mut d, source);
    let mut f = String::new();
    push_str(&mut f, "Added by ");
    push_str(&mut f, author_name);
    push_str(&mut f, " (");
    push_u64(&mut f, author_id);
    push_str(&mut f, ")");
    crate::pagination::PageEmbed {
        title: crate::text::str_to_string("Meditation Tracking Data Import"),
        description: d,
        fields: Vec::new(),
        footer: Some(f),
    }
}

/// The name of the file that returns the delete statement of an import.
pub fn import_file_name(user_id: u64, id: &str) -> (s: String)
    ensures
        s@ == "import_"@ + nat_decimal(user_id as nat) + "_"@ + id@ + ".txt"@,
{
    let mut s = String::new();
    push_str(&mut s, "import_");
    push_u64(&mut s, user_id);
    push_str(&mut s, "_");
    push_str(&mut s, id);
    push_str(&mut s, ".txt");
    s
}

} // verus!

verus! {

/// The minutes of the sessions, summed.
pub open spec fn minutes_sum(records: Seq<BloomRecord>) -> int
    decreases records.len(),
{
    if records.len() == 0 {
        0
    } else {
        minutes_sum(records.drop_last()) + records.last().meditation_minutes
    }
}

/// The seconds of the sessions, summed.
pub open spec fn seconds_sum(records: Seq<BloomRecord>) -> int
    decreases records.len(),
{
    if records.len() == 0 {
        0
    } else {
        seconds_sum(records.drop_last()) + records.last().meditation_seconds
    }
}

/// The totals an import reports are the sums over exactly the sessions it
/// stores, and every stored session comes from a row taken in order.
pub proof fn lemma_import_totals(outs: Seq<RowOutcome>)
    ensures
        tally(outs) matches Ok(t) ==> t.minutes == minutes_sum(t.records) && t.seconds
            == seconds_sum(t.records) && t.records.len() <= outs.len(),
    decreases outs.len(),
{
    if outs.len() > 0 {
        lemma_import_totals(outs.drop_last());
        match tally(outs.drop_last()) {
            Ok(t) => match outs.last() {
                RowOutcome::Take(r) => {
                    assert(t.records.push(r).drop_last() =~= t.records);
                },
                _ => {},
            },
            Err(_) => {},
        }
    }
}

} // verus!

verus! {

/// The conversion an uploaded file needs before it is read as CSV.
#[derive(Debug, Clone, Copy, PartialEq, Eq, Structural)]
pub enum JsonConversion {
    /// `TimerSession.json`, Finch's meditation sessions.
    FinchTimer,
    /// `BreathingSession.json`, Finch's breathing sessions.
    FinchBreathing,
    /// Any other file is read as it is.
    Unchanged,
}

/// The conversion a file needs, by its name.
pub fn json_conversion(filename: &str) -> (c: JsonConversion)
    ensures
        c == (if filename@ == "TimerSession.json"@ {
            JsonConversion::FinchTimer
        } else if filename@ == "BreathingSession.json"@ {
            JsonConversion::FinchBreathing
        } else {
            JsonConversion::Unchanged
        }),
{
    let name = crate::text::str_to_string(filename);
    if name == crate::text::str_to_string("TimerSession.json") {
        JsonConversion::FinchTimer
    } else if name == crate::text::str_to_string("BreathingSession.json") {
        JsonConversion::FinchBreathing
    } else {
        JsonConversion::Unchanged
    }
}

/// Whether an import is checked against all of the member's sessions: every
/// import but one of new entries, which is checked against the latest alone.
pub fn needs_all_entries(import_type: ImportType) -> (b: bool)
    ensures
        b == (import_type != ImportType::NewEntries),
{
    match import_type {
        ImportType::NewEntries => false,
        ImportType::AllEntries => true,
    }
}

/// The sessions an import is checked against: the latest session alone for
/// an import of new entries (the epoch when there is none), otherwise all of
/// the member's sessions, `all`.
pub fn current_data(import_type: ImportType, latest: Meditation, all: Vec<Meditation>) -> (v: Vec<Meditation>)
    ensures
        import_type == ImportType::NewEntries ==> v@ == seq![latest],
        import_type != ImportType::NewEntries ==> v@ == all@,
{
    match import_type {
        ImportType::NewEntries => {
            let mut v: Vec<Meditation> = Vec::new();
            v.push(latest);
            assert(v@ =~= seq![latest]);
            v
        },
        ImportType::AllEntries => all,
    }
}

/// After the rows were read: nothing is stored when no row qualified.
pub fn check_qualifying(entries: usize) -> (r: Result<(), ImportProblem>)
    ensures
        entries == 0 ==> r == Err::<(), ImportProblem>(ImportProblem::NoQualifyingEntries),
        entries > 0 ==> r is Ok,
{
    if entries == 0 {
        Err(ImportProblem::NoQualifyingEntries)
    } else {
        Ok(())
    }
}

/// After the insert: the import stops when the database stored no row.
pub fn check_inserted(rows: u64) -> (r: Result<(), ImportProblem>)
    ensures
        rows < 1 ==> r == Err::<(), ImportProblem>(ImportProblem::ZeroEntriesAdded),
        rows >= 1 ==> r is Ok,
{
    if rows < 1 {
        Err(ImportProblem::ZeroEntriesAdded)
    } else {
        Ok(())
    }
}

/// The note sent for a problem: the info emoji and the problem's text.
pub fn problem_notice(p: ImportProblem) -> (s: String)
    ensures
        s@ == "<:mminfo:1279517292455264359> "@ + problem_text(p),
{
    let mut s = String::new();
    crate::text::push_str(&mut s, "<:mminfo:1279517292455264359> ");
    crate::text::push_str(&mut s, p.message());
    s
}

/// Whether the tracking-channel notice of an import pings the member: not
/// when the member has the no-pings role (a member that could not be fetched
/// is pinged).
pub fn pings_member(member_roles: Option<&Vec<u64>>) -> (b: bool)
    ensures
        b == !crate::common::holds_role(
            match member_roles {
                Some(r) => Some(r@),
                None => None,
            },
            1128156466273058906u64,
        ),
{
    !crate::common::has_role(member_roles, crate::config::roles().no_pings)
}

} // verus!
