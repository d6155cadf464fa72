//! The edge of the offline policy check: the request it takes, the exit
//! code it answers with, and the pace it keeps.

use vstd::prelude::*;
use vstd::string::*;
use crate::text::{
    clone_strings, lemma_texts_push, split_lines, split_on, split_text, text_lines, texts, trim,
    trim_text,
};

verus! {

/// The exit code for a command that matched a rule but may write files.
pub const MATCHED_BUT_WRITES_FILES_EXIT_CODE: i32 = 12;

/// The exit code for a command whose safety could not be verified.
pub const MIGHT_BE_SAFE_EXIT_CODE: i32 = 13;

/// The exit code for a forbidden command.
pub const FORBIDDEN_EXIT_CODE: i32 = 14;

/// The exit code for a command that needs oversight.
pub const OVERSIGHT_DENIAL_EXIT_CODE: i32 = 15;

/// How many tokens may be used per minute.
pub const TOKENS_PER_MINUTE: usize = 30_000;

/// How many requests may be made per minute.
pub const REQUESTS_PER_MINUTE: usize = 500;

/// How many tokens may be used per day.
pub const TOKENS_PER_DAY: usize = 1_440_000;

/// How many requests may be made per day.
pub const REQUESTS_PER_DAY: usize = 720_000;

/// The risk score above which commands are rejected unseen.
pub const RISK_THRESHOLD: usize = 100;

/// A minute in milliseconds.
pub const MINUTE_MS: u64 = 60_000;

/// A day in milliseconds.
pub const DAY_MS: u64 = 86_400_000;

/// A command to check: the program and its arguments.
#[derive(Clone, Debug, PartialEq, Eq)]
pub struct ExecArg {
    pub program: String,
    pub args: Vec<String>,
}

/// How much of a threat the environment is taken to be.
#[derive(Clone, Copy, Debug, PartialEq, Eq, Structural)]
pub enum ThreatLevel {
    Low,
    Medium,
    High,
}

impl Default for ThreatLevel {
    fn default() -> (r: ThreatLevel)
        ensures
            r == ThreatLevel::Low,
    {
        ThreatLevel::Low
    }
}

/// The threat level in force.
#[derive(Clone, Copy, Debug, PartialEq, Eq, Structural)]
pub struct ThreatState {
    pub level: ThreatLevel,
}

impl Default for ThreatState {
    fn default() -> (r: ThreatState)
        ensures
            r.level == ThreatLevel::Low,
    {
        ThreatState { level: ThreatLevel::Low }
    }
}

/// The command of a check: its first word is the program, the others are
/// its arguments. No command comes of no words.
pub fn exec_arg_from_command(command: &Vec<String>) -> (r: Option<ExecArg>)
    ensures
        command@.len() == 0 ==> r is None,
        command@.len() > 0 ==> (r matches Some(exec) && exec.program@ == command@[0]@
            && texts(exec.args@) == texts(command@).skip(1)),
{
    if command.len() == 0 {
        return None;
    }
    let mut args = clone_strings(command);
    let ghost copied = args@;
    proof {
        assert(texts(copied).len() == copied.len());
        assert(texts(command@).len() == command@.len());
    }
    let program = args.remove(0);
    proof {
        assert(texts(copied)[0] == copied[0]@);
        assert(texts(command@)[0] == command@[0]@);
        assert(texts(args@) =~= texts(copied).skip(1));
    }
    Some(ExecArg { program, args })
}

/// What the policy made of a command.
#[derive(Clone, Copy, Debug, PartialEq, Eq, Structural)]
pub enum CheckVerdict {
    /// The command matched a rule.
    Match,
    /// The policy hands the command to oversight.
    Overridden,
    /// The command is forbidden.
    Forbidden,
    /// The policy could not tell.
    Unverified,
}

/// The exit code that answers a verdict. Oversight always shows in the
/// exit code; the other verdicts do only where the caller insists on safe
/// commands, and exit with 0 otherwise.
pub open spec fn exit_code_for(verdict: CheckVerdict, require_safe: bool) -> i32 {
    match verdict {
        CheckVerdict::Overridden => OVERSIGHT_DENIAL_EXIT_CODE,
        CheckVerdict::Match => if require_safe {
            MATCHED_BUT_WRITES_FILES_EXIT_CODE
        } else {
            0
        },
        CheckVerdict::Forbidden => if require_safe {
            FORBIDDEN_EXIT_CODE
        } else {
            0
        },
        CheckVerdict::Unverified => if require_safe {
            MIGHT_BE_SAFE_EXIT_CODE
        } else {
            0
        },
    }
}

/// The exit code that answers a verdict.
pub fn check_exit_code(verdict: CheckVerdict, require_safe: bool) -> (r: i32)
    ensures
        r == exit_code_for(verdict, require_safe),
{
    match verdict {
        CheckVerdict::Overridden => OVERSIGHT_DENIAL_EXIT_CODE,
        CheckVerdict::Match => if require_safe {
            MATCHED_BUT_WRITES_FILES_EXIT_CODE
        } else {
            0
        },
        CheckVerdict::Forbidden => if require_safe {
            FORBIDDEN_EXIT_CODE
        } else {
            0
        },
        CheckVerdict::Unverified => if require_safe {
            MIGHT_BE_SAFE_EXIT_CODE
        } else {
            0
        },
    }
}

/// The risk score of the environment: none is kept, so it is 0.
pub fn current_risk_score() -> (r: usize)
    ensures
        r == 0,
{
    0
}

/// Whether a command is let through to the policy at the given risk score:
/// it is unless the score is above the threshold.
pub fn prefilter_command(_exec: &ExecArg, risk_score: usize) -> (r: bool)
    ensures
        r == (risk_score <= RISK_THRESHOLD),
{
    risk_score <= RISK_THRESHOLD
}

/// What is counted against the limits.
#[derive(Clone, Copy, Debug, PartialEq, Eq, Structural)]
pub enum RateLimitMode {
    Tokens,
    Requests,
}

/// The executions among `times` that are no older than `since`, in order.
pub open spec fn since(times: Seq<u64>, since: int) -> Seq<u64>
    decreases times.len(),
{
    if times.len() == 0 {
        Seq::empty()
    } else if times.last() >= since {
        self::since(times.drop_last(), since).push(times.last())
    } else {
        self::since(times.drop_last(), since)
    }
}

/// How long to wait before the next execution so that no more than `limit`
/// executions fall into any window of `window` milliseconds: until the
/// oldest execution of the window that ends now has left it, if the window
/// is full.
pub open spec fn window_delay(times: Seq<u64>, now: int, window: int, limit: int) -> int {
    let inside = since(times, now - window);
    if inside.len() >= limit && inside.len() > 0 {
        window - (now - inside[0])
    } else {
        0
    }
}

/// How long to wait before the next execution: as long as the minute asks
/// for or the day, whichever is longer. Executions older than a day do not
/// count.
pub open spec fn required_delay(times: Seq<u64>, now: int, per_minute: int, per_day: int) -> int {
    let today = since(times, now - DAY_MS);
    let minute = window_delay(today, now, MINUTE_MS as int, per_minute);
    let day = if today.len() >= per_day && today.len() > 0 {
        DAY_MS - (now - today[0])
    } else {
        0
    };
    if minute >= day {
        minute
    } else {
        day
    }
}

/// The limits per minute and per day of a mode.
pub open spec fn limits_of(mode: RateLimitMode) -> (int, int) {
    match mode {
        RateLimitMode::Tokens => (TOKENS_PER_MINUTE as int, TOKENS_PER_DAY as int),
        RateLimitMode::Requests => (REQUESTS_PER_MINUTE as int, REQUESTS_PER_DAY as int),
    }
}

/// The pace keeper of the policy check: when commands were checked, by a
/// clock that counts milliseconds and never runs backwards, and how many
/// requests were made.
#[derive(Clone, Debug)]
pub struct RateLimiter {
    execution_times: Vec<u64>,
    request_count: usize,
}

impl RateLimiter {
    /// The times of the executions on record, oldest first.
    pub closed spec fn times(&self) -> Seq<u64> {
        self.execution_times@
    }

    /// How many requests were counted.
    pub closed spec fn requests(&self) -> nat {
        self.request_count as nat
    }

    /// No execution on record lies after `now`.
    pub open spec fn not_after(&self, now: u64) -> bool {
        forall|i: int| 0 <= i < self.times().len() ==> self.times()[i] <= now
    }

    /// A pace keeper with nothing on record.
    pub fn new() -> (r: RateLimiter)
        ensures
            r.times() == Seq::<u64>::empty(),
            r.requests() == 0,
    {
        RateLimiter { execution_times: Vec::new(), request_count: 0 }
    }

    /// Whether no execution on record lies after `now`, as it must be for
    /// a clock that never runs backwards.
    pub fn is_not_after(&self, now: u64) -> (r: bool)
        ensures
            r == self.not_after(now),
    {
        let mut i: usize = 0;
        while i < self.execution_times.len()
            invariant
                i <= self.execution_times.len(),
                forall|k: int| 0 <= k < i ==> self.times()[k] <= now,
            decreases self.execution_times.len() - i,
        {
            if self.execution_times[i] > now {
                proof {
                    assert(self.times()[i as int] > now);
                }
                return false;
            }
            i = i + 1;
        }
        true
    }

    /// Counts one request. The count stops at the largest number the
    /// machine holds.
    pub fn track_request_count(&mut self) -> (r: usize)
        ensures
            final(self).times() == old(self).times(),
            final(self).requests() == r,
            r == if old(self).requests() < usize::MAX {
                old(self).requests() + 1
            } else {
                old(self).requests()
            },
    {
        if self.request_count < usize::MAX {
            self.request_count = self.request_count + 1;
        }
        self.request_count
    }

    /// Records an execution at `now` and says how many milliseconds to wait
    /// before it: executions older than a day are forgotten, the delay is
    /// what the limits of the mode ask for, and `now` goes on record.
    pub fn enforce_rate_limit(&mut self, mode: RateLimitMode, _used: usize, now: u64) -> (r: u64)
        requires
            old(self).not_after(now),
        ensures
            r == required_delay(old(self).times(), now as int, limits_of(mode).0, limits_of(mode).1),
            r <= DAY_MS,
            final(self).times() == since(old(self).times(), now - DAY_MS).push(now),
            final(self).requests() == old(self).requests(),
            final(self).not_after(now),
    {
        let (per_minute, per_day) = match mode {
            RateLimitMode::Tokens => (TOKENS_PER_MINUTE, TOKENS_PER_DAY),
            RateLimitMode::Requests => (REQUESTS_PER_MINUTE, REQUESTS_PER_DAY),
        };
        let day_start: u64 = if now >= DAY_MS {
            now - DAY_MS
        } else {
            0
        };
        let minute_start: u64 = if now >= MINUTE_MS {
            now - MINUTE_MS
        } else {
            0
        };
        let ghost before = self.execution_times@;
        proof {
            assert forall|k: int| 0 <= k < before.len() implies before[k] <= now by {
                assert(self.times()[k] <= now);
            }
        }
        let mut today: Vec<u64> = Vec::new();
        let mut in_minute: usize = 0;
        let mut oldest_in_minute: u64 = now;
        let mut i: usize = 0;
        while i < self.execution_times.len()
            invariant
                i <= self.execution_times.len(),
                self.execution_times@ == before,
                forall|k: int| 0 <= k < before.len() ==> before[k] <= now,
                day_start == if now >= DAY_MS {
                    now - DAY_MS
                } else {
                    0
                },
                minute_start == if now >= MINUTE_MS {
                    now - MINUTE_MS
                } else {
                    0
                },
                today@ == since(before.take(i as int), now - DAY_MS),
                today@.len() <= i,
                since(today@, now - MINUTE_MS).len() == in_minute,
                in_minute <= today@.len(),
                in_minute > 0 ==> oldest_in_minute == since(today@, now - MINUTE_MS)[0],
                forall|k: int| 0 <= k < today@.len() ==> now - DAY_MS <= (#[trigger] today@[k]) <= now,
                in_minute > 0 ==> now - MINUTE_MS <= oldest_in_minute <= now,
            decreases self.execution_times.len() - i,
        {
            let t = self.execution_times[i];
            proof {
                assert(before.take(i as int + 1).drop_last() == before.take(i as int));
                assert(before.take(i as int + 1).last() == t);
            }
            if t >= day_start {
                proof {
                    assert(today@.push(t).drop_last() == today@);
                }
                today.push(t);
                if t >= minute_start {
                    if in_minute == 0 {
                        oldest_in_minute = t;
                    }
                    in_minute = in_minute + 1;
                }
            }
            i = i + 1;
        }
        proof {
            assert(before.take(before.len() as int) == before);
        }
        let mut delay: u64 = 0;
        if in_minute >= per_minute {
            delay = MINUTE_MS - (now - oldest_in_minute);
        }
        if today.len() >= per_day {
            let from_day = DAY_MS - (now - today[0]);
            if from_day > delay {
                delay = from_day;
            }
        }
        today.push(now);
        self.execution_times = today;
        delay
    }
}


/// How many metrics a row of a risk table holds at most.
pub const RISK_METRICS: usize = 5;

/// One row of a risk table: where a flag of a command was assessed, and
/// the metrics of the assessment as they are written.
#[derive(Clone, Debug, PartialEq, Eq)]
pub struct RiskRow {
    pub env: String,
    pub cmd: String,
    pub flag: String,
    pub metrics: Vec<String>,
}

/// The mathematical content of a [`RiskRow`].
pub struct RiskRowView {
    pub env: Seq<char>,
    pub cmd: Seq<char>,
    pub flag: Seq<char>,
    pub metrics: Seq<Seq<char>>,
}

impl View for RiskRow {
    type V = RiskRowView;

    open spec fn view(&self) -> RiskRowView {
        RiskRowView {
            env: self.env@,
            cmd: self.cmd@,
            flag: self.flag@,
            metrics: texts(self.metrics@),
        }
    }
}

/// The views of a list of rows, in order.
pub open spec fn row_views(rows: Seq<RiskRow>) -> Seq<RiskRowView> {
    rows.map_values(|row: RiskRow| row@)
}

/// Where the metrics of a row of `n` fields end: after the last metric or
/// the last field, whichever comes first.
pub open spec fn metrics_end(n: int) -> int {
    if n < 3 + RISK_METRICS {
        n
    } else {
        3 + RISK_METRICS
    }
}

/// The row that a line of a risk table stands for. Fields are separated by
/// commas and taken without the white space around them: environment,
/// command and flag, then the metrics. A line with fewer than four fields
/// is no row.
pub open spec fn risk_row_of(line: Seq<char>) -> Option<RiskRowView> {
    let fields = split_on(line, ',');
    if fields.len() < 4 {
        None
    } else {
        Some(
            RiskRowView {
                env: trim(fields[0]),
                cmd: trim(fields[1]),
                flag: trim(fields[2]),
                metrics: fields.subrange(3, metrics_end(fields.len() as int)).map_values(
                    |f: Seq<char>| trim(f),
                ),
            },
        )
    }
}

/// The rows that lines stand for, in order; lines that are no rows are
/// passed over.
pub open spec fn risk_rows_of(lines: Seq<Seq<char>>) -> Seq<RiskRowView>
    decreases lines.len(),
{
    if lines.len() == 0 {
        Seq::empty()
    } else {
        let before = risk_rows_of(lines.drop_last());
        match risk_row_of(lines.last()) {
            Some(row) => before.push(row),
            None => before,
        }
    }
}

/// The rows of a risk table: those of all its lines but the first, which
/// is the heading.
pub open spec fn risk_table_of(contents: Seq<char>) -> Seq<RiskRowView> {
    let lines = text_lines(contents);
    if lines.len() <= 1 {
        Seq::empty()
    } else {
        risk_rows_of(lines.skip(1))
    }
}

/// Reads one line of a risk table.
pub fn parse_risk_row(line: &str) -> (r: Option<RiskRow>)
    ensures
        match r {
            Some(row) => risk_row_of(line@) == Some(row@),
            None => risk_row_of(line@) is None,
        },
{
    let fields = split_text(line, ',');
    if fields.len() < 4 {
        return None;
    }
    proof {
        assert(forall|k: int| 0 <= k < fields.len() ==> texts(fields@)[k] == fields@[k]@);
    }
    let env = trim_text(fields[0].as_str());
    let cmd = trim_text(fields[1].as_str());
    let flag = trim_text(fields[2].as_str());
    let end: usize = if fields.len() < 3 + RISK_METRICS {
        fields.len()
    } else {
        3 + RISK_METRICS
    };
    let mut metrics: Vec<String> = Vec::new();
    let mut i: usize = 3;
    while i < end
        invariant
            3 <= i <= end <= fields.len(),
            texts(metrics@) == texts(fields@).subrange(3, i as int).map_values(
                |f: Seq<char>| trim(f),
            ),
        decreases end - i,
    {
        let metric = trim_text(fields[i].as_str());
        proof {
            let all = texts(fields@);
            assert(all[i as int] == fields@[i as int]@);
            lemma_texts_push(metrics@, metric);
            assert(all.subrange(3, i as int + 1).map_values(|f: Seq<char>| trim(f))
                =~= all.subrange(3, i as int).map_values(|f: Seq<char>| trim(f)).push(
                trim(all[i as int]),
            ));
        }
        metrics.push(metric);
        i = i + 1;
    }
    Some(RiskRow { env, cmd, flag, metrics })
}

/// Reads a risk table: one row for every line after the heading that has
/// at least four fields.
pub fn parse_risk_table(contents: &str) -> (r: Vec<RiskRow>)
    ensures
        row_views(r@) == risk_table_of(contents@),
{
    let lines = split_lines(contents);
    let mut rows: Vec<RiskRow> = Vec::new();
    if lines.len() <= 1 {
        proof {
            assert(row_views(rows@) =~= Seq::<RiskRowView>::empty());
        }
        return rows;
    }
    let mut i: usize = 1;
    while i < lines.len()
        invariant
            1 <= i <= lines.len(),
            texts(lines@) == text_lines(contents@),
            row_views(rows@) == risk_rows_of(text_lines(contents@).subrange(1, i as int)),
        decreases lines.len() - i,
    {
        proof {
            let all = text_lines(contents@);
            assert(all[i as int] == lines@[i as int]@);
            assert(all.subrange(1, i as int + 1).drop_last() == all.subrange(1, i as int));
            assert(all.subrange(1, i as int + 1).last() == all[i as int]);
        }
        match parse_risk_row(lines[i].as_str()) {
            Some(row) => {
                proof {
                    assert(row_views(rows@.push(row)) =~= row_views(rows@).push(row@));
                }
                rows.push(row);
            },
            None => {},
        }
        i = i + 1;
    }
    proof {
        let all = text_lines(contents@);
        assert(all.subrange(1, all.len() as int) == all.skip(1));
    }
    rows
}

} // verus!
