//! One game session as a state machine. The caller reads each line (or the
//! failure to read one) and hands it to `GuessSession::attempt`, which decides
//! what happens and reports it; the caller displays the report and, unless
//! the session has ended, reads the next line.
use vstd::prelude::*;
use rand::Rng;
use crate::guess::{compare, outcome_of, parse, guess_value, validate, GuessError, Outcome};

verus! {

/// How a session ended.
#[derive(Debug, Clone, PartialEq, Eq)]
pub enum SessionResult {
    /// The secret was guessed after `attempts` lines were read.
    Won { attempts: u32 },
    /// Reading failed; the session cannot go on.
    Aborted { error: GuessError },
}

/// What one attempt produced, for the caller to display.
#[derive(Debug, Clone, PartialEq, Eq)]
pub enum Report {
    /// The line was not a usable guess (`ParseFailure` or `RangeFailure`);
    /// the session waits for another line.
    Rejected(GuessError),
    /// The guess was wrong: `Less` when it is below the secret, `Greater`
    /// when above. The session waits for another line.
    Hint(Outcome),
    /// The session has ended.
    Finished(SessionResult),
}

/// A session: the inclusive bounds, the secret, the number of lines read so
/// far, and, once it has ended, its result.
#[derive(Debug)]
pub struct GuessSession {
    low: i64,
    high: i64,
    secret: i64,
    attempts: u32,
    result: Option<SessionResult>,
}

/// What an attempt with `line` reports, for a session that has not ended.
/// `line` is either a line that was read or the description of a failed read.
pub open spec fn report_for(
    low: i64,
    high: i64,
    secret: i64,
    attempts: u32,
    line: Result<String, String>,
) -> Report {
    match line {
        Err(cause) => Report::Finished(
            SessionResult::Aborted { error: GuessError::IoFailure { cause } },
        ),
        Ok(raw) => match guess_value(raw@) {
            None => Report::Rejected(GuessError::ParseFailure { raw }),
            Some(v) => if v < low || v > high {
                Report::Rejected(GuessError::RangeFailure { value: v, low, high })
            } else if v == secret {
                Report::Finished(SessionResult::Won { attempts: (attempts + 1) as u32 })
            } else {
                Report::Hint(outcome_of(v, secret))
            },
        },
    }
}

/// Each failure comes from the stage that found it and keeps its variant: a
/// failed read, and nothing else, aborts the session, as an `IoFailure`; a
/// rejected line carries a `ParseFailure` or a `RangeFailure`, and the
/// session goes on.
pub proof fn failures_keep_their_stage(
    low: i64,
    high: i64,
    secret: i64,
    attempts: u32,
    line: Result<String, String>,
)
    ensures
        (report_for(low, high, secret, attempts, line) matches Report::Finished(
            SessionResult::Aborted { .. },
        )) <==> line is Err,
        report_for(low, high, secret, attempts, line) matches Report::Finished(
            SessionResult::Aborted { error },
        ) ==> error is IoFailure,
        report_for(low, high, secret, attempts, line) matches Report::Rejected(e) ==> (
        e is ParseFailure || e is RangeFailure),
{
}

impl SessionResult {
    /// An equal copy of this result.
    pub fn duplicate(&self) -> (r: SessionResult)
        ensures
            r == *self,
    {
        match self {
            SessionResult::Won { attempts } => SessionResult::Won { attempts: *attempts },
            SessionResult::Aborted { error } => SessionResult::Aborted { error: error.duplicate() },
        }
    }
}

impl GuessSession {
    pub closed spec fn low_spec(&self) -> i64 {
        self.low
    }

    pub closed spec fn high_spec(&self) -> i64 {
        self.high
    }

    pub closed spec fn secret_spec(&self) -> i64 {
        self.secret
    }

    pub closed spec fn attempts_spec(&self) -> u32 {
        self.attempts
    }

    pub closed spec fn result_spec(&self) -> Option<SessionResult> {
        self.result
    }

    /// The secret lies within the bounds, and a won session records the
    /// number of lines read.
    pub closed spec fn wf(&self) -> bool {
        &&& self.low <= self.secret <= self.high
        &&& (self.result matches Some(SessionResult::Won { attempts }) ==> attempts
            == self.attempts)
    }

    /// A session over `[low, high]` with the given secret, waiting for its
    /// first line; `None` when the secret lies outside the bounds.
    pub fn new(low: i64, high: i64, secret: i64) -> (r: Option<GuessSession>)
        ensures
            (low <= secret <= high) <==> r is Some,
            r matches Some(s) ==> {
                &&& s.wf()
                &&& s.low_spec() == low
                &&& s.high_spec() == high
                &&& s.secret_spec() == secret
                &&& s.attempts_spec() == 0
                &&& s.result_spec() is None
            },
    {
        if low <= secret && secret <= high {
            Some(GuessSession { low, high, secret, attempts: 0, result: None })
        } else {
            None
        }
    }

    /// A session over `[low, high]` whose secret is drawn at random from
    /// those bounds.
    pub fn start(low: i64, high: i64) -> (r: GuessSession)
        requires
            low <= high,
        ensures
            r.wf(),
            r.low_spec() == low,
            r.high_spec() == high,
            low <= r.secret_spec() <= high,
            r.attempts_spec() == 0,
            r.result_spec() is None,
    {
        let secret = draw_secret(low, high);
        GuessSession { low, high, secret, attempts: 0, result: None }
    }

    pub fn low(&self) -> (r: i64)
        ensures
            r == self.low_spec(),
    {
        self.low
    }

    pub fn high(&self) -> (r: i64)
        ensures
            r == self.high_spec(),
    {
        self.high
    }

    /// The number of lines read so far, those rejected included.
    pub fn attempts(&self) -> (r: u32)
        ensures
            r == self.attempts_spec(),
    {
        self.attempts
    }

    /// How the session ended, or `None` while it is still waiting for lines.
    pub fn result(&self) -> (r: Option<SessionResult>)
        ensures
            r == self.result_spec(),
    {
        match &self.result {
            Some(res) => Some(res.duplicate()),
            None => None,
        }
    }

    pub fn is_finished(&self) -> (r: bool)
        ensures
            r == self.result_spec() is Some,
    {
        self.result.is_some()
    }

    /// Takes one line, or the description of a failed read, and moves the
    /// session on. A failed read ends the session as `Aborted`. A line that
    /// is read counts as an attempt whatever it holds; a line that is not a
    /// number, or a number out of bounds, is reported and the session waits
    /// for another; a wrong guess gets a hint; the secret ends the session as
    /// `Won`. Once the session has ended it stays as it is and reports its
    /// result again.
    pub fn attempt(&mut self, line: Result<String, String>) -> (r: Report)
        requires
            old(self).wf(),
            old(self).attempts_spec() < u32::MAX,
        ensures
            final(self).wf(),
            final(self).low_spec() == old(self).low_spec(),
            final(self).high_spec() == old(self).high_spec(),
            final(self).secret_spec() == old(self).secret_spec(),
            old(self).result_spec() matches Some(res) ==> {
                &&& r == Report::Finished(res)
                &&& *final(self) == *old(self)
            },
            old(self).result_spec() is None ==> {
                &&& r == report_for(
                    old(self).low_spec(),
                    old(self).high_spec(),
                    old(self).secret_spec(),
                    old(self).attempts_spec(),
                    line,
                )
                &&& final(self).attempts_spec() == if line is Ok {
                    old(self).attempts_spec() + 1
                } else {
                    old(self).attempts_spec() as int
                }
                &&& final(self).result_spec() == match r {
                    Report::Finished(res) => Some(res),
                    _ => None,
                }
            },
    {
        if let Some(res) = &self.result {
            return Report::Finished(res.duplicate());
        }
        match line {
            Err(cause) => {
                let res = SessionResult::Aborted { error: GuessError::from_io(cause) };
                self.result = Some(res.duplicate());
                Report::Finished(res)
            },
            Ok(raw) => {
                self.attempts = self.attempts + 1;
                let value = match parse(raw) {
                    Ok(v) => v,
                    Err(e) => {
                        return Report::Rejected(e);
                    },
                };
                let guess = match validate(value, self.low, self.high) {
                    Ok(v) => v,
                    Err(e) => {
                        return Report::Rejected(e);
                    },
                };
                match compare(guess, self.secret) {
                    Outcome::Equal => {
                        let res = SessionResult::Won { attempts: self.attempts };
                        self.result = Some(res.duplicate());
                        Report::Finished(res)
                    },
                    other => Report::Hint(other),
                }
            },
        }
    }
}

/// Relies on rand's `thread_rng().gen_range(low..=high)`: a value drawn from
/// the inclusive range, which must not be empty (it panics on an empty one).
#[verifier::external_body]
fn draw_secret(low: i64, high: i64) -> (r: i64)
    requires
        low <= high,
    ensures
        low <= r <= high,
{
    rand::thread_rng().gen_range(low..=high)
}

} // verus!
