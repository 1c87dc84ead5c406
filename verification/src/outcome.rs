//! Outcomes of a single racer and the result record built from them.
//!
//! A racer's wait ends in one of two ways: the computation finished (with a
//! success value or its own error) before the deadline, or the deadline
//! elapsed first. `RacerOutcome` captures that observation; `RaceResult` is
//! the immutable record the ranking stores for it.

use vstd::prelude::*;

verus! {

/// The text of the error synthesized for a racer that outlives the deadline.
pub open spec fn timeout_text() -> Seq<char> {
    "Racer timed out"@
}

/// What the engine observed of one racer by the time its wait ended.
///
/// `Finished` carries the computation's own result — a success value or the
/// message of its own error; `TimedOut` means the deadline elapsed before
/// the computation produced anything.
pub enum RacerOutcome<T> {
    Finished(Result<T, String>),
    TimedOut,
}

/// The rank record of an executed racer: who it was, how long it ran,
/// whether it was disqualified, and what it produced.
#[derive(Debug, Clone)]
pub struct RaceResult<T> {
    pub name: String,
    pub duration_nanos: u64,
    pub disqualified: bool,
    pub error: Option<String>,
    pub value: Option<T>,
}

/// The mathematical shadow of a `RaceResult`: its name and error as
/// character sequences, the rest as plain values.
#[verifier::ext_equal]
pub ghost struct ResultModel<T> {
    pub name: Seq<char>,
    pub duration_nanos: u64,
    pub disqualified: bool,
    pub error: Option<Seq<char>>,
    pub value: Option<T>,
}

impl<T> View for RaceResult<T> {
    type V = ResultModel<T>;

    open spec fn view(&self) -> ResultModel<T> {
        ResultModel {
            name: self.name@,
            duration_nanos: self.duration_nanos,
            disqualified: self.disqualified,
            error: match self.error {
                Option::Some(e) => Option::Some(e@),
                Option::None => Option::None,
            },
            value: self.value,
        }
    }
}

/// The record that one observed outcome must turn into: a finished racer is
/// never disqualified and keeps its own value or error; a timed-out racer is
/// disqualified, loses whatever it may later produce, and is charged the
/// synthesized timeout error.
pub open spec fn result_model_of<T>(
    name: Seq<char>,
    duration_nanos: u64,
    outcome: RacerOutcome<T>,
) -> ResultModel<T> {
    match outcome {
        RacerOutcome::Finished(res) => match res {
            Result::Ok(v) => ResultModel {
                name,
                duration_nanos,
                disqualified: false,
                error: Option::None,
                value: Option::Some(v),
            },
            Result::Err(e) => ResultModel {
                name,
                duration_nanos,
                disqualified: false,
                error: Option::Some(e@),
                value: Option::None,
            },
        },
        RacerOutcome::TimedOut => ResultModel {
            name,
            duration_nanos,
            disqualified: true,
            error: Option::Some(timeout_text()),
            value: Option::None,
        },
    }
}

/// A well-formed result carries exactly one of a value and an error, and a
/// disqualified one carries precisely the synthesized timeout error.
pub open spec fn result_wf<T>(r: ResultModel<T>) -> bool {
    &&& (r.error is Some) != (r.value is Some)
    &&& r.disqualified ==> r.error == Option::Some(timeout_text())
}

/// Builds the synthesized error message for a disqualified racer.
fn timeout_message() -> (s: String)
    ensures
        s@ == timeout_text(),
{
    "Racer timed out".to_owned()
}

impl<T> RaceResult<T> {
    /// Turns one observed outcome into the record the ranking will store.
    pub fn from_outcome(name: String, duration_nanos: u64, outcome: RacerOutcome<T>) -> (r: Self)
        ensures
            r@ == result_model_of(name@, duration_nanos, outcome),
            result_wf(r@),
    {
        match outcome {
            RacerOutcome::Finished(res) => match res {
                Result::Ok(v) => RaceResult {
                    name,
                    duration_nanos,
                    disqualified: false,
                    error: Option::None,
                    value: Option::Some(v),
                },
                Result::Err(e) => RaceResult {
                    name,
                    duration_nanos,
                    disqualified: false,
                    error: Option::Some(e),
                    value: Option::None,
                },
            },
            RacerOutcome::TimedOut => RaceResult {
                name,
                duration_nanos,
                disqualified: true,
                error: Option::Some(timeout_message()),
                value: Option::None,
            },
        }
    }
}

/// Exclusivity: whatever a racer's outcome was, the record built from it
/// holds exactly one of a value and an error — never both, never neither.
pub proof fn lemma_outcome_exclusive<T>(
    name: Seq<char>,
    duration_nanos: u64,
    outcome: RacerOutcome<T>,
)
    ensures
        (result_model_of(name, duration_nanos, outcome).error is Some) != (result_model_of(
            name,
            duration_nanos,
            outcome,
        ).value is Some),
{
}

} // verus!
