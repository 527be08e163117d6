use vstd::prelude::*;
use vstd::string::StringExecFns;

use crate::text::decimal_spec;
use crate::text::usize_to_decimal;

verus! {

/// The mathematical content of one task's completion message: the index of
/// the record it answers for, and the failure cause if there was one.
pub struct OutcomeModel {
    pub id: nat,
    pub failure: Option<Seq<char>>,
}

/// The single message a fetch task sends on completion, correlating the
/// task's result with the record it was launched for.
pub struct ThreadMessage {
    pub id: usize,
    pub message: Option<&'static str>,
}

impl View for ThreadMessage {
    type V = OutcomeModel;

    open spec fn view(&self) -> OutcomeModel {
        OutcomeModel {
            id: self.id as nat,
            failure: match self.message {
                Some(cause) => Some(cause@),
                None => None,
            },
        }
    }
}

impl ThreadMessage {
    /// A completion message reporting success for the record at `id`.
    pub fn no_error(id: usize) -> (m: ThreadMessage)
        ensures
            m@ == (OutcomeModel { id: id as nat, failure: None::<Seq<char>> }),
    {
        ThreadMessage { id, message: None }
    }

    /// A completion message reporting failure of the record at `id`, with a
    /// human-readable cause.
    pub fn error(id: usize, message: &'static str) -> (m: ThreadMessage)
        ensures
            m@ == (OutcomeModel { id: id as nat, failure: Some(message@) }),
    {
        ThreadMessage { id, message: Some(message) }
    }
}

/// The models of a sequence of completion messages.
pub open spec fn outcomes_model(messages: Seq<ThreadMessage>) -> Seq<OutcomeModel> {
    messages.map_values(|m: ThreadMessage| m@)
}

/// The line the error log gains for one outcome: nothing for a success,
/// a line `<index>: <cause>` of its own for a failure.
pub open spec fn log_entry_spec(outcome: OutcomeModel) -> Seq<char> {
    match outcome.failure {
        Some(cause) => "\n"@ + decimal_spec(outcome.id) + ": "@ + cause,
        None => Seq::<char>::empty(),
    }
}

/// The accumulated error log of a run: the log entries of the outcomes in
/// arrival order.
pub open spec fn error_log_spec(outcomes: Seq<OutcomeModel>) -> Seq<char>
    decreases outcomes.len(),
{
    if outcomes.len() == 0 {
        Seq::<char>::empty()
    } else {
        error_log_spec(outcomes.drop_last()) + log_entry_spec(outcomes.last())
    }
}

/// How many of the outcomes report a failure.
pub open spec fn error_count_spec(outcomes: Seq<OutcomeModel>) -> nat
    decreases outcomes.len(),
{
    if outcomes.len() == 0 {
        0
    } else {
        error_count_spec(outcomes.drop_last()) + if outcomes.last().failure is Some {
            1nat
        } else {
            0nat
        }
    }
}

/// The final summary of one run: how many tasks failed, and the error log
/// naming each failed record index with its cause.
pub struct ConsolidatedReport {
    pub error_count: usize,
    pub error_log: String,
}

impl ConsolidatedReport {
    /// Whether the run completed with zero errors.
    pub fn is_clean(&self) -> (r: bool)
        ensures
            r == (self.error_count == 0),
    {
        self.error_count == 0
    }
}

/// Consolidate the completion messages of one run, in arrival order, into
/// the final report: the number of failed tasks and the accumulated error
/// log. Every drained outcome is counted exactly once; the error count
/// equals the number of non-success outcomes.
pub fn consolidate(messages: &Vec<ThreadMessage>) -> (r: ConsolidatedReport)
    ensures
        r.error_count as nat == error_count_spec(outcomes_model(messages@)),
        r.error_log@ == error_log_spec(outcomes_model(messages@)),
        r.error_count <= messages@.len(),
{
    let mut count: usize = 0;
    let mut log = String::new();
    let mut i: usize = 0;
    while i < messages.len()
        invariant
            i <= messages@.len(),
            count <= i,
            count as nat == error_count_spec(outcomes_model(messages@.take(i as int))),
            log@ == error_log_spec(outcomes_model(messages@.take(i as int))),
        decreases messages@.len() - i,
    {
        let ghost log_before = log@;
        let message = &messages[i];
        match message.message {
            Some(cause) => {
                count = count + 1;
                log.append("\n");
                let numeral = usize_to_decimal(message.id);
                log.append(numeral.as_str());
                log.append(": ");
                log.append(cause);
            },
            None => {},
        }
        proof {
            let pre = outcomes_model(messages@.take(i as int));
            let post = outcomes_model(messages@.take(i + 1));
            assert(post.drop_last() =~= pre);
            assert(post.last() == messages@[i as int]@);
            assert(log@ =~= log_before + log_entry_spec(messages@[i as int]@));
        }
        i = i + 1;
    }
    proof {
        assert(messages@.take(messages@.len() as int) =~= messages@);
    }
    ConsolidatedReport { error_count: count, error_log: log }
}

} // verus!
