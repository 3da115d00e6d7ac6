//! What became of the deliveries that were issued, and which of them count
//! as failures to report.

use vstd::prelude::*;

verus! {

/// How one delivery attempt ended.
#[derive(Debug, PartialEq, Eq)]
pub enum Outcome {
    /// The endpoint answered with this HTTP status code.
    Status(u16),
    /// No answer was had; the text says what went wrong on the way.
    TransportError(String),
}

/// The end of a delivery attempt as a mathematical value.
pub enum OutcomeView {
    Status(u16),
    TransportError(Seq<char>),
}

impl View for Outcome {
    type V = OutcomeView;

    open spec fn view(&self) -> OutcomeView {
        match self {
            Outcome::Status(code) => OutcomeView::Status(*code),
            Outcome::TransportError(text) => OutcomeView::TransportError(text@),
        }
    }
}

/// A delivery that has been attempted: where it went and how it ended.
#[derive(Debug, PartialEq, Eq)]
pub struct Attempt {
    pub url: String,
    pub outcome: Outcome,
}

/// An attempted delivery as a mathematical value.
pub struct AttemptView {
    pub url: Seq<char>,
    pub outcome: OutcomeView,
}

impl View for Attempt {
    type V = AttemptView;

    open spec fn view(&self) -> AttemptView {
        AttemptView { url: self.url@, outcome: self.outcome@ }
    }
}

/// The attempts of a list, each as a mathematical value.
pub open spec fn attempts_view(attempts: Seq<Attempt>) -> Seq<AttemptView> {
    attempts.map_values(|a: Attempt| a@)
}

/// Whether a status code tells of a client error (400 to 499) or of a
/// server error (500 to 599).
pub open spec fn is_error_status(code: u16) -> bool {
    400 <= code < 600
}

/// Whether an outcome is a failure: nothing came back, or what came back
/// tells of a client or server error.
pub open spec fn is_failed_outcome(outcome: OutcomeView) -> bool {
    match outcome {
        OutcomeView::Status(code) => is_error_status(code),
        OutcomeView::TransportError(_) => true,
    }
}

/// Whether an attempt failed.
pub open spec fn failed(attempt: AttemptView) -> bool {
    is_failed_outcome(attempt.outcome)
}

/// The failed attempts among `attempts`, in their order.
pub open spec fn failures_of(attempts: Seq<AttemptView>) -> Seq<AttemptView> {
    attempts.filter(|a: AttemptView| failed(a))
}

impl Outcome {
    /// Whether this outcome is a failure.
    pub fn is_failure(&self) -> (failure: bool)
        ensures
            failure == is_failed_outcome(self@),
    {
        match self {
            Outcome::Status(code) => 400 <= *code && *code < 600,
            Outcome::TransportError(_) => true,
        }
    }
}

/// A copy of `attempt`.
fn copy_of(attempt: &Attempt) -> (copy: Attempt)
    ensures
        copy@ == attempt@,
{
    let outcome = match &attempt.outcome {
        Outcome::Status(code) => Outcome::Status(*code),
        Outcome::TransportError(text) => Outcome::TransportError(text.clone()),
    };
    Attempt { url: attempt.url.clone(), outcome }
}

/// The failure entries of a batch of completed attempts: one entry for
/// every attempt that failed, in the order of the attempts, and none for an
/// attempt that succeeded. Nothing is tried again.
pub fn failures(attempts: &Vec<Attempt>) -> (entries: Vec<Attempt>)
    ensures
        attempts_view(entries@) == failures_of(attempts_view(attempts@)),
{
    let ghost all = attempts_view(attempts@);
    let mut entries: Vec<Attempt> = Vec::new();
    let mut i: usize = 0;
    proof {
        reveal(Seq::filter);
    }
    while i < attempts.len()
        invariant
            i <= attempts@.len(),
            all == attempts_view(attempts@),
            attempts_view(entries@) == failures_of(all.take(i as int)),
        decreases attempts@.len() - i,
    {
        let attempt = &attempts[i];
        proof {
            assert(all.take(i as int + 1) == all.take(i as int).push(all[i as int]));
            all.take(i as int).lemma_filter_push(all[i as int], |a: AttemptView| failed(a));
        }
        if attempt.outcome.is_failure() {
            let entry = copy_of(attempt);
            entries.push(entry);
        }
        i += 1;
    }
    proof {
        assert(all.take(i as int) == all);
    }
    entries
}

} // verus!
