use vstd::prelude::*;

use crate::drainer::{captured_of, events_of};
use crate::aggregator::{Aggregator, is_interleaving, lemma_interleaving_len};
use crate::event::Stream;

verus! {

/// How one supervised run of the worker ended.
#[derive(Clone, Debug, PartialEq, Eq)]
pub enum SessionResult {
    /// The worker exited with status zero; the ordinary output of its primary channel.
    Completed(String),
    /// The worker failed: the ordinary output of its diagnostic channel, and
    /// its exit code where there is one (none where a signal ended it).
    Failed(String, Option<i32>),
}

pub enum SessionResultView {
    Completed(Seq<char>),
    Failed(Seq<char>, Option<i32>),
}

impl View for SessionResult {
    type V = SessionResultView;

    open spec fn view(&self) -> SessionResultView {
        match self {
            SessionResult::Completed(s) => SessionResultView::Completed(s@),
            SessionResult::Failed(s, c) => SessionResultView::Failed(s@, *c),
        }
    }
}

/// The outcome of a run, from its exit code and what its two channels captured.
pub open spec fn outcome(code: Option<i32>, primary: Seq<char>, diagnostic: Seq<char>) -> SessionResultView {
    if code == Some(0i32) {
        SessionResultView::Completed(primary)
    } else {
        SessionResultView::Failed(diagnostic, code)
    }
}

/// The state of one supervised run: which drainers have reached the end of
/// their channel, with what they captured, and whether the process has exited.
pub struct Session {
    pub primary: Option<String>,
    pub diagnostic: Option<String>,
    /// The exit code, once the process has exited.
    pub exit: Option<Option<i32>>,
}

impl Session {
    /// Both drainers are done and the process has exited.
    pub open spec fn is_done(&self) -> bool {
        self.primary is Some && self.diagnostic is Some && self.exit is Some
    }

    pub fn new() -> (r: Session)
        ensures
            r.primary is None,
            r.diagnostic is None,
            r.exit is None,
    {
        Session { primary: None, diagnostic: None, exit: None }
    }

    /// The drainer of `stream` has reached the end of its channel, having
    /// captured `captured`. A second report for the same channel is ignored.
    pub fn drainer_finished(&mut self, stream: Stream, captured: String)
        ensures
            final(self).exit == old(self).exit,
            final(self).primary == if stream == Stream::Primary && old(self).primary is None {
                Some(captured)
            } else {
                old(self).primary
            },
            final(self).diagnostic == if stream == Stream::Diagnostic && old(self).diagnostic is None {
                Some(captured)
            } else {
                old(self).diagnostic
            },
    {
        match stream {
            Stream::Primary => {
                if self.primary.is_none() {
                    self.primary = Some(captured);
                }
            },
            Stream::Diagnostic => {
                if self.diagnostic.is_none() {
                    self.diagnostic = Some(captured);
                }
            },
        }
    }

    /// The process has exited with `code`. A second report is ignored.
    pub fn process_exited(&mut self, code: Option<i32>)
        ensures
            final(self).primary == old(self).primary,
            final(self).diagnostic == old(self).diagnostic,
            final(self).exit == if old(self).exit is None {
                Some(code)
            } else {
                old(self).exit
            },
    {
        if self.exit.is_none() {
            self.exit = Some(code);
        }
    }

    /// The outcome of the run: there is one only once both drainers are done
    /// and the process has exited.
    pub fn result(&self) -> (r: Option<SessionResult>)
        ensures
            r is Some == self.is_done(),
            r is Some ==> r->Some_0@ == outcome(
                self.exit->Some_0,
                self.primary->Some_0@,
                self.diagnostic->Some_0@,
            ),
    {
        match (&self.primary, &self.diagnostic, self.exit) {
            (Some(p), Some(d), Some(code)) => {
                match code {
                    Some(0i32) => Some(SessionResult::Completed(p.clone())),
                    _ => Some(SessionResult::Failed(d.clone(), code)),
                }
            },
            _ => None,
        }
    }
}

/// A worker that exits with a nonzero code fails with that code, whatever
/// lines it wrote on its channels, progress lines included.
pub proof fn law_nonzero_exit_fails(code: i32, primary: Seq<Seq<char>>, diagnostic: Seq<Seq<char>>)
    requires
        code != 0,
    ensures
        outcome(Some(code), captured_of(primary), captured_of(diagnostic))
            == SessionResultView::Failed(captured_of(diagnostic), Some(code)),
{
}

/// Once both drainers have published what their channels' lines carry and the
/// consumer has been handed everything published (the aggregator reports
/// exhaustion only then), the consumer has seen each channel's events in that
/// channel's order, and exactly as many events as those lines carry.
pub proof fn law_every_event_delivered(
    agg: Aggregator,
    primary: Seq<Seq<char>>,
    diagnostic: Seq<Seq<char>>,
)
    requires
        agg.wf(),
        agg.published_by(Stream::Primary) == events_of(primary),
        agg.published_by(Stream::Diagnostic) == events_of(diagnostic),
        agg.delivered@ == agg.published@,
    ensures
        is_interleaving(agg.delivered@, events_of(primary), events_of(diagnostic)),
        agg.delivered@.len() == events_of(primary).len() + events_of(diagnostic).len(),
{
    lemma_interleaving_len(agg.delivered@, events_of(primary), events_of(diagnostic));
}

} // verus!
