use vstd::prelude::*;

use crate::codec::{
    LineOutcome, LineOutcomeView, decode_payload_spec, decode_line,
    is_protocol_line, line_outcome, payload_of,
};
use crate::event::{EventView, ProgressEvent};

verus! {

/// The event that a line hands on to the aggregator, if any.
pub open spec fn line_event(line: Seq<char>) -> Option<EventView> {
    match line_outcome(line) {
        LineOutcomeView::Event(e) => Some(e),
        _ => None,
    }
}

/// The events that a channel's lines carry, in the order of the lines.
pub open spec fn events_of(lines: Seq<Seq<char>>) -> Seq<EventView>
    decreases lines.len(),
{
    if lines.len() == 0 {
        Seq::empty()
    } else {
        let rest = events_of(lines.drop_last());
        match line_event(lines.last()) {
            Some(e) => rest.push(e),
            None => rest,
        }
    }
}

/// The ordinary output among a channel's lines, each line followed by a newline.
pub open spec fn captured_of(lines: Seq<Seq<char>>) -> Seq<char>
    decreases lines.len(),
{
    if lines.len() == 0 {
        Seq::empty()
    } else {
        let rest = captured_of(lines.drop_last());
        if is_protocol_line(lines.last()) {
            rest
        } else {
            rest + lines.last() + seq!['\n']
        }
    }
}

/// Reads the lines of one output channel: forwards the events they carry and
/// keeps the ordinary output as text.
pub struct Drainer {
    pub captured: String,
    /// The lines read so far.
    pub lines: Ghost<Seq<Seq<char>>>,
}

impl Drainer {
    pub open spec fn wf(&self) -> bool {
        self.captured@ == captured_of(self.lines@)
    }

    pub fn new() -> (r: Drainer)
        ensures
            r.wf(),
            r.lines@ == Seq::<Seq<char>>::empty(),
    {
        Drainer { captured: String::new(), lines: Ghost(Seq::empty()) }
    }

    /// Takes one line of the channel and returns the event it carries, if any.
    /// Ordinary output is kept; a malformed protocol line is dropped.
    pub fn feed(&mut self, line: &str) -> (r: Option<ProgressEvent>)
        requires
            old(self).wf(),
        ensures
            final(self).wf(),
            final(self).lines@ == old(self).lines@.push(line@),
            match r {
                Some(e) => line_event(line@) == Some(e@),
                None => line_event(line@) is None,
            },
            events_of(final(self).lines@) == events_of(old(self).lines@) + match r {
                Some(e) => seq![e@],
                None => Seq::<EventView>::empty(),
            },
    {
        let ghost lines = self.lines@.push(line@);
        assert(lines.drop_last() =~= self.lines@);
        assert(lines.last() == line@);
        self.lines = Ghost(lines);
        proof {
            reveal_strlit("\n");
        }
        match decode_line(line) {
            LineOutcome::Event(e) => {
                assert(events_of(lines) =~= events_of(old(self).lines@) + seq![e@]);
                Some(e)
            },
            LineOutcome::Malformed(_) => {
                assert(events_of(lines) =~= events_of(old(self).lines@) + Seq::<EventView>::empty());
                None
            },
            LineOutcome::NotProtocol => {
                self.captured.append(line);
                self.captured.append("\n");
                assert(self.captured@ =~= captured_of(lines));
                assert(events_of(lines) =~= events_of(old(self).lines@) + Seq::<EventView>::empty());
                None
            },
        }
    }

    /// The ordinary output read so far.
    pub fn into_captured(self) -> (r: String)
        requires
            self.wf(),
        ensures
            r@ == captured_of(self.lines@),
    {
        self.captured
    }
}

/// The events of two runs of lines, one after the other, are the events of
/// each run in turn: a channel's events keep the order of its lines.
pub proof fn law_events_of_concat(a: Seq<Seq<char>>, b: Seq<Seq<char>>)
    ensures
        events_of(a + b) == events_of(a) + events_of(b),
    decreases b.len(),
{
    if b.len() == 0 {
        assert(a + b =~= a);
        assert(events_of(a) + events_of(b) =~= events_of(a));
    } else {
        law_events_of_concat(a, b.drop_last());
        assert((a + b).drop_last() =~= a + b.drop_last());
        assert((a + b).last() == b.last());
        match line_event(b.last()) {
            Some(e) => {
                assert(events_of(a) + events_of(b) =~= (events_of(a) + events_of(b.drop_last())).push(e));
            },
            None => {},
        }
    }
}

/// A line without the sentinel is ordinary output: it carries no event, and
/// the events of the lines around it are as if it were not there.
pub proof fn law_plain_line_is_discarded(
    before: Seq<Seq<char>>,
    line: Seq<char>,
    after: Seq<Seq<char>>,
)
    requires
        !is_protocol_line(line),
    ensures
        line_outcome(line) == LineOutcomeView::NotProtocol,
        events_of(before + seq![line] + after) == events_of(before + after),
{
    lemma_eventless_line_is_skipped(before, line, after);
}

/// A line with the sentinel whose payload does not decode is reported as
/// malformed; the lines around it keep their events, as if it were not there.
pub proof fn law_malformed_line_is_skipped(
    before: Seq<Seq<char>>,
    line: Seq<char>,
    after: Seq<Seq<char>>,
)
    requires
        is_protocol_line(line),
        decode_payload_spec(payload_of(line)) is Err,
    ensures
        line_outcome(line) == LineOutcomeView::Malformed(
            decode_payload_spec(payload_of(line))->Err_0,
        ),
        events_of(before + seq![line] + after) == events_of(before + after),
{
    lemma_eventless_line_is_skipped(before, line, after);
}

proof fn lemma_eventless_line_is_skipped(
    before: Seq<Seq<char>>,
    line: Seq<char>,
    after: Seq<Seq<char>>,
)
    requires
        line_event(line) is None,
    ensures
        events_of(before + seq![line] + after) == events_of(before + after),
{
    law_events_of_concat(before + seq![line], after);
    law_events_of_concat(before, seq![line]);
    law_events_of_concat(before, after);
    let one = seq![line];
    assert(one.drop_last() =~= Seq::<Seq<char>>::empty());
    assert(one.last() == line);
    assert(events_of(one.drop_last()) == Seq::<EventView>::empty());
    assert(events_of(one) =~= Seq::<EventView>::empty());
    assert(events_of(before) + events_of(one) =~= events_of(before));
}

} // verus!
