use vstd::prelude::*;

use std::collections::VecDeque;

use crate::event::{EventView, ProgressEvent, Stream};

verus! {

/// What the consumer gets when it asks the aggregator for the next event.
#[derive(Debug)]
pub enum Delivery {
    /// The oldest event not yet delivered.
    Event(ProgressEvent),
    /// Nothing is queued, but a producer is still live: wait for it.
    Wait,
    /// Nothing is queued and both producers have finished.
    Exhausted,
}

pub open spec fn events_view(q: Seq<ProgressEvent>) -> Seq<EventView> {
    q.map_values(|e: ProgressEvent| e@)
}

/// `s` holds the events of `a` and of `b`, each in its own order, and nothing else.
pub open spec fn is_interleaving(s: Seq<EventView>, a: Seq<EventView>, b: Seq<EventView>) -> bool
    decreases s.len(),
{
    if s.len() == 0 {
        a.len() == 0 && b.len() == 0
    } else {
        ||| a.len() > 0 && s[0] == a[0] && is_interleaving(s.drop_first(), a.drop_first(), b)
        ||| b.len() > 0 && s[0] == b[0] && is_interleaving(s.drop_first(), a, b.drop_first())
    }
}

/// An interleaving of two sequences is as long as both together.
pub proof fn lemma_interleaving_len(s: Seq<EventView>, a: Seq<EventView>, b: Seq<EventView>)
    requires
        is_interleaving(s, a, b),
    ensures
        s.len() == a.len() + b.len(),
    decreases s.len(),
{
    if s.len() > 0 {
        if a.len() > 0 && s[0] == a[0] && is_interleaving(s.drop_first(), a.drop_first(), b) {
            lemma_interleaving_len(s.drop_first(), a.drop_first(), b);
        } else {
            lemma_interleaving_len(s.drop_first(), a, b.drop_first());
        }
    }
}

proof fn lemma_interleaving_push(
    s: Seq<EventView>,
    a: Seq<EventView>,
    b: Seq<EventView>,
    x: EventView,
)
    requires
        is_interleaving(s, a, b),
    ensures
        is_interleaving(s.push(x), a.push(x), b),
        is_interleaving(s.push(x), a, b.push(x)),
    decreases s.len(),
{
    let s2 = s.push(x);
    assert(s2[0] == if s.len() == 0 { x } else { s[0] });
    assert(s2.drop_first() =~= if s.len() == 0 { s } else { s.drop_first().push(x) });
    if s.len() == 0 {
        assert(a.push(x).drop_first() =~= a);
        assert(b.push(x).drop_first() =~= b);
    } else {
        if a.len() > 0 && s[0] == a[0] && is_interleaving(s.drop_first(), a.drop_first(), b) {
            lemma_interleaving_push(s.drop_first(), a.drop_first(), b, x);
            assert(a.push(x).drop_first() =~= a.drop_first().push(x));
        } else {
            lemma_interleaving_push(s.drop_first(), a, b.drop_first(), x);
            assert(b.push(x).drop_first() =~= b.drop_first().push(x));
        }
    }
}

/// The conduit from the two drainers of a session to its one consumer: events
/// leave in the order in which they arrived.
pub struct Aggregator {
    pub queue: VecDeque<ProgressEvent>,
    pub primary_live: bool,
    pub diagnostic_live: bool,
    /// Every event published so far, in order of arrival.
    pub published: Ghost<Seq<EventView>>,
    /// The events published by the drainer of each channel.
    pub from_primary: Ghost<Seq<EventView>>,
    pub from_diagnostic: Ghost<Seq<EventView>>,
    /// Every event handed to the consumer so far, in order.
    pub delivered: Ghost<Seq<EventView>>,
}

impl Aggregator {
    /// The queued events are those published and not yet delivered, and the
    /// arrivals interleave what each drainer published.
    pub open spec fn wf(&self) -> bool {
        &&& self.published@ == self.delivered@ + events_view(self.queue@)
        &&& is_interleaving(self.published@, self.from_primary@, self.from_diagnostic@)
    }

    /// The events queued for the consumer.
    pub open spec fn pending(&self) -> Seq<EventView> {
        events_view(self.queue@)
    }

    pub open spec fn is_live(&self, s: Stream) -> bool {
        match s {
            Stream::Primary => self.primary_live,
            Stream::Diagnostic => self.diagnostic_live,
        }
    }

    /// Whether the drainer of `s` may still publish.
    pub fn live(&self, s: Stream) -> (r: bool)
        ensures
            r == self.is_live(s),
    {
        match s {
            Stream::Primary => self.primary_live,
            Stream::Diagnostic => self.diagnostic_live,
        }
    }

    /// The events that the drainer of a channel has published.
    pub open spec fn published_by(&self, s: Stream) -> Seq<EventView> {
        match s {
            Stream::Primary => self.from_primary@,
            Stream::Diagnostic => self.from_diagnostic@,
        }
    }

    /// An aggregator whose two producers are live.
    pub fn new() -> (r: Aggregator)
        ensures
            r.wf(),
            r.primary_live && r.diagnostic_live,
            r.published@ == Seq::<EventView>::empty(),
            r.from_primary@ == Seq::<EventView>::empty(),
            r.from_diagnostic@ == Seq::<EventView>::empty(),
            r.delivered@ == Seq::<EventView>::empty(),
    {
        let r = Aggregator {
            queue: VecDeque::new(),
            primary_live: true,
            diagnostic_live: true,
            published: Ghost(Seq::empty()),
            from_primary: Ghost(Seq::empty()),
            from_diagnostic: Ghost(Seq::empty()),
            delivered: Ghost(Seq::empty()),
        };
        assert(r.delivered@ + events_view(r.queue@) =~= Seq::<EventView>::empty());
        r
    }

    /// The live drainer of `from` hands in an event.
    pub fn publish(&mut self, from: Stream, e: ProgressEvent)
        requires
            old(self).wf(),
            old(self).is_live(from),
        ensures
            final(self).wf(),
            final(self).primary_live == old(self).primary_live,
            final(self).diagnostic_live == old(self).diagnostic_live,
            final(self).published@ == old(self).published@.push(e@),
            final(self).published_by(from) == old(self).published_by(from).push(e@),
            from == Stream::Primary ==> final(self).from_diagnostic == old(self).from_diagnostic,
            from == Stream::Diagnostic ==> final(self).from_primary == old(self).from_primary,
            final(self).delivered@ == old(self).delivered@,
            final(self).pending() == old(self).pending().push(e@),
    {
        let ghost ev = e@;
        proof {
            lemma_interleaving_push(self.published@, self.from_primary@, self.from_diagnostic@, ev);
        }
        self.queue.push_back(e);
        self.published = Ghost(self.published@.push(ev));
        match from {
            Stream::Primary => {
                self.from_primary = Ghost(self.from_primary@.push(ev));
            },
            Stream::Diagnostic => {
                self.from_diagnostic = Ghost(self.from_diagnostic@.push(ev));
            },
        }
        assert(events_view(self.queue@) =~= events_view(old(self).queue@).push(ev));
        assert(self.published@ =~= self.delivered@ + events_view(self.queue@));
    }

    /// The drainer of `s` has finished: it publishes nothing more.
    pub fn producer_finished(&mut self, s: Stream)
        requires
            old(self).wf(),
        ensures
            final(self).wf(),
            !final(self).is_live(s),
            s == Stream::Primary ==> final(self).diagnostic_live == old(self).diagnostic_live,
            s == Stream::Diagnostic ==> final(self).primary_live == old(self).primary_live,
            final(self).published@ == old(self).published@,
            final(self).from_primary == old(self).from_primary,
            final(self).from_diagnostic == old(self).from_diagnostic,
            final(self).delivered@ == old(self).delivered@,
            final(self).pending() == old(self).pending(),
    {
        match s {
            Stream::Primary => {
                self.primary_live = false;
            },
            Stream::Diagnostic => {
                self.diagnostic_live = false;
            },
        }
    }

    /// Hands the consumer the oldest queued event; or says that it must wait,
    /// or that no event will come any more.
    pub fn next(&mut self) -> (r: Delivery)
        requires
            old(self).wf(),
        ensures
            final(self).wf(),
            final(self).primary_live == old(self).primary_live,
            final(self).diagnostic_live == old(self).diagnostic_live,
            final(self).published@ == old(self).published@,
            final(self).from_primary == old(self).from_primary,
            final(self).from_diagnostic == old(self).from_diagnostic,
            match r {
                Delivery::Event(e) => {
                    &&& old(self).pending().len() > 0
                    &&& e@ == old(self).pending()[0]
                    &&& final(self).delivered@ == old(self).delivered@.push(e@)
                    &&& final(self).pending() == old(self).pending().drop_first()
                },
                Delivery::Wait => {
                    &&& old(self).pending().len() == 0
                    &&& (old(self).primary_live || old(self).diagnostic_live)
                    &&& final(self).delivered@ == old(self).delivered@
                },
                Delivery::Exhausted => {
                    &&& old(self).pending().len() == 0
                    &&& !old(self).primary_live && !old(self).diagnostic_live
                    &&& final(self).delivered@ == old(self).published@
                    &&& is_interleaving(
                        final(self).delivered@,
                        final(self).from_primary@,
                        final(self).from_diagnostic@,
                    )
                },
            },
    {
        match self.queue.pop_front() {
            Some(e) => {
                let ghost ev = e@;
                self.delivered = Ghost(self.delivered@.push(ev));
                assert(events_view(self.queue@) =~= events_view(old(self).queue@).drop_first());
                assert(self.published@ =~= self.delivered@ + events_view(self.queue@));
                Delivery::Event(e)
            },
            None => {
                assert(self.published@ =~= self.delivered@ + events_view(self.queue@));
                assert(self.published@ =~= self.delivered@);
                if self.primary_live || self.diagnostic_live {
                    Delivery::Wait
                } else {
                    Delivery::Exhausted
                }
            },
        }
    }
}

} // verus!
