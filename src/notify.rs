use vstd::prelude::*;

use crate::codec::{encode_members, encode_spec};
use crate::event::{EventView, Member, ProgressEvent, members_view};

verus! {

/// The notification channels of the consumer, by purpose.
#[derive(Clone, Copy, Debug, PartialEq, Eq, Structural)]
pub enum Channel {
    /// Incremental progress: album start, song start, song complete.
    Progress,
    /// The terminal summary of an album.
    Complete,
    /// A diagnostic raised by the worker.
    Error,
}

/// The channel on which an event is published.
pub open spec fn channel_of(e: EventView) -> Channel {
    match e {
        EventView::AlbumComplete { .. } => Channel::Complete,
        EventView::Error { .. } => Channel::Error,
        _ => Channel::Progress,
    }
}

pub open spec fn channel_name(c: Channel) -> Seq<char> {
    match c {
        Channel::Progress => "download-progress"@,
        Channel::Complete => "download-complete"@,
        Channel::Error => "download-error"@,
    }
}

impl Channel {
    /// The name under which the consumer listens on this channel.
    pub fn name(&self) -> (r: &'static str)
        ensures
            r@ == channel_name(*self),
    {
        match self {
            Channel::Progress => "download-progress",
            Channel::Complete => "download-complete",
            Channel::Error => "download-error",
        }
    }
}

/// One notification for the consumer: its channel, and the event's kind and
/// fields as members of an object.
#[derive(Debug)]
pub struct Notification {
    pub channel: Channel,
    pub members: Vec<Member>,
}

/// The notification that publishes an event.
pub fn notification(e: &ProgressEvent) -> (r: Notification)
    ensures
        r.channel == channel_of(e@),
        members_view(r.members@) == encode_spec(e@),
{
    let channel = match e {
        ProgressEvent::AlbumComplete { .. } => Channel::Complete,
        ProgressEvent::Error { .. } => Channel::Error,
        _ => Channel::Progress,
    };
    Notification { channel, members: encode_members(e) }
}

} // verus!
