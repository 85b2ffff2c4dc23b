use vstd::prelude::*;

verus! {

/// One progress report of the worker, decoded from a protocol line.
#[derive(Clone, Debug)]
pub enum ProgressEvent {
    AlbumStart { title: String, source: String, total: u64 },
    SongStart { index: u64, total: u64, title: String },
    SongComplete { index: u64, title: String, status: String, size: u64, message: String },
    AlbumComplete { success: u64, failed: u64, skipped: u64, total: u64 },
    Error { message: String },
}

/// The mathematical value of a `ProgressEvent`: its fields, with text as `Seq<char>`.
pub enum EventView {
    AlbumStart { title: Seq<char>, source: Seq<char>, total: u64 },
    SongStart { index: u64, total: u64, title: Seq<char> },
    SongComplete {
        index: u64,
        title: Seq<char>,
        status: Seq<char>,
        size: u64,
        message: Seq<char>,
    },
    AlbumComplete { success: u64, failed: u64, skipped: u64, total: u64 },
    Error { message: Seq<char> },
}

impl View for ProgressEvent {
    type V = EventView;

    open spec fn view(&self) -> EventView {
        match self {
            ProgressEvent::AlbumStart { title, source, total } => EventView::AlbumStart {
                title: title@,
                source: source@,
                total: *total,
            },
            ProgressEvent::SongStart { index, total, title } => EventView::SongStart {
                index: *index,
                total: *total,
                title: title@,
            },
            ProgressEvent::SongComplete { index, title, status, size, message } =>
                EventView::SongComplete {
                index: *index,
                title: title@,
                status: status@,
                size: *size,
                message: message@,
            },
            ProgressEvent::AlbumComplete { success, failed, skipped, total } =>
                EventView::AlbumComplete {
                success: *success,
                failed: *failed,
                skipped: *skipped,
                total: *total,
            },
            ProgressEvent::Error { message } => EventView::Error { message: message@ },
        }
    }
}

/// One member of a payload object, as the codec reads it: its key, its text if
/// the value is a string, and its count if the value is a whole number in `u64`.
#[derive(Clone, Debug)]
pub struct Member {
    pub key: String,
    pub text: Option<String>,
    pub count: Option<u64>,
}

/// The value of a `Member`: (key, text, count).
pub type MemberView = (Seq<char>, Option<Seq<char>>, Option<u64>);

pub open spec fn text_view(t: Option<String>) -> Option<Seq<char>> {
    match t {
        Some(s) => Some(s@),
        None => None,
    }
}

impl View for Member {
    type V = MemberView;

    open spec fn view(&self) -> MemberView {
        (self.key@, text_view(self.text), self.count)
    }
}

pub open spec fn members_view(ms: Seq<Member>) -> Seq<MemberView> {
    ms.map_values(|m: Member| m@)
}

impl Member {
    /// A member whose value is a string.
    pub fn text(key: &str, value: &str) -> (r: Member)
        ensures
            r@ == (key@, Some(value@), None::<u64>),
    {
        Member { key: key.to_string(), text: Some(value.to_string()), count: None }
    }

    /// A member whose value is a whole number.
    pub fn count(key: &str, value: u64) -> (r: Member)
        ensures
            r@ == (key@, None::<Seq<char>>, Some(value)),
    {
        Member { key: key.to_string(), text: None, count: Some(value) }
    }
}

/// The two output channels of the worker.
#[derive(Clone, Copy, Debug, PartialEq, Eq, Structural)]
pub enum Stream {
    Primary,
    Diagnostic,
}

} // verus!
