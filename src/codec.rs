use vstd::prelude::*;

use crate::event::{EventView, Member, MemberView, ProgressEvent, members_view};

verus! {

/// Why a protocol line could not be decoded.
#[derive(Clone, Copy, Debug, PartialEq, Eq, Structural)]
pub enum DecodeError {
    /// The payload is not a well-formed JSON document.
    Unparsable,
    /// The payload has no `type` member whose value is a string.
    MissingType,
    /// The `type` member names no known event kind.
    UnknownType,
}

/// What a payload's object holds, member by member, as read by
/// `serde_json::from_str`: `None` where the text is not well-formed JSON.
pub uninterp spec fn payload_members(text: Seq<char>) -> Option<
    Seq<(Seq<char>, Option<Seq<char>>, Option<u64>)>,
>;

/// Relies on `serde_json::from_str` to parse the payload into a
/// `serde_json::Value`; the members of an object (`Value::as_object`) are then
/// read with `Value::as_str` and `Value::as_u64`, and a document that is not an object
/// has no members.
#[verifier::external_body]
fn parse_members(text: &str) -> (r: Option<Vec<Member>>)
    ensures
        match r {
            Some(ms) => payload_members(text@) == Some(members_view(ms@)),
            None => payload_members(text@) is None,
        },
{
    let value: serde_json::Value = serde_json::from_str(text).ok()?;
    let mut members = Vec::new();
    if let Some(object) = value.as_object() {
        for (key, v) in object {
            members.push(Member { key: key.clone(), text: v.as_str().map(String::from), count: v.as_u64() });
        }
    }
    Some(members)
}

/// The first member with the given key.
pub open spec fn lookup(ms: Seq<MemberView>, key: Seq<char>) -> Option<MemberView>
    decreases ms.len(),
{
    if ms.len() == 0 {
        None
    } else if ms[0].0 == key {
        Some(ms[0])
    } else {
        lookup(ms.drop_first(), key)
    }
}

/// The text under `key`, or the empty text where it is missing or not a string.
pub open spec fn text_of(ms: Seq<MemberView>, key: Seq<char>) -> Seq<char> {
    match lookup(ms, key) {
        Some(m) => match m.1 {
            Some(t) => t,
            None => Seq::empty(),
        },
        None => Seq::empty(),
    }
}

/// The count under `key`, or zero where it is missing or not a whole number.
pub open spec fn count_of(ms: Seq<MemberView>, key: Seq<char>) -> u64 {
    match lookup(ms, key) {
        Some(m) => match m.2 {
            Some(n) => n,
            None => 0,
        },
        None => 0,
    }
}

/// The event kind that the `type` member names, if it is a string.
pub open spec fn type_of(ms: Seq<MemberView>) -> Option<Seq<char>> {
    match lookup(ms, "type"@) {
        Some(m) => m.1,
        None => None,
    }
}

/// The event that a payload's members describe.
pub open spec fn decode_spec(ms: Seq<MemberView>) -> Result<EventView, DecodeError> {
    match type_of(ms) {
        None => Err(DecodeError::MissingType),
        Some(tag) => if tag == "album_start"@ {
            Ok(
                EventView::AlbumStart {
                    title: text_of(ms, "title"@),
                    source: text_of(ms, "source"@),
                    total: count_of(ms, "total"@),
                },
            )
        } else if tag == "song_start"@ {
            Ok(
                EventView::SongStart {
                    index: count_of(ms, "index"@),
                    total: count_of(ms, "total"@),
                    title: text_of(ms, "title"@),
                },
            )
        } else if tag == "song_complete"@ {
            Ok(
                EventView::SongComplete {
                    index: count_of(ms, "index"@),
                    title: text_of(ms, "title"@),
                    status: text_of(ms, "status"@),
                    size: count_of(ms, "size"@),
                    message: text_of(ms, "message"@),
                },
            )
        } else if tag == "album_complete"@ {
            Ok(
                EventView::AlbumComplete {
                    success: count_of(ms, "success"@),
                    failed: count_of(ms, "failed"@),
                    skipped: count_of(ms, "skipped"@),
                    total: count_of(ms, "total"@),
                },
            )
        } else if tag == "error"@ {
            Ok(EventView::Error { message: text_of(ms, "message"@) })
        } else {
            Err(DecodeError::UnknownType)
        },
    }
}

/// The event that a payload text describes.
pub open spec fn decode_payload_spec(text: Seq<char>) -> Result<EventView, DecodeError> {
    match payload_members(text) {
        None => Err(DecodeError::Unparsable),
        Some(ms) => decode_spec(ms),
    }
}

pub open spec fn result_view(r: Result<ProgressEvent, DecodeError>) -> Result<
    EventView,
    DecodeError,
> {
    match r {
        Ok(e) => Ok(e@),
        Err(x) => Err(x),
    }
}

/// Position of the first member with the given key.
fn find_member(ms: &Vec<Member>, key: &String) -> (r: Option<usize>)
    ensures
        match r {
            Some(i) => i < ms@.len() && lookup(members_view(ms@), key@) == Some(ms@[i as int]@),
            None => lookup(members_view(ms@), key@) is None,
        },
{
    let ghost all = members_view(ms@);
    assert(all.subrange(0, all.len() as int) =~= all);
    let mut i: usize = 0;
    while i < ms.len()
        invariant
            i <= ms@.len(),
            all == members_view(ms@),
            lookup(all, key@) == lookup(all.subrange(i as int, all.len() as int), key@),
        decreases ms@.len() - i,
    {
        let ghost rest = all.subrange(i as int, all.len() as int);
        assert(rest[0] == ms@[i as int]@);
        if ms[i].key == *key {
            return Some(i);
        }
        assert(rest.drop_first() =~= all.subrange(i + 1, all.len() as int));
        i = i + 1;
    }
    None
}

/// The text under `key`, or the empty text.
fn text_field(ms: &Vec<Member>, key: &str) -> (r: String)
    ensures
        r@ == text_of(members_view(ms@), key@),
{
    let k = key.to_string();
    match find_member(ms, &k) {
        Some(i) => match &ms[i].text {
            Some(t) => t.clone(),
            None => String::new(),
        },
        None => String::new(),
    }
}

/// The count under `key`, or zero.
fn count_field(ms: &Vec<Member>, key: &str) -> (r: u64)
    ensures
        r == count_of(members_view(ms@), key@),
{
    let k = key.to_string();
    match find_member(ms, &k) {
        Some(i) => match ms[i].count {
            Some(n) => n,
            None => 0,
        },
        None => 0,
    }
}

/// Decodes the members of a payload object into an event.
pub fn decode_members(ms: &Vec<Member>) -> (r: Result<ProgressEvent, DecodeError>)
    ensures
        result_view(r) == decode_spec(members_view(ms@)),
{
    let type_key = "type".to_string();
    let tag = match find_member(ms, &type_key) {
        Some(i) => match &ms[i].text {
            Some(t) => t.clone(),
            None => {
                return Err(DecodeError::MissingType);
            },
        },
        None => {
            return Err(DecodeError::MissingType);
        },
    };
    if tag == "album_start".to_string() {
        Ok(
            ProgressEvent::AlbumStart {
                title: text_field(ms, "title"),
                source: text_field(ms, "source"),
                total: count_field(ms, "total"),
            },
        )
    } else if tag == "song_start".to_string() {
        Ok(
            ProgressEvent::SongStart {
                index: count_field(ms, "index"),
                total: count_field(ms, "total"),
                title: text_field(ms, "title"),
            },
        )
    } else if tag == "song_complete".to_string() {
        Ok(
            ProgressEvent::SongComplete {
                index: count_field(ms, "index"),
                title: text_field(ms, "title"),
                status: text_field(ms, "status"),
                size: count_field(ms, "size"),
                message: text_field(ms, "message"),
            },
        )
    } else if tag == "album_complete".to_string() {
        Ok(
            ProgressEvent::AlbumComplete {
                success: count_field(ms, "success"),
                failed: count_field(ms, "failed"),
                skipped: count_field(ms, "skipped"),
                total: count_field(ms, "total"),
            },
        )
    } else if tag == "error".to_string() {
        Ok(ProgressEvent::Error { message: text_field(ms, "message") })
    } else {
        Err(DecodeError::UnknownType)
    }
}

/// Decodes a payload text (the part of a protocol line after the sentinel).
pub fn decode_payload(text: &str) -> (r: Result<ProgressEvent, DecodeError>)
    ensures
        result_view(r) == decode_payload_spec(text@),
{
    match parse_members(text) {
        Some(ms) => decode_members(&ms),
        None => Err(DecodeError::Unparsable),
    }
}

/// The fixed text that opens every protocol line.
pub open spec fn sentinel() -> Seq<char> {
    seq!['>', '>', '>', 'P', 'R', 'O', 'G', 'R', 'E', 'S', 'S', ':']
}

/// A line is a protocol line iff it begins with the sentinel.
pub open spec fn is_protocol_line(line: Seq<char>) -> bool {
    line.len() >= sentinel().len() && line.subrange(0, sentinel().len() as int) == sentinel()
}

/// The payload of a protocol line: what follows the sentinel.
pub open spec fn payload_of(line: Seq<char>) -> Seq<char> {
    line.subrange(sentinel().len() as int, line.len() as int)
}

/// What the codec makes of one output line.
#[derive(Debug)]
pub enum LineOutcome {
    /// Ordinary worker output, without the sentinel.
    NotProtocol,
    /// A protocol line whose payload could not be decoded.
    Malformed(DecodeError),
    /// A protocol line and the event it carries.
    Event(ProgressEvent),
}

pub enum LineOutcomeView {
    NotProtocol,
    Malformed(DecodeError),
    Event(EventView),
}

impl View for LineOutcome {
    type V = LineOutcomeView;

    open spec fn view(&self) -> LineOutcomeView {
        match self {
            LineOutcome::NotProtocol => LineOutcomeView::NotProtocol,
            LineOutcome::Malformed(x) => LineOutcomeView::Malformed(*x),
            LineOutcome::Event(e) => LineOutcomeView::Event(e@),
        }
    }
}

/// What one output line decodes to.
pub open spec fn line_outcome(line: Seq<char>) -> LineOutcomeView {
    if !is_protocol_line(line) {
        LineOutcomeView::NotProtocol
    } else {
        match decode_payload_spec(payload_of(line)) {
            Ok(e) => LineOutcomeView::Event(e),
            Err(x) => LineOutcomeView::Malformed(x),
        }
    }
}

fn sentinel_char(i: usize) -> (c: char)
    requires
        i < 12,
    ensures
        c == sentinel()[i as int],
{
    match i {
        0 | 1 | 2 => '>',
        3 => 'P',
        4 | 7 => 'R',
        5 => 'O',
        6 => 'G',
        8 => 'E',
        9 | 10 => 'S',
        _ => ':',
    }
}

/// Whether the line begins with the sentinel.
fn has_sentinel(line: &str) -> (r: bool)
    ensures
        r == is_protocol_line(line@),
{
    let n = line.unicode_len();
    if n < 12 {
        return false;
    }
    let mut i: usize = 0;
    while i < 12
        invariant
            i <= 12,
            n == line@.len(),
            n >= 12,
            forall|j: int| 0 <= j < i ==> line@[j] == sentinel()[j],
        decreases 12 - i,
    {
        if line.get_char(i) != sentinel_char(i) {
            return false;
        }
        i = i + 1;
    }
    assert(line@.subrange(0, 12) =~= sentinel());
    true
}

/// Decodes one output line: ordinary output, a malformed protocol line, or an event.
pub fn decode_line(line: &str) -> (r: LineOutcome)
    ensures
        r@ == line_outcome(line@),
{
    if !has_sentinel(line) {
        return LineOutcome::NotProtocol;
    }
    let n = line.unicode_len();
    let payload = line.substring_char(12, n);
    match decode_payload(payload) {
        Ok(e) => LineOutcome::Event(e),
        Err(x) => LineOutcome::Malformed(x),
    }
}

pub open spec fn text_member(key: Seq<char>, value: Seq<char>) -> MemberView {
    (key, Some(value), None)
}

pub open spec fn count_member(key: Seq<char>, value: u64) -> MemberView {
    (key, None, Some(value))
}

/// The members that carry an event: its kind under `type`, then its fields.
pub open spec fn encode_spec(e: EventView) -> Seq<MemberView> {
    match e {
        EventView::AlbumStart { title, source, total } => seq![
            text_member("type"@, "album_start"@),
            text_member("title"@, title),
            text_member("source"@, source),
            count_member("total"@, total),
        ],
        EventView::SongStart { index, total, title } => seq![
            text_member("type"@, "song_start"@),
            count_member("index"@, index),
            count_member("total"@, total),
            text_member("title"@, title),
        ],
        EventView::SongComplete { index, title, status, size, message } => seq![
            text_member("type"@, "song_complete"@),
            count_member("index"@, index),
            text_member("title"@, title),
            text_member("status"@, status),
            count_member("size"@, size),
            text_member("message"@, message),
        ],
        EventView::AlbumComplete { success, failed, skipped, total } => seq![
            text_member("type"@, "album_complete"@),
            count_member("success"@, success),
            count_member("failed"@, failed),
            count_member("skipped"@, skipped),
            count_member("total"@, total),
        ],
        EventView::Error { message } => seq![
            text_member("type"@, "error"@),
            text_member("message"@, message),
        ],
    }
}

/// Encodes an event as the members of a payload object: its kind under
/// `type`, then each of its fields.
pub fn encode_members(e: &ProgressEvent) -> (r: Vec<Member>)
    ensures
        members_view(r@) == encode_spec(e@),
{
    let mut r: Vec<Member> = Vec::new();
    match e {
        ProgressEvent::AlbumStart { title, source, total } => {
            r.push(Member::text("type", "album_start"));
            r.push(Member::text("title", title.as_str()));
            r.push(Member::text("source", source.as_str()));
            r.push(Member::count("total", *total));
        },
        ProgressEvent::SongStart { index, total, title } => {
            r.push(Member::text("type", "song_start"));
            r.push(Member::count("index", *index));
            r.push(Member::count("total", *total));
            r.push(Member::text("title", title.as_str()));
        },
        ProgressEvent::SongComplete { index, title, status, size, message } => {
            r.push(Member::text("type", "song_complete"));
            r.push(Member::count("index", *index));
            r.push(Member::text("title", title.as_str()));
            r.push(Member::text("status", status.as_str()));
            r.push(Member::count("size", *size));
            r.push(Member::text("message", message.as_str()));
        },
        ProgressEvent::AlbumComplete { success, failed, skipped, total } => {
            r.push(Member::text("type", "album_complete"));
            r.push(Member::count("success", *success));
            r.push(Member::count("failed", *failed));
            r.push(Member::count("skipped", *skipped));
            r.push(Member::count("total", *total));
        },
        ProgressEvent::Error { message } => {
            r.push(Member::text("type", "error"));
            r.push(Member::text("message", message.as_str()));
        },
    }
    assert(members_view(r@) =~= encode_spec(e@));
    r
}

/// The field names and kind names of the protocol, spelled out.
proof fn lemma_protocol_words()
    ensures
        "type"@ =~= seq!['t', 'y', 'p', 'e'],
        "title"@ =~= seq!['t', 'i', 't', 'l', 'e'],
        "source"@ =~= seq!['s', 'o', 'u', 'r', 'c', 'e'],
        "total"@ =~= seq!['t', 'o', 't', 'a', 'l'],
        "index"@ =~= seq!['i', 'n', 'd', 'e', 'x'],
        "status"@ =~= seq!['s', 't', 'a', 't', 'u', 's'],
        "size"@ =~= seq!['s', 'i', 'z', 'e'],
        "message"@ =~= seq!['m', 'e', 's', 's', 'a', 'g', 'e'],
        "success"@ =~= seq!['s', 'u', 'c', 'c', 'e', 's', 's'],
        "failed"@ =~= seq!['f', 'a', 'i', 'l', 'e', 'd'],
        "skipped"@ =~= seq!['s', 'k', 'i', 'p', 'p', 'e', 'd'],
        "album_start"@ =~= seq!['a', 'l', 'b', 'u', 'm', '_', 's', 't', 'a', 'r', 't'],
        "song_start"@ =~= seq!['s', 'o', 'n', 'g', '_', 's', 't', 'a', 'r', 't'],
        "song_complete"@ =~= seq![
            's', 'o', 'n', 'g', '_', 'c', 'o', 'm', 'p', 'l', 'e', 't', 'e'
        ],
        "album_complete"@ =~= seq![
            'a', 'l', 'b', 'u', 'm', '_', 'c', 'o', 'm', 'p', 'l', 'e', 't', 'e'
        ],
        "error"@ =~= seq!['e', 'r', 'r', 'o', 'r'],
{
    reveal_strlit("type");
    reveal_strlit("title");
    reveal_strlit("source");
    reveal_strlit("total");
    reveal_strlit("index");
    reveal_strlit("status");
    reveal_strlit("size");
    reveal_strlit("message");
    reveal_strlit("success");
    reveal_strlit("failed");
    reveal_strlit("skipped");
    reveal_strlit("album_start");
    reveal_strlit("song_start");
    reveal_strlit("song_complete");
    reveal_strlit("album_complete");
    reveal_strlit("error");
}

/// Encoding an event and decoding the members gives back the same event.
pub proof fn law_decode_after_encode(e: EventView)
    ensures
        decode_spec(encode_spec(e)) == Ok::<EventView, DecodeError>(e),
{
    lemma_protocol_words();
    reveal_with_fuel(lookup, 7);
    let ms = encode_spec(e);
    assert(ms[0].0 == "type"@);
}

/// The event kinds that the protocol knows.
pub open spec fn is_known_kind(tag: Seq<char>) -> bool {
    tag == "album_start"@ || tag == "song_start"@ || tag == "song_complete"@ || tag
        == "album_complete"@ || tag == "error"@
}

/// Whether `key` is a text field of events of kind `tag`.
pub open spec fn is_text_field(tag: Seq<char>, key: Seq<char>) -> bool {
    ||| tag == "album_start"@ && (key == "title"@ || key == "source"@)
    ||| tag == "song_start"@ && key == "title"@
    ||| tag == "song_complete"@ && (key == "title"@ || key == "status"@ || key == "message"@)
    ||| tag == "error"@ && key == "message"@
}

/// Whether `key` is a count field of events of kind `tag`.
pub open spec fn is_count_field(tag: Seq<char>, key: Seq<char>) -> bool {
    ||| tag == "album_start"@ && key == "total"@
    ||| tag == "song_start"@ && (key == "index"@ || key == "total"@)
    ||| tag == "song_complete"@ && (key == "index"@ || key == "size"@)
    ||| tag == "album_complete"@ && (key == "success"@ || key == "failed"@ || key == "skipped"@
        || key == "total"@)
}

/// A payload decodes exactly when its `type` member is a string naming a known
/// kind: no other member, missing or of the wrong kind, makes it fail.
pub proof fn law_known_kind_decodes(ms: Seq<MemberView>)
    ensures
        (decode_spec(ms) is Ok) == (type_of(ms) is Some && is_known_kind(type_of(ms)->Some_0)),
{
}

/// Decoding a payload's members and encoding the event again keeps the kind
/// and, for each field that the kind recognises, the value that the payload
/// held there; a field that was missing or of the wrong kind comes back as its
/// default, the empty text or zero.
pub proof fn law_encode_after_decode(ms: Seq<MemberView>, key: Seq<char>)
    requires
        decode_spec(ms) is Ok,
    ensures
        ({
            let out = encode_spec(decode_spec(ms)->Ok_0);
            let tag = type_of(ms)->Some_0;
            &&& type_of(out) == type_of(ms)
            &&& is_text_field(tag, key) ==> text_of(out, key) == text_of(ms, key)
            &&& is_count_field(tag, key) ==> count_of(out, key) == count_of(ms, key)
            &&& is_text_field(tag, key) && !(lookup(ms, key) is Some && lookup(ms, key)->Some_0.1 is Some)
                ==> text_of(out, key) == Seq::<char>::empty()
            &&& is_count_field(tag, key) && !(lookup(ms, key) is Some && lookup(ms, key)->Some_0.2 is Some)
                ==> count_of(out, key) == 0
        }),
{
    lemma_protocol_words();
    reveal_with_fuel(lookup, 7);
}

} // verus!
