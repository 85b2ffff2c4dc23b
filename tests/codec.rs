use fetch_progress::codec::{decode_line, decode_members, decode_payload, encode_members, DecodeError, LineOutcome};
use fetch_progress::event::{Member, ProgressEvent};

fn song_complete_fields(e: &ProgressEvent) -> (u64, String, String, u64, String) {
    match e {
        ProgressEvent::SongComplete { index, title, status, size, message } => {
            (*index, title.clone(), status.clone(), *size, message.clone())
        }
        _ => panic!("not a song_complete event"),
    }
}

#[test]
fn song_complete_line_decodes() {
    let line = r#">>>PROGRESS:{"type":"song_complete","index":2,"title":"Track 2","status":"success","size":4096,"message":""}"#;
    match decode_line(line) {
        LineOutcome::Event(e) => {
            assert_eq!(
                song_complete_fields(&e),
                (2, "Track 2".to_string(), "success".to_string(), 4096, String::new())
            );
        }
        _ => panic!("expected an event"),
    }
}

#[test]
fn plain_line_is_not_protocol() {
    assert!(matches!(decode_line("hello world"), LineOutcome::NotProtocol));
    assert!(matches!(decode_line(""), LineOutcome::NotProtocol));
    assert!(matches!(decode_line(">>>PROGRESS"), LineOutcome::NotProtocol));
    assert!(matches!(decode_line(" >>>PROGRESS:{\"type\":\"error\"}"), LineOutcome::NotProtocol));
}

#[test]
fn unparsable_payload_is_malformed() {
    assert!(matches!(decode_line(">>>PROGRESS:{not json"), LineOutcome::Malformed(DecodeError::Unparsable)));
    assert!(matches!(decode_line(">>>PROGRESS:"), LineOutcome::Malformed(DecodeError::Unparsable)));
}

#[test]
fn unknown_type_is_malformed() {
    assert!(matches!(
        decode_line(r#">>>PROGRESS:{"type":"album_paused"}"#),
        LineOutcome::Malformed(DecodeError::UnknownType)
    ));
}

#[test]
fn missing_or_non_text_type_is_malformed() {
    assert!(matches!(decode_line(r#">>>PROGRESS:{"title":"x"}"#), LineOutcome::Malformed(DecodeError::MissingType)));
    assert!(matches!(decode_line(r#">>>PROGRESS:{"type":5}"#), LineOutcome::Malformed(DecodeError::MissingType)));
    assert!(matches!(decode_line(">>>PROGRESS:[1,2]"), LineOutcome::Malformed(DecodeError::MissingType)));
}

#[test]
fn missing_and_mismatched_fields_take_defaults() {
    match decode_payload(r#"{"type":"album_start","title":7,"total":"ten"}"#) {
        Ok(ProgressEvent::AlbumStart { title, source, total }) => {
            assert_eq!(title, "");
            assert_eq!(source, "");
            assert_eq!(total, 0);
        }
        _ => panic!("expected album_start"),
    }
    match decode_payload(r#"{"type":"song_start","index":-1,"total":3.5}"#) {
        Ok(ProgressEvent::SongStart { index, total, title }) => {
            assert_eq!((index, total, title.as_str()), (0, 0, ""));
        }
        _ => panic!("expected song_start"),
    }
}

#[test]
fn every_kind_decodes_from_text() {
    match decode_payload(r#"{"type":"album_start","title":"A","source":"web","total":12}"#) {
        Ok(ProgressEvent::AlbumStart { title, source, total }) => {
            assert_eq!((title.as_str(), source.as_str(), total), ("A", "web", 12));
        }
        _ => panic!("album_start"),
    }
    match decode_payload(r#"{"type":"song_start","index":1,"total":12,"title":"T"}"#) {
        Ok(ProgressEvent::SongStart { index, total, title }) => {
            assert_eq!((index, total, title.as_str()), (1, 12, "T"));
        }
        _ => panic!("song_start"),
    }
    match decode_payload(r#"{"type":"album_complete","success":10,"failed":1,"skipped":1,"total":12}"#) {
        Ok(ProgressEvent::AlbumComplete { success, failed, skipped, total }) => {
            assert_eq!((success, failed, skipped, total), (10, 1, 1, 12));
        }
        _ => panic!("album_complete"),
    }
    match decode_payload(r#"{"type":"error","message":"boom"}"#) {
        Ok(ProgressEvent::Error { message }) => assert_eq!(message, "boom"),
        _ => panic!("error"),
    }
}

#[test]
fn members_decode_directly() {
    let ms = vec![
        Member::count("size", 9),
        Member::text("type", "song_complete"),
        Member::text("title", "X"),
    ];
    let e = decode_members(&ms).unwrap();
    assert_eq!(song_complete_fields(&e), (0, "X".to_string(), String::new(), 9, String::new()));
    assert!(matches!(decode_members(&Vec::new()), Err(DecodeError::MissingType)));
}

#[test]
fn encode_then_decode_gives_event_back() {
    let events = vec![
        ProgressEvent::AlbumStart { title: "A".to_string(), source: "s".to_string(), total: 3 },
        ProgressEvent::SongStart { index: 1, total: 3, title: "t".to_string() },
        ProgressEvent::SongComplete {
            index: 1,
            title: "t".to_string(),
            status: "skipped".to_string(),
            size: 0,
            message: "exists".to_string(),
        },
        ProgressEvent::AlbumComplete { success: 1, failed: 1, skipped: 1, total: 3 },
        ProgressEvent::Error { message: "m".to_string() },
    ];
    for e in &events {
        let back = decode_members(&encode_members(e)).unwrap();
        assert_eq!(format!("{:?}", back), format!("{:?}", e));
    }
}

#[test]
fn encoded_members_start_with_type() {
    let ms = encode_members(&ProgressEvent::Error { message: "m".to_string() });
    assert_eq!(ms.len(), 2);
    assert_eq!(ms[0].key, "type");
    assert_eq!(ms[0].text.as_deref(), Some("error"));
    assert_eq!(ms[1].key, "message");
    assert_eq!(ms[1].text.as_deref(), Some("m"));
}
