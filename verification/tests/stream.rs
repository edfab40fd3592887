use speak_notes::control::SessionError;
use speak_notes::frame::{Command, TranscriptFrame};
use speak_notes::stream::{deliver, take_stream, Delivery, StreamItem};
use speak_notes::wire::{DecodeError, Field};

fn text(s: &str) -> StreamItem {
    StreamItem::Text(s.to_string())
}

fn note_frame(note: &str) -> TranscriptFrame {
    TranscriptFrame {
        preview: String::new(),
        note: note.to_string(),
        listening: true,
        no_match: false,
        command: None,
    }
}

#[test]
fn a_text_delivers_its_frame() {
    assert_eq!(
        deliver(&text(r#"{"note":"ok","listening":true,"noMatch":false}"#)),
        Delivery::Frame(note_frame("ok"))
    );
}

#[test]
fn a_text_that_is_no_frame_delivers_its_fault() {
    assert_eq!(deliver(&text("{not json")), Delivery::Malformed(DecodeError::Malformed));
    assert_eq!(
        deliver(&text(r#"{"listening":true}"#)),
        Delivery::Malformed(DecodeError::Missing(Field::NoMatch))
    );
}

#[test]
fn close_and_failure_deliver_the_end() {
    assert_eq!(deliver(&StreamItem::Close), Delivery::Ended(SessionError::StreamClosed));
    assert_eq!(
        deliver(&StreamItem::Failure("reset".to_string())),
        Delivery::Ended(SessionError::Transport("reset".to_string()))
    );
}

#[test]
fn other_messages_deliver_nothing() {
    assert_eq!(deliver(&StreamItem::Other), Delivery::Nothing);
}

#[test]
fn a_malformed_text_does_not_end_the_stream() {
    let items = vec![
        text("{not json"),
        text(r#"{"note":"ok","listening":true,"noMatch":false}"#),
    ];
    assert_eq!(
        take_stream(&items),
        vec![Delivery::Malformed(DecodeError::Malformed), Delivery::Frame(note_frame("ok"))]
    );
}

#[test]
fn the_stream_ends_at_the_first_close() {
    let items = vec![
        text(r#"{"note":"a","listening":true,"noMatch":false}"#),
        StreamItem::Other,
        StreamItem::Close,
        text(r#"{"note":"b","listening":true,"noMatch":false}"#),
        StreamItem::Failure("late".to_string()),
    ];
    assert_eq!(
        take_stream(&items),
        vec![
            Delivery::Frame(note_frame("a")),
            Delivery::Nothing,
            Delivery::Ended(SessionError::StreamClosed),
        ]
    );
}

#[test]
fn the_stream_ends_at_the_first_failure() {
    let items = vec![
        StreamItem::Failure("broken pipe".to_string()),
        StreamItem::Close,
        text(r#"{"note":"b","listening":true,"noMatch":false}"#),
    ];
    assert_eq!(
        take_stream(&items),
        vec![Delivery::Ended(SessionError::Transport("broken pipe".to_string()))]
    );
}

#[test]
fn an_empty_run_yields_nothing() {
    assert_eq!(take_stream(&vec![]), vec![]);
}

#[test]
fn a_run_without_end_yields_every_delivery() {
    let items = vec![
        text(r#"{"listening":false,"noMatch":false,"command":"start"}"#),
        text("[]"),
        StreamItem::Other,
    ];
    let mut started = note_frame("");
    started.listening = false;
    started.command = Some(Command::Start);
    assert_eq!(
        take_stream(&items),
        vec![
            Delivery::Frame(started),
            Delivery::Malformed(DecodeError::Malformed),
            Delivery::Nothing,
        ]
    );
}
