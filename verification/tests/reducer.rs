use speak_notes::frame::{Command, TranscriptFrame};
use speak_notes::model::{apply_frames, reduce, Language, ViewModel};

fn frame(preview: &str, note: &str, listening: bool, command: Option<Command>) -> TranscriptFrame {
    TranscriptFrame {
        preview: preview.to_string(),
        note: note.to_string(),
        listening,
        no_match: false,
        command,
    }
}

fn busy_model() -> ViewModel {
    ViewModel {
        transcript: frame("old", "older", true, None),
        is_listening: true,
        connection_status: "Stream connected".to_string(),
        error_message: "Error starting recognition: x".to_string(),
        language: Language::FrFr,
    }
}

#[test]
fn new_view_model_is_empty() {
    let model = ViewModel::new();
    assert_eq!(model.transcript, TranscriptFrame::empty());
    assert_eq!(model.transcript.preview, "");
    assert_eq!(model.transcript.note, "");
    assert!(!model.transcript.listening);
    assert!(!model.transcript.no_match);
    assert_eq!(model.transcript.command, None);
    assert!(!model.is_listening);
    assert_eq!(model.connection_status, "");
    assert_eq!(model.error_message, "");
    assert_eq!(model.language, Language::EnUs);
}

#[test]
fn reduce_takes_the_frame_as_transcript() {
    let next = reduce(ViewModel::new(), frame("hello", "", true, None));
    assert_eq!(next.transcript, frame("hello", "", true, None));
    assert!(next.is_listening);
}

#[test]
fn reduce_accepts_the_all_defaults_frame() {
    let next = reduce(busy_model(), TranscriptFrame::empty());
    assert_eq!(next.transcript, TranscriptFrame::empty());
    assert!(!next.is_listening);
    assert_eq!(next.connection_status, "Stream connected");
    assert_eq!(next.error_message, "Error starting recognition: x");
    assert_eq!(next.language, Language::FrFr);
}

#[test]
fn reduce_keeps_status_error_and_language() {
    let next = reduce(busy_model(), frame("p", "n", false, None));
    assert_eq!(next.connection_status, "Stream connected");
    assert_eq!(next.error_message, "Error starting recognition: x");
    assert_eq!(next.language, Language::FrFr);
    assert!(!next.is_listening);
}

#[test]
fn start_command_wins_over_listening_false() {
    let next = reduce(ViewModel::new(), frame("", "", false, Some(Command::Start)));
    assert!(next.is_listening);
    assert!(!next.transcript.listening);
}

#[test]
fn start_command_with_listening_true() {
    let next = reduce(ViewModel::new(), frame("", "", true, Some(Command::Start)));
    assert!(next.is_listening);
}

#[test]
fn stop_command_wins_over_listening_true() {
    let next = reduce(busy_model(), frame("", "", true, Some(Command::Stop)));
    assert!(!next.is_listening);
    assert!(next.transcript.listening);
}

#[test]
fn stop_command_with_listening_false() {
    let next = reduce(busy_model(), frame("", "", false, Some(Command::Stop)));
    assert!(!next.is_listening);
}

#[test]
fn without_command_listening_follows_the_frame() {
    assert!(reduce(ViewModel::new(), frame("", "", true, None)).is_listening);
    assert!(!reduce(busy_model(), frame("", "", false, None)).is_listening);
}

#[test]
fn listening_after_of_a_frame() {
    assert!(frame("", "", false, Some(Command::Start)).listening_after());
    assert!(!frame("", "", true, Some(Command::Stop)).listening_after());
    assert!(frame("", "", true, None).listening_after());
    assert!(!frame("", "", false, None).listening_after());
}

#[test]
fn duplicate_of_a_frame_is_equal() {
    let f = frame("a b", " c\n", true, Some(Command::Stop));
    assert_eq!(f.duplicate(), f);
}

#[test]
fn apply_in_place_is_reduce() {
    let f = frame("x", "y", true, None);
    let mut model = busy_model();
    model.apply(f.duplicate());
    assert_eq!(model, reduce(busy_model(), f));
}

#[test]
fn two_frames_apply_in_order() {
    let f1 = frame("hello", "", true, None);
    let f2 = frame("", "hello world.", false, None);
    let both = apply_frames(ViewModel::new(), &vec![f1.duplicate(), f2.duplicate()]);
    let nested = reduce(reduce(ViewModel::new(), f1.duplicate()), f2.duplicate());
    assert_eq!(both, nested);
    assert_eq!(both.transcript.note, "hello world.");
    assert!(!both.is_listening);
    let swapped = apply_frames(ViewModel::new(), &vec![f2, f1]);
    assert_ne!(swapped, both);
    assert_eq!(swapped.transcript.preview, "hello");
    assert!(swapped.is_listening);
}

#[test]
fn no_frames_change_nothing() {
    assert_eq!(apply_frames(busy_model(), &vec![]), busy_model());
}

#[test]
fn three_frames_show_the_last() {
    let frames = vec![
        frame("a", "", true, None),
        frame("b", "a.", true, Some(Command::Stop)),
        frame("c", "a. b.", false, Some(Command::Start)),
    ];
    let end = apply_frames(busy_model(), &frames);
    assert_eq!(end.transcript, frames[2]);
    assert!(end.is_listening);
    assert_eq!(end.connection_status, "Stream connected");
}

#[test]
fn defaults_are_the_empty_values() {
    assert_eq!(TranscriptFrame::default(), TranscriptFrame::empty());
    assert_eq!(ViewModel::default(), ViewModel::new());
}
