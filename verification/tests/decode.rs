use speak_notes::frame::{Command, TranscriptFrame};
use speak_notes::json::Member;
use speak_notes::model::{reduce, ViewModel};
use speak_notes::wire::{
    command_from_tag, decode_frame, frame_from_members, DecodeError, Field, FrameMembers,
};

fn flags_only() -> FrameMembers {
    FrameMembers {
        preview: None,
        note: None,
        listening: Some(Member::Flag(true)),
        no_match: Some(Member::Flag(false)),
        command: None,
    }
}

#[test]
fn decodes_a_full_frame() {
    let text = r#"{"preview":"hello","note":"","listening":true,"noMatch":false}"#;
    assert_eq!(
        decode_frame(text),
        Ok(TranscriptFrame {
            preview: "hello".to_string(),
            note: "".to_string(),
            listening: true,
            no_match: false,
            command: None,
        })
    );
}

#[test]
fn decodes_a_frame_with_a_stop_command() {
    let text =
        r#"{"preview":"","note":"hello world.","listening":false,"noMatch":false,"command":"stop"}"#;
    assert_eq!(
        decode_frame(text),
        Ok(TranscriptFrame {
            preview: "".to_string(),
            note: "hello world.".to_string(),
            listening: false,
            no_match: false,
            command: Some(Command::Stop),
        })
    );
}

#[test]
fn decodes_a_frame_with_a_start_command() {
    let frame = decode_frame(r#"{"listening":false,"noMatch":true,"command":"start"}"#).unwrap();
    assert_eq!(frame.command, Some(Command::Start));
    assert!(frame.no_match);
    assert!(!frame.listening);
}

#[test]
fn flags_alone_give_empty_texts() {
    let frame = decode_frame(r#"{"listening":true,"noMatch":false}"#).unwrap();
    assert_eq!(frame.preview, "");
    assert_eq!(frame.note, "");
    assert_eq!(frame.command, None);
    assert!(frame.listening);
    assert!(!frame.no_match);
    let model = reduce(ViewModel::new(), frame);
    assert_eq!(model.transcript.preview, "");
    assert_eq!(model.transcript.note, "");
    assert!(model.is_listening);
}

#[test]
fn null_command_is_no_command() {
    let frame = decode_frame(r#"{"listening":true,"noMatch":false,"command":null}"#).unwrap();
    assert_eq!(frame.command, None);
}

#[test]
fn unknown_command_tag_is_no_command() {
    let frame = decode_frame(r#"{"listening":true,"noMatch":false,"command":"pause"}"#).unwrap();
    assert_eq!(frame.command, None);
    assert!(frame.listening);
}

#[test]
fn unknown_members_are_ignored() {
    let text = r#"{"extra":[1,{"a":null}],"listening":false,"noMatch":true,"note":"n","z":1.5}"#;
    let frame = decode_frame(text).unwrap();
    assert_eq!(frame.note, "n");
    assert_eq!(frame.preview, "");
    assert!(frame.no_match);
}

#[test]
fn white_space_and_escapes_are_read() {
    let text = " {\n \"note\" : \"a\\n  b\\u00e9\" , \"listening\" : true , \"noMatch\" : false }\n";
    let frame = decode_frame(text).unwrap();
    assert_eq!(frame.note, "a\n  b\u{e9}");
}

#[test]
fn text_that_is_not_json_is_malformed() {
    assert_eq!(decode_frame("{not json"), Err(DecodeError::Malformed));
    assert_eq!(decode_frame(""), Err(DecodeError::Malformed));
    assert_eq!(
        decode_frame(r#"{"listening":true,"noMatch":false} x"#),
        Err(DecodeError::Malformed)
    );
}

#[test]
fn json_that_is_no_object_is_malformed() {
    assert_eq!(decode_frame("null"), Err(DecodeError::Malformed));
    assert_eq!(decode_frame("true"), Err(DecodeError::Malformed));
    assert_eq!(decode_frame("\"listening\""), Err(DecodeError::Malformed));
    assert_eq!(decode_frame(r#"["","",true,false]"#), Err(DecodeError::Malformed));
    assert_eq!(decode_frame("3"), Err(DecodeError::Malformed));
}

#[test]
fn missing_flags_are_reported() {
    assert_eq!(decode_frame("{}"), Err(DecodeError::Missing(Field::Listening)));
    assert_eq!(
        decode_frame(r#"{"noMatch":false}"#),
        Err(DecodeError::Missing(Field::Listening))
    );
    assert_eq!(
        decode_frame(r#"{"listening":false}"#),
        Err(DecodeError::Missing(Field::NoMatch))
    );
    assert_eq!(
        decode_frame(r#"{"listening":false,"no_match":false}"#),
        Err(DecodeError::Missing(Field::NoMatch))
    );
}

#[test]
fn members_of_the_wrong_kind_are_reported() {
    assert_eq!(
        decode_frame(r#"{"preview":1,"listening":true,"noMatch":false}"#),
        Err(DecodeError::Mismatched(Field::Preview))
    );
    assert_eq!(
        decode_frame(r#"{"preview":null,"listening":true,"noMatch":false}"#),
        Err(DecodeError::Mismatched(Field::Preview))
    );
    assert_eq!(
        decode_frame(r#"{"note":["a"],"listening":true,"noMatch":false}"#),
        Err(DecodeError::Mismatched(Field::Note))
    );
    assert_eq!(
        decode_frame(r#"{"listening":"yes","noMatch":false}"#),
        Err(DecodeError::Mismatched(Field::Listening))
    );
    assert_eq!(
        decode_frame(r#"{"listening":true,"noMatch":null}"#),
        Err(DecodeError::Mismatched(Field::NoMatch))
    );
    assert_eq!(
        decode_frame(r#"{"listening":true,"noMatch":false,"command":{"a":1}}"#),
        Err(DecodeError::Mismatched(Field::Command))
    );
    assert_eq!(
        decode_frame(r#"{"listening":true,"noMatch":false,"command":true}"#),
        Err(DecodeError::Mismatched(Field::Command))
    );
}

#[test]
fn the_first_fault_in_schema_order_is_reported() {
    assert_eq!(
        decode_frame(r#"{"command":7,"note":7,"preview":7}"#),
        Err(DecodeError::Mismatched(Field::Preview))
    );
    assert_eq!(
        decode_frame(r#"{"command":7,"note":7}"#),
        Err(DecodeError::Mismatched(Field::Note))
    );
    assert_eq!(
        decode_frame(r#"{"command":7,"noMatch":7}"#),
        Err(DecodeError::Missing(Field::Listening))
    );
    assert_eq!(
        decode_frame(r#"{"command":7,"noMatch":7,"listening":true}"#),
        Err(DecodeError::Mismatched(Field::NoMatch))
    );
}

#[test]
fn members_make_a_frame() {
    assert_eq!(
        frame_from_members(flags_only()),
        Ok(TranscriptFrame {
            preview: String::new(),
            note: String::new(),
            listening: true,
            no_match: false,
            command: None,
        })
    );
    let full = FrameMembers {
        preview: Some(Member::Text("p".to_string())),
        note: Some(Member::Text("n".to_string())),
        listening: Some(Member::Flag(false)),
        no_match: Some(Member::Flag(true)),
        command: Some(Member::Text("start".to_string())),
    };
    assert_eq!(
        frame_from_members(full),
        Ok(TranscriptFrame {
            preview: "p".to_string(),
            note: "n".to_string(),
            listening: false,
            no_match: true,
            command: Some(Command::Start),
        })
    );
}

#[test]
fn members_of_each_wrong_kind_are_refused() {
    let mut m = flags_only();
    m.preview = Some(Member::Number);
    assert_eq!(frame_from_members(m), Err(DecodeError::Mismatched(Field::Preview)));
    let mut m = flags_only();
    m.note = Some(Member::Flag(true));
    assert_eq!(frame_from_members(m), Err(DecodeError::Mismatched(Field::Note)));
    let mut m = flags_only();
    m.listening = Some(Member::Null);
    assert_eq!(frame_from_members(m), Err(DecodeError::Mismatched(Field::Listening)));
    let mut m = flags_only();
    m.no_match = Some(Member::Text("false".to_string()));
    assert_eq!(frame_from_members(m), Err(DecodeError::Mismatched(Field::NoMatch)));
    let mut m = flags_only();
    m.command = Some(Member::Array);
    assert_eq!(frame_from_members(m), Err(DecodeError::Mismatched(Field::Command)));
    let mut m = flags_only();
    m.command = Some(Member::Object);
    assert_eq!(frame_from_members(m), Err(DecodeError::Mismatched(Field::Command)));
    let mut m = flags_only();
    m.listening = None;
    assert_eq!(frame_from_members(m), Err(DecodeError::Missing(Field::Listening)));
    let mut m = flags_only();
    m.no_match = None;
    assert_eq!(frame_from_members(m), Err(DecodeError::Missing(Field::NoMatch)));
}

#[test]
fn null_command_member_is_no_command() {
    let mut m = flags_only();
    m.command = Some(Member::Null);
    assert_eq!(frame_from_members(m).unwrap().command, None);
}

#[test]
fn command_tags() {
    assert_eq!(command_from_tag("start"), Some(Command::Start));
    assert_eq!(command_from_tag("stop"), Some(Command::Stop));
    assert_eq!(command_from_tag("Start"), None);
    assert_eq!(command_from_tag("stop "), None);
    assert_eq!(command_from_tag(""), None);
}

#[test]
fn field_keys_are_the_wire_names() {
    assert_eq!(Field::Preview.key(), "preview");
    assert_eq!(Field::Note.key(), "note");
    assert_eq!(Field::Listening.key(), "listening");
    assert_eq!(Field::NoMatch.key(), "noMatch");
    assert_eq!(Field::Command.key(), "command");
}

#[test]
fn a_later_duplicate_member_replaces_the_earlier() {
    let frame = decode_frame(r#"{"listening":true,"listening":false,"noMatch":false}"#).unwrap();
    assert!(!frame.listening);
}
