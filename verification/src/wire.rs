//! The wire schema of a transcript frame: a JSON object whose members
//! `preview`, `note`, `listening`, `noMatch` and `command` are read, and whose
//! other members are ignored.

use vstd::prelude::*;
use crate::frame::{Command, FrameView, TranscriptFrame};
use crate::json::{lookup, member_at, member_view, parse_object, parsed_object, Member, MemberView};

verus! {

/// The members of the wire object that a frame is made of.
#[derive(Clone, Copy, Debug, PartialEq, Eq, Structural)]
pub enum Field {
    Preview,
    Note,
    Listening,
    NoMatch,
    Command,
}

/// Why a text is no frame.
#[derive(Clone, Copy, Debug, PartialEq, Eq, Structural)]
pub enum DecodeError {
    /// The text is not one JSON object.
    Malformed,
    /// A member that the schema requires is not there.
    Missing(Field),
    /// A member holds a value of the wrong kind.
    Mismatched(Field),
}

impl Field {
    /// The member's name on the wire.
    pub open spec fn key_text(self) -> Seq<char> {
        match self {
            Field::Preview => "preview"@,
            Field::Note => "note"@,
            Field::Listening => "listening"@,
            Field::NoMatch => "noMatch"@,
            Field::Command => "command"@,
        }
    }

    /// The member's name on the wire.
    pub fn key(self) -> (name: &'static str)
        ensures
            name@ == self.key_text(),
    {
        match self {
            Field::Preview => "preview",
            Field::Note => "note",
            Field::Listening => "listening",
            Field::NoMatch => "noMatch",
            Field::Command => "command",
        }
    }
}

/// What the wire object holds under each of the five names; `None` where the
/// object has no such member.
#[derive(Clone, Debug, PartialEq, Eq)]
pub struct FrameMembers {
    pub preview: Option<Member>,
    pub note: Option<Member>,
    pub listening: Option<Member>,
    pub no_match: Option<Member>,
    pub command: Option<Member>,
}

/// The mathematical value of [`FrameMembers`].
pub struct FrameMembersView {
    pub preview: Option<MemberView>,
    pub note: Option<MemberView>,
    pub listening: Option<MemberView>,
    pub no_match: Option<MemberView>,
    pub command: Option<MemberView>,
}

impl View for FrameMembers {
    type V = FrameMembersView;

    open spec fn view(&self) -> FrameMembersView {
        FrameMembersView {
            preview: member_view(self.preview),
            note: member_view(self.note),
            listening: member_view(self.listening),
            no_match: member_view(self.no_match),
            command: member_view(self.command),
        }
    }
}

/// A text member: absent it is empty, present it must be a JSON string.
pub open spec fn text_of(field: Field, member: Option<MemberView>) -> Result<
    Seq<char>,
    DecodeError,
> {
    match member {
        None => Ok(Seq::empty()),
        Some(MemberView::Text(text)) => Ok(text),
        Some(_) => Err(DecodeError::Mismatched(field)),
    }
}

/// A flag member: it must be there and be a JSON boolean.
pub open spec fn flag_of(field: Field, member: Option<MemberView>) -> Result<bool, DecodeError> {
    match member {
        None => Err(DecodeError::Missing(field)),
        Some(MemberView::Flag(flag)) => Ok(flag),
        Some(_) => Err(DecodeError::Mismatched(field)),
    }
}

/// The directive that a tag names; a tag other than `start` and `stop` names
/// none.
pub open spec fn command_of_tag(tag: Seq<char>) -> Option<Command> {
    if tag == "start"@ {
        Some(Command::Start)
    } else if tag == "stop"@ {
        Some(Command::Stop)
    } else {
        None
    }
}

/// The command member: absent or `null` it carries no directive, present it
/// must be a JSON string.
pub open spec fn command_of(member: Option<MemberView>) -> Result<Option<Command>, DecodeError> {
    match member {
        None => Ok(None),
        Some(MemberView::Null) => Ok(None),
        Some(MemberView::Text(tag)) => Ok(command_of_tag(tag)),
        Some(_) => Err(DecodeError::Mismatched(Field::Command)),
    }
}

/// The frame that the five members make, or the first fault among them in
/// the order preview, note, listening, noMatch, command.
pub open spec fn frame_of_members(members: FrameMembersView) -> Result<FrameView, DecodeError> {
    match text_of(Field::Preview, members.preview) {
        Err(e) => Err(e),
        Ok(preview) => match text_of(Field::Note, members.note) {
            Err(e) => Err(e),
            Ok(note) => match flag_of(Field::Listening, members.listening) {
                Err(e) => Err(e),
                Ok(listening) => match flag_of(Field::NoMatch, members.no_match) {
                    Err(e) => Err(e),
                    Ok(no_match) => match command_of(members.command) {
                        Err(e) => Err(e),
                        Ok(command) => Ok(
                            FrameView { preview, note, listening, no_match, command },
                        ),
                    },
                },
            },
        },
    }
}

/// The five members that a frame is made of, picked out of an object.
pub open spec fn members_of_object(object: Map<Seq<char>, MemberView>) -> FrameMembersView {
    FrameMembersView {
        preview: member_at(object, Field::Preview.key_text()),
        note: member_at(object, Field::Note.key_text()),
        listening: member_at(object, Field::Listening.key_text()),
        no_match: member_at(object, Field::NoMatch.key_text()),
        command: member_at(object, Field::Command.key_text()),
    }
}

/// The frame that a text denotes: the text must be one JSON object, and its
/// five members must make a frame.
pub open spec fn decoded(text: Seq<char>) -> Result<FrameView, DecodeError> {
    match parsed_object(text) {
        None => Err(DecodeError::Malformed),
        Some(object) => frame_of_members(members_of_object(object)),
    }
}

/// The view of a decoding result.
pub open spec fn decoding_view(result: Result<TranscriptFrame, DecodeError>) -> Result<
    FrameView,
    DecodeError,
> {
    match result {
        Ok(frame) => Ok(frame@),
        Err(e) => Err(e),
    }
}

fn text_member(field: Field, member: Option<Member>) -> (text: Result<String, DecodeError>)
    ensures
        match text {
            Ok(s) => text_of(field, member_view(member)) == Ok::<Seq<char>, DecodeError>(s@),
            Err(e) => text_of(field, member_view(member)) == Err::<Seq<char>, DecodeError>(e),
        },
{
    match member {
        None => Ok(String::new()),
        Some(Member::Text(s)) => Ok(s),
        Some(_) => Err(DecodeError::Mismatched(field)),
    }
}

fn flag_member(field: Field, member: Option<Member>) -> (flag: Result<bool, DecodeError>)
    ensures
        flag == flag_of(field, member_view(member)),
{
    match member {
        None => Err(DecodeError::Missing(field)),
        Some(Member::Flag(b)) => Ok(b),
        Some(_) => Err(DecodeError::Mismatched(field)),
    }
}

/// The directive that a tag names.
pub fn command_from_tag(tag: &str) -> (command: Option<Command>)
    ensures
        command == command_of_tag(tag@),
{
    let tag: String = tag.to_owned();
    if tag == "start".to_owned() {
        Some(Command::Start)
    } else if tag == "stop".to_owned() {
        Some(Command::Stop)
    } else {
        None
    }
}

fn command_member(member: Option<Member>) -> (command: Result<Option<Command>, DecodeError>)
    ensures
        command == command_of(member_view(member)),
{
    match member {
        None => Ok(None),
        Some(Member::Null) => Ok(None),
        Some(Member::Text(tag)) => Ok(command_from_tag(tag.as_str())),
        Some(_) => Err(DecodeError::Mismatched(Field::Command)),
    }
}

/// Makes a frame of the five members of a wire object. Absent texts become
/// empty, an absent or `null` command becomes no directive, and the two flags
/// are required.
pub fn frame_from_members(members: FrameMembers) -> (result: Result<TranscriptFrame, DecodeError>)
    ensures
        decoding_view(result) == frame_of_members(members@),
{
    let preview: String = match text_member(Field::Preview, members.preview) {
        Ok(s) => s,
        Err(e) => { return Err(e); },
    };
    let note: String = match text_member(Field::Note, members.note) {
        Ok(s) => s,
        Err(e) => { return Err(e); },
    };
    let listening: bool = match flag_member(Field::Listening, members.listening) {
        Ok(b) => b,
        Err(e) => { return Err(e); },
    };
    let no_match: bool = match flag_member(Field::NoMatch, members.no_match) {
        Ok(b) => b,
        Err(e) => { return Err(e); },
    };
    let command: Option<Command> = match command_member(members.command) {
        Ok(c) => c,
        Err(e) => { return Err(e); },
    };
    Ok(TranscriptFrame { preview, note, listening, no_match, command })
}

/// Decodes the text of one stream message into a frame.
pub fn decode_frame(text: &str) -> (result: Result<TranscriptFrame, DecodeError>)
    ensures
        decoding_view(result) == decoded(text@),
{
    match parse_object(text) {
        Err(_) => Err(DecodeError::Malformed),
        Ok(object) => {
            let members = FrameMembers {
                preview: lookup(&object, Field::Preview.key()),
                note: lookup(&object, Field::Note.key()),
                listening: lookup(&object, Field::Listening.key()),
                no_match: lookup(&object, Field::NoMatch.key()),
                command: lookup(&object, Field::Command.key()),
            };
            frame_from_members(members)
        },
    }
}

/// A frame whose wire object sets only the two flags decodes, and its texts
/// are empty and it carries no directive.
pub proof fn lemma_absent_members_take_defaults(listening: bool, no_match: bool)
    ensures
        frame_of_members(
            FrameMembersView {
                preview: None,
                note: None,
                listening: Some(MemberView::Flag(listening)),
                no_match: Some(MemberView::Flag(no_match)),
                command: None,
            },
        ) == Ok::<FrameView, DecodeError>(
            FrameView {
                preview: Seq::empty(),
                note: Seq::empty(),
                listening,
                no_match,
                command: None,
            },
        ),
{
}

/// Whatever the other members hold, a frame that decodes without a preview
/// has an empty preview, and one that decodes without a note an empty note.
pub proof fn lemma_absent_text_is_empty(members: FrameMembersView)
    requires
        frame_of_members(members) is Ok,
    ensures
        members.preview is None ==> frame_of_members(members)->Ok_0.preview == Seq::<char>::empty(),
        members.note is None ==> frame_of_members(members)->Ok_0.note == Seq::<char>::empty(),
{
}

/// The wire object that sets the two flags and nothing else.
pub open spec fn flags_only_object(listening: bool, no_match: bool) -> Map<Seq<char>, MemberView> {
    map![
        Field::Listening.key_text() => MemberView::Flag(listening),
        Field::NoMatch.key_text() => MemberView::Flag(no_match),
    ]
}

/// A text whose object sets only the two flags decodes to the frame with
/// those flags, empty texts and no directive.
pub proof fn lemma_flags_only_text_decodes(text: Seq<char>, listening: bool, no_match: bool)
    requires
        parsed_object(text) == Some(flags_only_object(listening, no_match)),
    ensures
        decoded(text) == Ok::<FrameView, DecodeError>(
            FrameView {
                preview: Seq::empty(),
                note: Seq::empty(),
                listening,
                no_match,
                command: None,
            },
        ),
{
    reveal_strlit("preview");
    reveal_strlit("note");
    reveal_strlit("listening");
    reveal_strlit("noMatch");
    reveal_strlit("command");
    let object = flags_only_object(listening, no_match);
    assert("preview"@[0] == 'p' && "noMatch"@[0] == 'n' && "command"@[0] == 'c');
    assert("note"@.len() == 4 && "listening"@.len() == 9 && "noMatch"@.len() == 7);
    assert(!object.contains_key("preview"@));
    assert(!object.contains_key("note"@));
    assert(!object.contains_key("command"@));
    assert(object["listening"@] == MemberView::Flag(listening));
    assert(object["noMatch"@] == MemberView::Flag(no_match));
    lemma_absent_members_take_defaults(listening, no_match);
}

} // verus!
