//! The transcript frame: one decoded message of the push channel.

use vstd::prelude::*;

verus! {

/// An out-of-band directive that a frame may carry.
#[derive(Clone, Copy, Debug, PartialEq, Eq, Structural)]
pub enum Command {
    Start,
    Stop,
}

/// One message of the push channel, with every field present.
#[derive(Clone, Debug, PartialEq, Eq)]
pub struct TranscriptFrame {
    /// Text of the utterance in progress.
    pub preview: String,
    /// The cumulative committed transcript.
    pub note: String,
    /// Whether the service is capturing audio.
    pub listening: bool,
    /// Whether the last recognition pass produced nothing interpretable.
    pub no_match: bool,
    /// The directive carried by the frame, if any.
    pub command: Option<Command>,
}

/// The mathematical value of a frame.
pub struct FrameView {
    pub preview: Seq<char>,
    pub note: Seq<char>,
    pub listening: bool,
    pub no_match: bool,
    pub command: Option<Command>,
}

impl View for TranscriptFrame {
    type V = FrameView;

    open spec fn view(&self) -> FrameView {
        FrameView {
            preview: self.preview@,
            note: self.note@,
            listening: self.listening,
            no_match: self.no_match,
            command: self.command,
        }
    }
}

impl FrameView {
    /// The frame in which every field has its default.
    pub open spec fn empty() -> FrameView {
        FrameView {
            preview: Seq::empty(),
            note: Seq::empty(),
            listening: false,
            no_match: false,
            command: None,
        }
    }

    /// The listening state that holds once the frame is applied: a directive
    /// decides, and without one the frame's own flag does.
    pub open spec fn listening_after(self) -> bool {
        match self.command {
            Some(Command::Start) => true,
            Some(Command::Stop) => false,
            None => self.listening,
        }
    }
}

impl Default for TranscriptFrame {
    /// The frame in which every field has its default.
    fn default() -> (frame: TranscriptFrame)
        ensures
            frame@ == FrameView::empty(),
    {
        TranscriptFrame::empty()
    }
}

impl TranscriptFrame {
    /// The frame in which every field has its default.
    pub fn empty() -> (frame: TranscriptFrame)
        ensures
            frame@ == FrameView::empty(),
    {
        TranscriptFrame {
            preview: String::new(),
            note: String::new(),
            listening: false,
            no_match: false,
            command: None,
        }
    }

    /// The listening state that holds once the frame is applied.
    pub fn listening_after(&self) -> (on: bool)
        ensures
            on == self@.listening_after(),
    {
        match self.command {
            Some(Command::Start) => true,
            Some(Command::Stop) => false,
            None => self.listening,
        }
    }

    /// A copy of the frame.
    pub fn duplicate(&self) -> (copy: TranscriptFrame)
        ensures
            copy@ == self@,
    {
        TranscriptFrame {
            preview: self.preview.clone(),
            note: self.note.clone(),
            listening: self.listening,
            no_match: self.no_match,
            command: self.command,
        }
    }
}

} // verus!
