//! The view model, which is all that the window shows, and the reducer that
//! folds an incoming frame into it.

use vstd::prelude::*;
use crate::frame::{Command, FrameView, TranscriptFrame};

verus! {

/// The languages that the selector offers.
#[derive(Clone, Copy, Debug, PartialEq, Eq, Structural)]
pub enum Language {
    EnUs,
    PtBr,
    EsEs,
    FrFr,
    DeDe,
}

/// The language that a tag names, if it is one of the five.
pub open spec fn language_of_tag(tag: Seq<char>) -> Option<Language> {
    if tag == "en-US"@ {
        Some(Language::EnUs)
    } else if tag == "pt-BR"@ {
        Some(Language::PtBr)
    } else if tag == "es-ES"@ {
        Some(Language::EsEs)
    } else if tag == "fr-FR"@ {
        Some(Language::FrFr)
    } else if tag == "de-DE"@ {
        Some(Language::DeDe)
    } else {
        None
    }
}

/// The five languages in the order in which the selector lists them.
pub open spec fn all_languages() -> Seq<Language> {
    seq![Language::EnUs, Language::PtBr, Language::EsEs, Language::FrFr, Language::DeDe]
}

impl Language {
    /// The language's tag.
    pub open spec fn tag_text(self) -> Seq<char> {
        match self {
            Language::EnUs => "en-US"@,
            Language::PtBr => "pt-BR"@,
            Language::EsEs => "es-ES"@,
            Language::FrFr => "fr-FR"@,
            Language::DeDe => "de-DE"@,
        }
    }

    /// The language's tag.
    pub fn tag(self) -> (tag: &'static str)
        ensures
            tag@ == self.tag_text(),
    {
        match self {
            Language::EnUs => "en-US",
            Language::PtBr => "pt-BR",
            Language::EsEs => "es-ES",
            Language::FrFr => "fr-FR",
            Language::DeDe => "de-DE",
        }
    }

    /// The name under which the selector lists the language.
    pub open spec fn label_text(self) -> Seq<char> {
        match self {
            Language::EnUs => "English (US)"@,
            Language::PtBr => "Portugu\u{ea}s (Brasil)"@,
            Language::EsEs => "Espa\u{f1}ol"@,
            Language::FrFr => "Fran\u{e7}ais"@,
            Language::DeDe => "Deutsch"@,
        }
    }

    /// The name under which the selector lists the language.
    pub fn label(self) -> (label: &'static str)
        ensures
            label@ == self.label_text(),
    {
        match self {
            Language::EnUs => "English (US)",
            Language::PtBr => "Portugu\u{ea}s (Brasil)",
            Language::EsEs => "Espa\u{f1}ol",
            Language::FrFr => "Fran\u{e7}ais",
            Language::DeDe => "Deutsch",
        }
    }

    /// The language that a tag names; `None` for a tag outside the five.
    pub fn from_tag(tag: &str) -> (language: Option<Language>)
        ensures
            language == language_of_tag(tag@),
    {
        let tag: String = tag.to_owned();
        if tag == "en-US".to_owned() {
            Some(Language::EnUs)
        } else if tag == "pt-BR".to_owned() {
            Some(Language::PtBr)
        } else if tag == "es-ES".to_owned() {
            Some(Language::EsEs)
        } else if tag == "fr-FR".to_owned() {
            Some(Language::FrFr)
        } else if tag == "de-DE".to_owned() {
            Some(Language::DeDe)
        } else {
            None
        }
    }

    /// The five languages in the order in which the selector lists them.
    pub fn all() -> (languages: Vec<Language>)
        ensures
            languages@ == all_languages(),
    {
        let mut languages: Vec<Language> = Vec::new();
        languages.push(Language::EnUs);
        languages.push(Language::PtBr);
        languages.push(Language::EsEs);
        languages.push(Language::FrFr);
        languages.push(Language::DeDe);
        assert(languages@ =~= all_languages());
        languages
    }
}

/// Every language is found again by its tag, and by no other tag.
pub proof fn lemma_tag_names_language(language: Language, tag: Seq<char>)
    ensures
        language_of_tag(language.tag_text()) == Some(language),
        language_of_tag(tag) == Some(language) ==> tag == language.tag_text(),
{
    reveal_strlit("en-US");
    reveal_strlit("pt-BR");
    reveal_strlit("es-ES");
    reveal_strlit("fr-FR");
    reveal_strlit("de-DE");
    let en = "en-US"@;
    let pt = "pt-BR"@;
    let es = "es-ES"@;
    let fr = "fr-FR"@;
    let de = "de-DE"@;
    assert(en[0] == 'e' && en[1] == 'n');
    assert(pt[0] == 'p');
    assert(es[0] == 'e' && es[1] == 's');
    assert(fr[0] == 'f');
    assert(de[0] == 'd');
}

/// What the window shows.
#[derive(Clone, Debug, PartialEq, Eq)]
pub struct ViewModel {
    /// The frame applied last.
    pub transcript: TranscriptFrame,
    /// Whether the service is taken to be capturing audio.
    pub is_listening: bool,
    /// The phase of the connection, in words.
    pub connection_status: String,
    /// The last failure of a start or stop request; empty when there is none.
    pub error_message: String,
    /// The language chosen in the selector.
    pub language: Language,
}

/// The mathematical value of a [`ViewModel`].
pub struct ViewModelView {
    pub transcript: FrameView,
    pub is_listening: bool,
    pub connection_status: Seq<char>,
    pub error_message: Seq<char>,
    pub language: Language,
}

impl View for ViewModel {
    type V = ViewModelView;

    open spec fn view(&self) -> ViewModelView {
        ViewModelView {
            transcript: self.transcript@,
            is_listening: self.is_listening,
            connection_status: self.connection_status@,
            error_message: self.error_message@,
            language: self.language,
        }
    }
}

impl ViewModelView {
    /// Whether the listening state is the one that the transcript gives. A
    /// press of Start or Stop may leave the view model unsettled; the next
    /// frame settles it.
    pub open spec fn settled(self) -> bool {
        self.is_listening == self.transcript.listening_after()
    }

    /// The view model of a window that has just opened.
    pub open spec fn initial() -> ViewModelView {
        ViewModelView {
            transcript: FrameView::empty(),
            is_listening: false,
            connection_status: Seq::empty(),
            error_message: Seq::empty(),
            language: Language::EnUs,
        }
    }
}

/// The view model after a frame: the frame becomes the transcript and decides
/// the listening state; status, error message and language stay.
pub open spec fn reduced(prev: ViewModelView, frame: FrameView) -> ViewModelView {
    ViewModelView { transcript: frame, is_listening: frame.listening_after(), ..prev }
}

/// The view model after each frame of a sequence in turn, first to last.
pub open spec fn reduced_all(start: ViewModelView, frames: Seq<FrameView>) -> ViewModelView
    decreases frames.len(),
{
    if frames.len() == 0 {
        start
    } else {
        reduced(reduced_all(start, frames.drop_last()), frames.last())
    }
}

/// The values of a sequence of frames.
pub open spec fn frame_views(frames: Seq<TranscriptFrame>) -> Seq<FrameView> {
    frames.map_values(|frame: TranscriptFrame| frame@)
}

impl Default for ViewModel {
    /// The view model of a window that has just opened.
    fn default() -> (model: ViewModel)
        ensures
            model@ == ViewModelView::initial(),
    {
        ViewModel::new()
    }
}

impl ViewModel {
    /// The view model of a window that has just opened: nothing heard,
    /// nothing shown, the first language chosen.
    pub fn new() -> (model: ViewModel)
        ensures
            model@ == ViewModelView::initial(),
            model@.settled(),
    {
        ViewModel {
            transcript: TranscriptFrame::empty(),
            is_listening: false,
            connection_status: String::new(),
            error_message: String::new(),
            language: Language::EnUs,
        }
    }

    /// Folds a frame into this view model in place.
    pub fn apply(&mut self, frame: TranscriptFrame)
        ensures
            final(self)@ == reduced(old(self)@, frame@),
            final(self)@.settled(),
    {
        self.is_listening = frame.listening_after();
        self.transcript = frame;
    }
}

/// The reducer: the view model that follows `prev` once `frame` has arrived.
/// Every frame is accepted, whatever the view model was, and the result is
/// settled.
pub fn reduce(prev: ViewModel, frame: TranscriptFrame) -> (next: ViewModel)
    ensures
        next@ == reduced(prev@, frame@),
        next@.settled(),
        next@.connection_status == prev@.connection_status,
        next@.error_message == prev@.error_message,
        next@.language == prev@.language,
        frame@.command == Some(Command::Start) ==> next@.is_listening,
        frame@.command == Some(Command::Stop) ==> !next@.is_listening,
        frame@.command is None ==> next@.is_listening == frame@.listening,
{
    let mut next = prev;
    next.apply(frame);
    next
}

/// Applies the frames to `start` in the order in which they stand.
pub fn apply_frames(start: ViewModel, frames: &Vec<TranscriptFrame>) -> (end: ViewModel)
    ensures
        end@ == reduced_all(start@, frame_views(frames@)),
        frames@.len() > 0 ==> end@.settled(),
{
    let ghost views = frame_views(frames@);
    let ghost first = start@;
    let mut model = start;
    let mut at: usize = 0;
    while at < frames.len()
        invariant
            at <= frames.len(),
            views == frame_views(frames@),
            model@ == reduced_all(first, views.take(at as int)),
            at > 0 ==> model@.settled(),
        decreases frames.len() - at,
    {
        let frame = frames[at].duplicate();
        assert(views.take(at + 1).drop_last() =~= views.take(at as int));
        assert(views.take(at + 1).last() == frames@[at as int]@);
        model.apply(frame);
        at = at + 1;
    }
    assert(views.take(at as int) =~= views);
    model
}

/// A directive decides the listening state whatever the frame's own flag
/// says: `start` turns it on and `stop` turns it off.
pub proof fn lemma_command_precedence(prev: ViewModelView, frame: FrameView)
    ensures
        frame.command == Some(Command::Start) ==> reduced(prev, frame).is_listening,
        frame.command == Some(Command::Stop) ==> !reduced(prev, frame).is_listening,
        frame.command is None ==> reduced(prev, frame).is_listening == frame.listening,
{
}

/// The reducer is total: whatever the view model and the frame, the result
/// is settled, shows the frame, and keeps what the controller owns.
pub proof fn lemma_reducer_total(prev: ViewModelView, frame: FrameView)
    ensures
        reduced(prev, frame).settled(),
        reduced(prev, FrameView::empty()).transcript == FrameView::empty(),
        !reduced(prev, FrameView::empty()).is_listening,
        reduced(prev, frame).connection_status == prev.connection_status,
        reduced(prev, frame).error_message == prev.error_message,
        reduced(prev, frame).language == prev.language,
        reduced(prev, frame).transcript == frame,
{
}

/// Applying two frames in order is reducing twice, the first frame first.
pub proof fn lemma_two_frames_in_order(start: ViewModelView, first: FrameView, second: FrameView)
    ensures
        reduced_all(start, seq![first, second]) == reduced(reduced(start, first), second),
{
    let both = seq![first, second];
    assert(both.drop_last() =~= seq![first]);
    assert(seq![first].drop_last() =~= Seq::<FrameView>::empty());
    assert(reduced_all(start, Seq::<FrameView>::empty()) == start);
    assert(reduced_all(start, seq![first]) == reduced(start, first));
}

/// Applying one sequence of frames and then another is applying the two
/// joined: frames take effect in the order of arrival.
pub proof fn lemma_frames_in_order(
    start: ViewModelView,
    earlier: Seq<FrameView>,
    later: Seq<FrameView>,
)
    ensures
        reduced_all(start, earlier + later) == reduced_all(reduced_all(start, earlier), later),
    decreases later.len(),
{
    if later.len() == 0 {
        assert(earlier + later =~= earlier);
    } else {
        lemma_frames_in_order(start, earlier, later.drop_last());
        assert((earlier + later).drop_last() =~= earlier + later.drop_last());
        assert((earlier + later).last() == later.last());
    }
}

/// After any frames at all, the view model shows the last of them, and the
/// status, error message and language that it started with.
pub proof fn lemma_last_frame_shows(start: ViewModelView, frames: Seq<FrameView>)
    ensures
        frames.len() > 0 ==> reduced_all(start, frames).transcript == frames.last(),
        frames.len() > 0 ==> reduced_all(start, frames).is_listening
            == frames.last().listening_after(),
        reduced_all(start, frames).connection_status == start.connection_status,
        reduced_all(start, frames).error_message == start.error_message,
        reduced_all(start, frames).language == start.language,
    decreases frames.len(),
{
    if frames.len() > 0 {
        lemma_last_frame_shows(start, frames.drop_last());
    }
}

} // verus!
