//! The rules of the view: what the window shows of a view model, and which
//! of its controls can be used. The view reads the view model and never
//! writes it.

use vstd::prelude::*;
use crate::model::{all_languages, Language, ViewModel, ViewModelView};
use crate::text::text_view;

verus! {

/// The title of the window.
pub const WINDOW_TITLE: &'static str = "Speak Notes";

/// The width of the window when it opens, in logical units.
pub const WINDOW_WIDTH: u32 = 1000;

/// The height of the window when it opens, in logical units.
pub const WINDOW_HEIGHT: u32 = 800;

/// Which of the two buttons can be pressed.
#[derive(Clone, Copy, Debug, PartialEq, Eq, Structural)]
pub struct Affordances {
    pub start_enabled: bool,
    pub stop_enabled: bool,
}

/// Start can be pressed while the service is not listening, and Stop while
/// it is.
pub open spec fn affordances_of(model: ViewModelView) -> Affordances {
    Affordances { start_enabled: !model.is_listening, stop_enabled: model.is_listening }
}

/// The error banner: the error message where there is one, and no banner
/// where the message is empty.
pub open spec fn banner_of(model: ViewModelView) -> Option<Seq<char>> {
    if model.error_message.len() == 0 {
        None
    } else {
        Some(model.error_message)
    }
}

/// What the window shows.
#[derive(Clone, Debug, PartialEq, Eq)]
pub struct Screen {
    /// The status banner, which is always there.
    pub status: String,
    /// The live preview.
    pub preview: String,
    /// The committed transcript, white space and all.
    pub note: String,
    /// The error banner, if there is one.
    pub error: Option<String>,
    /// Whether Start can be pressed.
    pub start_enabled: bool,
    /// Whether Stop can be pressed.
    pub stop_enabled: bool,
    /// The languages that the selector lists.
    pub languages: Vec<Language>,
    /// The language that the selector shows as chosen.
    pub language: Language,
}

/// The mathematical value of a [`Screen`].
pub struct ScreenView {
    pub status: Seq<char>,
    pub preview: Seq<char>,
    pub note: Seq<char>,
    pub error: Option<Seq<char>>,
    pub start_enabled: bool,
    pub stop_enabled: bool,
    pub languages: Seq<Language>,
    pub language: Language,
}

impl View for Screen {
    type V = ScreenView;

    open spec fn view(&self) -> ScreenView {
        ScreenView {
            status: self.status@,
            preview: self.preview@,
            note: self.note@,
            error: match self.error {
                Some(text) => Some(text@),
                None => None,
            },
            start_enabled: self.start_enabled,
            stop_enabled: self.stop_enabled,
            languages: self.languages@,
            language: self.language,
        }
    }
}

/// What the window shows of a view model: status, preview and note as they
/// are, the error banner only where there is a message, one of the two
/// buttons, and the five languages.
pub open spec fn rendered(model: ViewModelView) -> ScreenView {
    ScreenView {
        status: model.connection_status,
        preview: model.transcript.preview,
        note: model.transcript.note,
        error: banner_of(model),
        start_enabled: affordances_of(model).start_enabled,
        stop_enabled: affordances_of(model).stop_enabled,
        languages: all_languages(),
        language: model.language,
    }
}

/// Which of the two buttons can be pressed.
pub fn affordances(model: &ViewModel) -> (controls: Affordances)
    ensures
        controls == affordances_of(model@),
        controls.start_enabled != controls.stop_enabled,
{
    Affordances { start_enabled: !model.is_listening, stop_enabled: model.is_listening }
}

/// The error banner, if there is one.
pub fn error_banner(model: &ViewModel) -> (banner: Option<String>)
    ensures
        text_view(banner) == banner_of(model@),
{
    if model.error_message.as_str().is_empty() {
        None
    } else {
        Some(model.error_message.clone())
    }
}

/// What the window shows of a view model.
pub fn render(model: &ViewModel) -> (screen: Screen)
    ensures
        screen@ == rendered(model@),
{
    let controls = affordances(model);
    Screen {
        status: model.connection_status.clone(),
        preview: model.transcript.preview.clone(),
        note: model.transcript.note.clone(),
        error: error_banner(model),
        start_enabled: controls.start_enabled,
        stop_enabled: controls.stop_enabled,
        languages: Language::all(),
        language: model.language,
    }
}

/// Whatever the view model, exactly one of Start and Stop can be pressed:
/// Start when the service is not listening, Stop when it is.
pub proof fn lemma_exactly_one_button(model: ViewModelView)
    ensures
        affordances_of(model).start_enabled != affordances_of(model).stop_enabled,
        affordances_of(model).start_enabled == !model.is_listening,
        affordances_of(model).stop_enabled == model.is_listening,
        rendered(model).start_enabled != rendered(model).stop_enabled,
{
}

/// Whatever the view model, the selector lists exactly the five languages,
/// each once.
pub proof fn lemma_selector_lists_every_language(model: ViewModelView, language: Language)
    ensures
        rendered(model).languages.len() == 5,
        rendered(model).languages.contains(language),
        rendered(model).languages.no_duplicates(),
{
    let all = all_languages();
    assert(all[0] == Language::EnUs);
    assert(all[1] == Language::PtBr);
    assert(all[2] == Language::EsEs);
    assert(all[3] == Language::FrFr);
    assert(all[4] == Language::DeDe);
}

} // verus!
