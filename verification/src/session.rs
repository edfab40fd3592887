//! The session controller: the connection state machine, the handlers of the
//! user's intents, and the single place where the view model is written.
//!
//! The controller decides and the caller acts: every handler takes what
//! happened, moves the session on and says what is to be done next.

use vstd::prelude::*;
use crate::control::{
    control_outcome, control_result, descriptor_view, outcome_view, probe_outcome, probe_result,
    ControlOp, ProbeReply, ProbeReplyView, Reply, ReplyView, SessionError, SessionErrorView,
};
use crate::endpoint::{checked_address, parsed_url, WS_URL};
use crate::json::parsed_object;
use crate::model::{language_of_tag, reduced, Language, ViewModel, ViewModelView};
use crate::stream::{deliver, delivered, Delivery, DeliveryView, StreamItem, StreamItemView};
use crate::text::{begins_with, decimal_text, join, lemma_occurs_in_middle, occurs_in, text_view};
use crate::wire::{decoded, flags_only_object, lemma_flags_only_text_decodes, DecodeError};

verus! {

/// The phases of the connection.
#[derive(Clone, Debug, PartialEq, Eq)]
pub enum Phase {
    /// The window is not open yet.
    Idle,
    /// The status probe is under way.
    Probing,
    /// The service answered the probe and the stream is being opened.
    Opening,
    /// The stream is open and frames arrive.
    Streaming,
    /// The probe or the opening of the stream failed. Terminal.
    Failed(SessionError),
    /// The stream has ended. Terminal.
    Closed,
}

/// The mathematical value of a [`Phase`].
pub enum PhaseView {
    Idle,
    Probing,
    Opening,
    Streaming,
    Failed(SessionErrorView),
    Closed,
}

impl View for Phase {
    type V = PhaseView;

    open spec fn view(&self) -> PhaseView {
        match self {
            Phase::Idle => PhaseView::Idle,
            Phase::Probing => PhaseView::Probing,
            Phase::Opening => PhaseView::Opening,
            Phase::Streaming => PhaseView::Streaming,
            Phase::Failed(cause) => PhaseView::Failed(cause@),
            Phase::Closed => PhaseView::Closed,
        }
    }
}

impl PhaseView {
    /// Whether the phase is one that the connection never leaves.
    pub open spec fn is_terminal(self) -> bool {
        self is Failed || self is Closed
    }

    /// How far the connection has come: each phase lies after those of a
    /// lower rank.
    pub open spec fn rank(self) -> nat {
        match self {
            PhaseView::Idle => 0,
            PhaseView::Probing => 1,
            PhaseView::Opening => 2,
            PhaseView::Streaming => 3,
            PhaseView::Failed(_) => 4,
            PhaseView::Closed => 4,
        }
    }
}

/// What the user asks for with one of the two buttons.
#[derive(Clone, Copy, Debug, PartialEq, Eq, Structural)]
pub enum Intent {
    /// Start listening.
    Start,
    /// Stop listening.
    Stop,
}

impl Intent {
    /// The listening state that the user asks for.
    pub open spec fn wants_listening(self) -> bool {
        self is Start
    }

    /// The request that carries the intent to the service.
    pub open spec fn op_of(self) -> ControlOp {
        match self {
            Intent::Start => ControlOp::Start,
            Intent::Stop => ControlOp::Stop,
        }
    }

    /// The request that carries the intent to the service.
    pub fn op(self) -> (op: ControlOp)
        ensures
            op == self.op_of(),
    {
        match self {
            Intent::Start => ControlOp::Start,
            Intent::Stop => ControlOp::Stop,
        }
    }
}

/// What happened, as the caller reports it to the controller.
#[derive(Clone, Debug, PartialEq, Eq)]
pub enum Event {
    /// The window opened.
    WindowOpened,
    /// The status probe came back.
    ProbeReplied(ProbeReply),
    /// The stream was opened.
    StreamOpened,
    /// The stream could not be opened; the text says why.
    StreamRefused(String),
    /// The socket handed over an item.
    Received(StreamItem),
    /// The user pressed Start.
    StartPressed,
    /// The user pressed Stop.
    StopPressed,
    /// The start request came back.
    StartReplied(Reply),
    /// The stop request came back.
    StopReplied(Reply),
    /// The user chose a language.
    LanguageChosen(Language),
}

/// The mathematical value of an [`Event`].
pub enum EventView {
    WindowOpened,
    ProbeReplied(ProbeReplyView),
    StreamOpened,
    StreamRefused(Seq<char>),
    Received(StreamItemView),
    StartPressed,
    StopPressed,
    StartReplied(ReplyView),
    StopReplied(ReplyView),
    LanguageChosen(Language),
}

impl View for Event {
    type V = EventView;

    open spec fn view(&self) -> EventView {
        match self {
            Event::WindowOpened => EventView::WindowOpened,
            Event::ProbeReplied(reply) => EventView::ProbeReplied(reply@),
            Event::StreamOpened => EventView::StreamOpened,
            Event::StreamRefused(reason) => EventView::StreamRefused(reason@),
            Event::Received(item) => EventView::Received(item@),
            Event::StartPressed => EventView::StartPressed,
            Event::StopPressed => EventView::StopPressed,
            Event::StartReplied(reply) => EventView::StartReplied(reply@),
            Event::StopReplied(reply) => EventView::StopReplied(reply@),
            Event::LanguageChosen(language) => EventView::LanguageChosen(*language),
        }
    }
}

/// What the caller is to do next.
#[derive(Clone, Debug, PartialEq, Eq)]
pub enum Action {
    /// Nothing.
    Nothing,
    /// Make this request of the service and report the reply.
    Send(ControlOp),
    /// Open the stream at this address and report how that went.
    OpenStream(String),
    /// Log that a message of the stream was no frame.
    LogDecodeError(DecodeError),
}

/// The mathematical value of an [`Action`].
pub enum ActionView {
    Nothing,
    Send(ControlOp),
    OpenStream(Seq<char>),
    LogDecodeError(DecodeError),
}

impl View for Action {
    type V = ActionView;

    open spec fn view(&self) -> ActionView {
        match self {
            Action::Nothing => ActionView::Nothing,
            Action::Send(op) => ActionView::Send(*op),
            Action::OpenStream(address) => ActionView::OpenStream(address@),
            Action::LogDecodeError(fault) => ActionView::LogDecodeError(*fault),
        }
    }
}

/// The status while the service has not answered yet.
pub open spec fn connecting_text() -> Seq<char> {
    "Connecting\u{2026}"@
}

/// The status once the probe has been answered with `descriptor`.
pub open spec fn connected_text(descriptor: Seq<char>) -> Seq<char> {
    "Connected: "@ + descriptor
}

/// The status while frames arrive.
pub open spec fn streaming_text() -> Seq<char> {
    "Stream connected"@
}

/// The status once the stream has ended.
pub open spec fn disconnected_text() -> Seq<char> {
    "Disconnected"@
}

/// The status of a session that failed for `cause`.
pub open spec fn failed_text(cause: SessionErrorView) -> Seq<char> {
    "Error: "@ + cause.message() + " ("@ + hint_text() + ")"@
}

/// What a failed session tells the user to do.
pub open spec fn hint_text() -> Seq<char> {
    "make sure the service is running"@
}

/// The cause given where the stream's own address is no URL.
pub open spec fn bad_address_text() -> Seq<char> {
    "stream address is not a URL"@
}

/// The error message for an intent whose request failed for `cause`.
pub open spec fn failure_text(intent: Intent, cause: SessionErrorView) -> Seq<char> {
    match intent {
        Intent::Start => "Error starting recognition: "@ + cause.message(),
        Intent::Stop => "Error stopping recognition: "@ + cause.message(),
    }
}

/// The mathematical value of a [`Session`].
pub struct SessionView {
    /// The phase of the connection.
    pub phase: PhaseView,
    /// What the window shows.
    pub model: ViewModelView,
    /// The intent whose failure the error message reports, if any.
    pub failed_intent: Option<Intent>,
}

impl SessionView {
    /// The session of a window that is about to open.
    pub open spec fn initial() -> SessionView {
        SessionView {
            phase: PhaseView::Idle,
            model: ViewModelView {
                connection_status: connecting_text(),
                ..ViewModelView::initial()
            },
            failed_intent: None,
        }
    }

    /// The status agrees with the phase, and the error message is there
    /// exactly when a start or stop request is on record as failed.
    pub open spec fn wf(self) -> bool {
        &&& match self.phase {
            PhaseView::Idle => self.model.connection_status == connecting_text(),
            PhaseView::Probing => self.model.connection_status == connecting_text(),
            PhaseView::Opening => begins_with("Connected: "@, self.model.connection_status),
            PhaseView::Streaming => self.model.connection_status == streaming_text(),
            PhaseView::Failed(cause) => self.model.connection_status == failed_text(cause),
            PhaseView::Closed => self.model.connection_status == disconnected_text(),
        }
        &&& (self.failed_intent is Some <==> self.model.error_message.len() > 0)
    }

    /// The session with another status.
    pub open spec fn with_status(self, phase: PhaseView, status: Seq<char>) -> SessionView {
        SessionView {
            phase,
            model: ViewModelView { connection_status: status, ..self.model },
            ..self
        }
    }

    /// The session once it has failed for `cause`.
    pub open spec fn failed(self, cause: SessionErrorView) -> SessionView {
        self.with_status(PhaseView::Failed(cause), failed_text(cause))
    }

    /// The window opens: an idle session starts the probe.
    pub open spec fn window_opened(self) -> (SessionView, ActionView) {
        if self.phase is Idle {
            (SessionView { phase: PhaseView::Probing, ..self }, ActionView::Send(ControlOp::Probe))
        } else {
            (self, ActionView::Nothing)
        }
    }

    /// The probe comes back with `outcome`, and `address` is the stream's
    /// address where it is a URL: a probing session goes on to open the
    /// stream, or fails.
    pub open spec fn probed(
        self,
        outcome: Result<Seq<char>, SessionErrorView>,
        address: Option<Seq<char>>,
    ) -> (SessionView, ActionView) {
        if !(self.phase is Probing) {
            (self, ActionView::Nothing)
        } else {
            match outcome {
                Err(cause) => (self.failed(cause), ActionView::Nothing),
                Ok(descriptor) => match address {
                    None => (
                        self.failed(SessionErrorView::Transport(bad_address_text())),
                        ActionView::Nothing,
                    ),
                    Some(a) => (
                        self.with_status(PhaseView::Opening, connected_text(descriptor)),
                        ActionView::OpenStream(a),
                    ),
                },
            }
        }
    }

    /// The stream is open: an opening session streams.
    pub open spec fn stream_opened(self) -> (SessionView, ActionView) {
        if self.phase is Opening {
            (self.with_status(PhaseView::Streaming, streaming_text()), ActionView::Nothing)
        } else {
            (self, ActionView::Nothing)
        }
    }

    /// The stream could not be opened: an opening session fails.
    pub open spec fn stream_refused(self, reason: Seq<char>) -> (SessionView, ActionView) {
        if self.phase is Opening {
            (self.failed(SessionErrorView::Transport(reason)), ActionView::Nothing)
        } else {
            (self, ActionView::Nothing)
        }
    }

    /// The stream delivers: a streaming session applies a frame, has a fault
    /// logged and stays, or closes at the end of the stream.
    pub open spec fn received(self, delivery: DeliveryView) -> (SessionView, ActionView) {
        if !(self.phase is Streaming) {
            (self, ActionView::Nothing)
        } else {
            match delivery {
                DeliveryView::Frame(frame) => (
                    SessionView { model: reduced(self.model, frame), ..self },
                    ActionView::Nothing,
                ),
                DeliveryView::Malformed(fault) => (self, ActionView::LogDecodeError(fault)),
                DeliveryView::Ended(_) => (
                    self.with_status(PhaseView::Closed, disconnected_text()),
                    ActionView::Nothing,
                ),
                DeliveryView::Nothing => (self, ActionView::Nothing),
            }
        }
    }

    /// The user presses Start or Stop: the listening state is set at once,
    /// ahead of the service, and the request goes out.
    pub open spec fn pressed(self, intent: Intent) -> (SessionView, ActionView) {
        (
            SessionView {
                model: ViewModelView { is_listening: intent.wants_listening(), ..self.model },
                ..self
            },
            ActionView::Send(intent.op_of()),
        )
    }

    /// A start or stop request comes back: a failure is put into the error
    /// message, and a success clears the message if it reports a failure of
    /// the same intent. The listening state is not touched.
    pub open spec fn replied(self, intent: Intent, outcome: Result<(), SessionErrorView>) -> (
        SessionView,
        ActionView,
    ) {
        match outcome {
            Err(cause) => (
                SessionView {
                    model: ViewModelView {
                        error_message: failure_text(intent, cause),
                        ..self.model
                    },
                    failed_intent: Some(intent),
                    ..self
                },
                ActionView::Nothing,
            ),
            Ok(_) => if self.failed_intent == Some(intent) {
                (
                    SessionView {
                        model: ViewModelView { error_message: Seq::empty(), ..self.model },
                        failed_intent: None,
                        ..self
                    },
                    ActionView::Nothing,
                )
            } else {
                (self, ActionView::Nothing)
            },
        }
    }

    /// The user chooses a language.
    pub open spec fn language_chosen(self, language: Language) -> (SessionView, ActionView) {
        (
            SessionView { model: ViewModelView { language, ..self.model }, ..self },
            ActionView::Nothing,
        )
    }

    /// The session after an event, and what is to be done next.
    pub open spec fn stepped(self, event: EventView) -> (SessionView, ActionView) {
        match event {
            EventView::WindowOpened => self.window_opened(),
            EventView::ProbeReplied(reply) => self.probed(probe_result(reply), parsed_url(WS_URL@)),
            EventView::StreamOpened => self.stream_opened(),
            EventView::StreamRefused(reason) => self.stream_refused(reason),
            EventView::Received(item) => self.received(delivered(item)),
            EventView::StartPressed => self.pressed(Intent::Start),
            EventView::StopPressed => self.pressed(Intent::Stop),
            EventView::StartReplied(reply) => self.replied(Intent::Start, control_result(reply)),
            EventView::StopReplied(reply) => self.replied(Intent::Stop, control_result(reply)),
            EventView::LanguageChosen(language) => self.language_chosen(language),
        }
    }
}

/// The values of a run of events.
pub open spec fn event_views(events: Seq<Event>) -> Seq<EventView> {
    events.map_values(|event: Event| event@)
}

/// The values of a run of actions.
pub open spec fn action_views(actions: Seq<Action>) -> Seq<ActionView> {
    actions.map_values(|action: Action| action@)
}

/// The session after each event of a run in turn, first to last, and the
/// action that each called for.
pub open spec fn ran(start: SessionView, events: Seq<EventView>) -> (SessionView, Seq<ActionView>)
    decreases events.len(),
{
    if events.len() == 0 {
        (start, Seq::empty())
    } else {
        let before = ran(start, events.drop_last());
        let last = before.0.stepped(events.last());
        (last.0, before.1.push(last.1))
    }
}

/// The session controller. It alone writes the view model; the view reads it
/// through [`Session::model`].
#[derive(Clone, Debug, PartialEq, Eq)]
pub struct Session {
    phase: Phase,
    model: ViewModel,
    failed_intent: Option<Intent>,
}

impl View for Session {
    type V = SessionView;

    closed spec fn view(&self) -> SessionView {
        SessionView {
            phase: self.phase@,
            model: self.model@,
            failed_intent: self.failed_intent,
        }
    }
}

impl Default for Session {
    /// The session of a window that is about to open.
    fn default() -> (session: Session)
        ensures
            session@ == SessionView::initial(),
    {
        Session::new()
    }
}

impl Session {
    /// The session of a window that is about to open: idle, with the status
    /// that says so.
    pub fn new() -> (session: Session)
        ensures
            session@ == SessionView::initial(),
            session@.wf(),
    {
        let mut model = ViewModel::new();
        model.connection_status = "Connecting\u{2026}".to_owned();
        Session { phase: Phase::Idle, model, failed_intent: None }
    }

    /// The phase of the connection.
    pub fn phase(&self) -> (phase: &Phase)
        ensures
            phase@ == self@.phase,
    {
        &self.phase
    }

    /// What the window shows.
    pub fn model(&self) -> (model: &ViewModel)
        ensures
            model@ == self@.model,
    {
        &self.model
    }

    /// The intent whose failure the error message reports, if any.
    pub fn failed_intent(&self) -> (intent: Option<Intent>)
        ensures
            intent == self@.failed_intent,
    {
        self.failed_intent
    }

    /// Whether the connection has reached a phase that it never leaves.
    pub fn is_terminal(&self) -> (terminal: bool)
        ensures
            terminal == self@.phase.is_terminal(),
    {
        match self.phase {
            Phase::Failed(_) => true,
            Phase::Closed => true,
            _ => false,
        }
    }

    fn fail(&mut self, cause: SessionError)
        ensures
            final(self)@ == old(self)@.failed(cause@),
    {
        let words: String = cause.message();
        let mut status: String = join("Error: ", words.as_str());
        status.append(" (");
        status.append("make sure the service is running");
        status.append(")");
        self.model.connection_status = status;
        self.phase = Phase::Failed(cause);
    }

    /// The window opened.
    pub fn on_window_open(&mut self) -> (action: Action)
        ensures
            (final(self)@, action@) == old(self)@.window_opened(),
    {
        match self.phase {
            Phase::Idle => {
                self.phase = Phase::Probing;
                Action::Send(ControlOp::Probe)
            },
            _ => Action::Nothing,
        }
    }

    /// The probe came back with `outcome`; `address` is the address at which
    /// the stream is to be opened, or `None` where there is none to open it
    /// at.
    pub fn on_probe_outcome(
        &mut self,
        outcome: Result<String, SessionError>,
        address: Option<String>,
    ) -> (action: Action)
        ensures
            (final(self)@, action@) == old(self)@.probed(
                descriptor_view(outcome),
                text_view(address),
            ),
    {
        match self.phase {
            Phase::Probing => {},
            _ => {
                return Action::Nothing;
            },
        }
        match outcome {
            Err(cause) => {
                self.fail(cause);
                Action::Nothing
            },
            Ok(descriptor) => match address {
                None => {
                    self.fail(SessionError::Transport("stream address is not a URL".to_owned()));
                    Action::Nothing
                },
                Some(a) => {
                    self.model.connection_status = join("Connected: ", descriptor.as_str());
                    self.phase = Phase::Opening;
                    Action::OpenStream(a)
                },
            },
        }
    }

    /// The probe came back with `reply`.
    pub fn on_probe_reply(&mut self, reply: &ProbeReply) -> (action: Action)
        ensures
            (final(self)@, action@) == old(self)@.probed(probe_result(reply@), parsed_url(WS_URL@)),
    {
        match self.phase {
            Phase::Probing => {},
            _ => {
                return Action::Nothing;
            },
        }
        let outcome = probe_outcome(reply);
        let address = checked_address(WS_URL);
        self.on_probe_outcome(outcome, address)
    }

    /// The stream was opened.
    pub fn on_stream_opened(&mut self) -> (action: Action)
        ensures
            (final(self)@, action@) == old(self)@.stream_opened(),
    {
        match self.phase {
            Phase::Opening => {
                self.model.connection_status = "Stream connected".to_owned();
                self.phase = Phase::Streaming;
            },
            _ => {},
        }
        Action::Nothing
    }

    /// The stream could not be opened, for `reason`.
    pub fn on_stream_refused(&mut self, reason: &str) -> (action: Action)
        ensures
            (final(self)@, action@) == old(self)@.stream_refused(reason@),
    {
        match self.phase {
            Phase::Opening => {
                self.fail(SessionError::Transport(reason.to_owned()));
            },
            _ => {},
        }
        Action::Nothing
    }

    /// The stream delivered.
    pub fn on_delivery(&mut self, delivery: Delivery) -> (action: Action)
        ensures
            (final(self)@, action@) == old(self)@.received(delivery@),
    {
        match self.phase {
            Phase::Streaming => {},
            _ => {
                return Action::Nothing;
            },
        }
        match delivery {
            Delivery::Frame(frame) => {
                self.model.apply(frame);
                Action::Nothing
            },
            Delivery::Malformed(fault) => Action::LogDecodeError(fault),
            Delivery::Ended(_) => {
                self.model.connection_status = "Disconnected".to_owned();
                self.phase = Phase::Closed;
                Action::Nothing
            },
            Delivery::Nothing => Action::Nothing,
        }
    }

    /// The socket handed over `item`.
    pub fn on_stream_item(&mut self, item: &StreamItem) -> (action: Action)
        ensures
            (final(self)@, action@) == old(self)@.received(delivered(item@)),
    {
        match self.phase {
            Phase::Streaming => {},
            _ => {
                return Action::Nothing;
            },
        }
        self.on_delivery(deliver(item))
    }

    /// The user pressed Start.
    pub fn on_start(&mut self) -> (action: Action)
        ensures
            (final(self)@, action@) == old(self)@.pressed(Intent::Start),
    {
        self.model.is_listening = true;
        Action::Send(Intent::Start.op())
    }

    /// The user pressed Stop.
    pub fn on_stop(&mut self) -> (action: Action)
        ensures
            (final(self)@, action@) == old(self)@.pressed(Intent::Stop),
    {
        self.model.is_listening = false;
        Action::Send(Intent::Stop.op())
    }

    fn record(&mut self, intent: Intent, outcome: Result<(), SessionError>) -> (action: Action)
        ensures
            (final(self)@, action@) == old(self)@.replied(intent, outcome_view(outcome)),
    {
        match outcome {
            Err(cause) => {
                let words: String = cause.message();
                self.model.error_message = match intent {
                    Intent::Start => join("Error starting recognition: ", words.as_str()),
                    Intent::Stop => join("Error stopping recognition: ", words.as_str()),
                };
                self.failed_intent = Some(intent);
            },
            Ok(_) => {
                let same: bool = match (self.failed_intent, intent) {
                    (Some(Intent::Start), Intent::Start) => true,
                    (Some(Intent::Stop), Intent::Stop) => true,
                    _ => false,
                };
                if same {
                    self.model.error_message = String::new();
                    self.failed_intent = None;
                }
            },
        }
        Action::Nothing
    }

    /// The start request ended with `outcome`.
    pub fn on_start_outcome(&mut self, outcome: Result<(), SessionError>) -> (action: Action)
        ensures
            (final(self)@, action@) == old(self)@.replied(
                Intent::Start,
                outcome_view(outcome),
            ),
    {
        self.record(Intent::Start, outcome)
    }

    /// The stop request ended with `outcome`.
    pub fn on_stop_outcome(&mut self, outcome: Result<(), SessionError>) -> (action: Action)
        ensures
            (final(self)@, action@) == old(self)@.replied(
                Intent::Stop,
                outcome_view(outcome),
            ),
    {
        self.record(Intent::Stop, outcome)
    }

    /// The start request came back with `reply`.
    pub fn on_start_reply(&mut self, reply: &Reply) -> (action: Action)
        ensures
            (final(self)@, action@) == old(self)@.replied(Intent::Start, control_result(reply@)),
    {
        self.record(Intent::Start, control_outcome(reply))
    }

    /// The stop request came back with `reply`.
    pub fn on_stop_reply(&mut self, reply: &Reply) -> (action: Action)
        ensures
            (final(self)@, action@) == old(self)@.replied(Intent::Stop, control_result(reply@)),
    {
        self.record(Intent::Stop, control_outcome(reply))
    }

    /// The user chose `language`.
    pub fn choose_language(&mut self, language: Language) -> (action: Action)
        ensures
            (final(self)@, action@) == old(self)@.language_chosen(language),
    {
        self.model.language = language;
        Action::Nothing
    }

    /// The selector reports the tag that the user chose. A tag that names
    /// none of the five languages changes nothing.
    pub fn on_language_change(&mut self, tag: &str) -> (action: Action)
        ensures
            action@ == ActionView::Nothing,
            final(self)@ == match language_of_tag(tag@) {
                Some(language) => old(self)@.language_chosen(language).0,
                None => old(self)@,
            },
    {
        match Language::from_tag(tag) {
            Some(language) => self.choose_language(language),
            None => Action::Nothing,
        }
    }

    /// Moves the session on by one event and says what is to be done next.
    /// Every event is accepted in every phase.
    pub fn step(&mut self, event: &Event) -> (action: Action)
        ensures
            (final(self)@, action@) == old(self)@.stepped(event@),
            old(self)@.wf() ==> final(self)@.wf(),
    {
        proof {
            if self@.wf() {
                lemma_step_keeps_wf(self@, event@);
            }
        }
        match event {
            Event::WindowOpened => self.on_window_open(),
            Event::ProbeReplied(reply) => self.on_probe_reply(reply),
            Event::StreamOpened => self.on_stream_opened(),
            Event::StreamRefused(reason) => self.on_stream_refused(reason.as_str()),
            Event::Received(item) => self.on_stream_item(item),
            Event::StartPressed => self.on_start(),
            Event::StopPressed => self.on_stop(),
            Event::StartReplied(reply) => self.on_start_reply(reply),
            Event::StopReplied(reply) => self.on_stop_reply(reply),
            Event::LanguageChosen(language) => self.choose_language(*language),
        }
    }

    /// Moves the session on by each event of a run, in the order in which
    /// they stand, and gives the action that each called for.
    pub fn run(&mut self, events: &Vec<Event>) -> (actions: Vec<Action>)
        ensures
            (final(self)@, action_views(actions@)) == ran(old(self)@, event_views(events@)),
            actions@.len() == events@.len(),
            old(self)@.wf() ==> final(self)@.wf(),
    {
        let ghost views = event_views(events@);
        let ghost first = self@;
        let mut actions: Vec<Action> = Vec::new();
        let mut at: usize = 0;
        assert(views.take(0) =~= Seq::<EventView>::empty());
        assert(action_views(actions@) =~= Seq::<ActionView>::empty());
        while at < events.len()
            invariant
                at <= events.len(),
                views == event_views(events@),
                actions@.len() == at,
                (self@, action_views(actions@)) == ran(first, views.take(at as int)),
                first.wf() ==> self@.wf(),
            decreases events.len() - at,
        {
            let ghost before = actions@;
            let action = self.step(&events[at]);
            actions.push(action);
            proof {
                assert(views.take(at + 1).drop_last() =~= views.take(at as int));
                assert(views.take(at + 1).last() == events@[at as int]@);
                assert(action_views(actions@) =~= action_views(before).push(action@));
            }
            at = at + 1;
        }
        assert(views.take(at as int) =~= views);
        actions
    }
}

/// A text is not empty if something not empty stands at its head.
proof fn lemma_headed_text_nonempty(head: Seq<char>, tail: Seq<char>)
    requires
        head.len() > 0,
    ensures
        (head + tail).len() > 0,
        begins_with(head, head + tail),
{
    assert((head + tail).subrange(0, head.len() as int) =~= head);
}

/// Every step keeps the status in agreement with the phase, and the error
/// message in agreement with the record of the failed request.
pub proof fn lemma_step_keeps_wf(session: SessionView, event: EventView)
    requires
        session.wf(),
    ensures
        session.stepped(event).0.wf(),
{
    reveal_strlit("Connected: ");
    reveal_strlit("Error starting recognition: ");
    reveal_strlit("Error stopping recognition: ");
    let next = session.stepped(event).0;
    match event {
        EventView::ProbeReplied(reply) => {
            match probe_result(reply) {
                Ok(descriptor) => {
                    lemma_headed_text_nonempty("Connected: "@, descriptor);
                },
                Err(_) => {},
            }
        },
        EventView::StartReplied(reply) => {
            match control_result(reply) {
                Err(cause) => {
                    lemma_headed_text_nonempty("Error starting recognition: "@, cause.message());
                },
                Ok(_) => {},
            }
        },
        EventView::StopReplied(reply) => {
            match control_result(reply) {
                Err(cause) => {
                    lemma_headed_text_nonempty("Error stopping recognition: "@, cause.message());
                },
                Ok(_) => {},
            }
        },
        _ => {},
    }
}

/// A run keeps what every step keeps.
pub proof fn lemma_run_keeps_wf(start: SessionView, events: Seq<EventView>)
    requires
        start.wf(),
    ensures
        ran(start, events).0.wf(),
        ran(start, events).1.len() == events.len(),
    decreases events.len(),
{
    if events.len() > 0 {
        lemma_run_keeps_wf(start, events.drop_last());
        lemma_step_keeps_wf(ran(start, events.drop_last()).0, events.last());
    }
}

/// Running one sequence of events and then another is running the two
/// joined: the controller takes events in the order in which they come.
pub proof fn lemma_run_in_order(start: SessionView, earlier: Seq<EventView>, later: Seq<EventView>)
    ensures
        ran(start, earlier + later).0 == ran(ran(start, earlier).0, later).0,
        ran(start, earlier + later).1 == ran(start, earlier).1 + ran(
            ran(start, earlier).0,
            later,
        ).1,
    decreases later.len(),
{
    let middle = ran(start, earlier);
    if later.len() == 0 {
        assert(earlier + later =~= earlier);
        assert(middle.1 + Seq::<ActionView>::empty() =~= middle.1);
    } else {
        lemma_run_in_order(start, earlier, later.drop_last());
        assert((earlier + later).drop_last() =~= earlier + later.drop_last());
        assert((earlier + later).last() == later.last());
        let before = ran(middle.0, later.drop_last());
        let last = before.0.stepped(later.last());
        assert((middle.1 + before.1).push(last.1) =~= middle.1 + before.1.push(last.1));
    }
}

/// A start or stop request that fails leaves an error message that is not
/// empty, and leaves the phase, the status and the listening state as they
/// were: the press is not taken back.
pub proof fn lemma_control_failure_surfaces(session: SessionView, intent: Intent, reply: ReplyView)
    requires
        control_result(reply) is Err,
    ensures
        ({
            let next = session.replied(intent, control_result(reply)).0;
            &&& next.model.error_message == failure_text(intent, control_result(reply)->Err_0)
            &&& next.model.error_message.len() > 0
            &&& next.failed_intent == Some(intent)
            &&& next.model.connection_status == session.model.connection_status
            &&& next.phase == session.phase
            &&& next.model.is_listening == session.model.is_listening
            &&& next.model.transcript == session.model.transcript
        }),
        session.stepped(EventView::StartReplied(reply)).0 == session.replied(
            Intent::Start,
            control_result(reply),
        ).0,
        session.stepped(EventView::StopReplied(reply)).0 == session.replied(
            Intent::Stop,
            control_result(reply),
        ).0,
{
    reveal_strlit("Error starting recognition: ");
    reveal_strlit("Error stopping recognition: ");
    let cause = control_result(reply)->Err_0;
    lemma_headed_text_nonempty("Error starting recognition: "@, cause.message());
    lemma_headed_text_nonempty("Error stopping recognition: "@, cause.message());
}

/// The error message of a request that was refused with a status holds that
/// status in decimal.
pub proof fn lemma_refusal_names_status(intent: Intent, status: u16)
    ensures
        occurs_in(
            decimal_text(status as nat),
            failure_text(intent, SessionErrorView::Control { status }),
        ),
{
    let number = decimal_text(status as nat);
    let cause = SessionErrorView::Control { status };
    let head = match intent {
        Intent::Start => "Error starting recognition: "@ + "Server returned error: "@,
        Intent::Stop => "Error stopping recognition: "@ + "Server returned error: "@,
    };
    lemma_occurs_in_middle(head, number, Seq::empty());
    assert(head + number + Seq::<char>::empty() =~= failure_text(intent, cause));
}

/// The status of a failed session begins with `Error` and tells the user to
/// make sure that the service is running.
pub proof fn lemma_failed_status_reads(cause: SessionErrorView)
    ensures
        begins_with("Error"@, failed_text(cause)),
        occurs_in(hint_text(), failed_text(cause)),
{
    reveal_strlit("Error");
    reveal_strlit("Error: ");
    let status = failed_text(cause);
    assert(status.subrange(0, 5) =~= "Error"@);
    lemma_occurs_in_middle("Error: "@ + cause.message() + " ("@, hint_text(), ")"@);
}

/// A probe that fails, or a stream that cannot be opened, ends the session
/// in the failed phase with the failed status, asks for nothing more, and
/// touches neither the error message nor the listening state.
pub proof fn lemma_fatal_failure_surfaces(session: SessionView, event: EventView)
    requires
        match event {
            EventView::ProbeReplied(reply) => session.phase is Probing && (probe_result(reply) is Err
                || parsed_url(WS_URL@) is None),
            EventView::StreamRefused(_) => session.phase is Opening,
            _ => false,
        },
    ensures
        ({
            let (next, action) = session.stepped(event);
            &&& next.phase is Failed
            &&& next.model.connection_status == failed_text(next.phase->Failed_0)
            &&& begins_with("Error"@, next.model.connection_status)
            &&& occurs_in(hint_text(), next.model.connection_status)
            &&& next.model.error_message == session.model.error_message
            &&& next.failed_intent == session.failed_intent
            &&& next.model.is_listening == session.model.is_listening
            &&& next.model.transcript == session.model.transcript
            &&& action == ActionView::Nothing
        }),
        event matches EventView::StreamRefused(reason) ==> session.stepped(event).0.phase
            == PhaseView::Failed(SessionErrorView::Transport(reason)),
        event matches EventView::ProbeReplied(reply) ==> (probe_result(reply) matches Err(cause)
            ==> session.stepped(event).0.phase == PhaseView::Failed(cause)),
{
    let next = session.stepped(event).0;
    lemma_failed_status_reads(next.phase->Failed_0);
}

/// A session that has failed or closed stays as it is whatever the
/// connection reports; only the user's own intents still reach the view
/// model, and they leave phase and status alone.
pub proof fn lemma_terminal_phases_stay(session: SessionView, event: EventView)
    requires
        session.phase.is_terminal(),
    ensures
        session.stepped(event).0.phase == session.phase,
        session.stepped(event).0.model.connection_status == session.model.connection_status,
        session.stepped(event).0.model.transcript == session.model.transcript,
        (event is WindowOpened || event is ProbeReplied || event is StreamOpened
            || event is StreamRefused || event is Received) ==> session.stepped(event) == (
            session,
            ActionView::Nothing,
        ),
{
}

/// While the session streams, a frame that arrives is authoritative: the
/// view model after it is the reducer's, so the listening state is the
/// frame's, whatever a press had set it to.
pub proof fn lemma_frame_is_authoritative(session: SessionView, text: Seq<char>)
    requires
        session.phase is Streaming,
        decoded(text) is Ok,
    ensures
        ({
            let frame = decoded(text)->Ok_0;
            let (next, action) = session.stepped(EventView::Received(StreamItemView::Text(text)));
            &&& next.model == reduced(session.model, frame)
            &&& next.model.is_listening == frame.listening_after()
            &&& next.phase == session.phase
            &&& next.failed_intent == session.failed_intent
            &&& action == ActionView::Nothing
        }),
{
}

/// While the session streams, a text that is no frame changes nothing and
/// is logged; the session goes on streaming.
pub proof fn lemma_fault_is_skipped(session: SessionView, text: Seq<char>)
    requires
        session.phase is Streaming,
        decoded(text) is Err,
    ensures
        session.stepped(EventView::Received(StreamItemView::Text(text))) == (
            session,
            ActionView::LogDecodeError(decoded(text)->Err_0),
        ),
{
}

/// Two frames that arrive one after the other reach the view model in that
/// order: the result is the reducer's for the first, then for the second.
pub proof fn lemma_frames_reach_model_in_order(
    session: SessionView,
    first: Seq<char>,
    second: Seq<char>,
)
    requires
        session.phase is Streaming,
        decoded(first) is Ok,
        decoded(second) is Ok,
    ensures
        ran(
            session,
            seq![
                EventView::Received(StreamItemView::Text(first)),
                EventView::Received(StreamItemView::Text(second)),
            ],
        ).0.model == reduced(
            reduced(session.model, decoded(first)->Ok_0),
            decoded(second)->Ok_0,
        ),
{
    let one = EventView::Received(StreamItemView::Text(first));
    let two = EventView::Received(StreamItemView::Text(second));
    let both = seq![one, two];
    assert(both.drop_last() =~= seq![one]);
    assert(seq![one].drop_last() =~= Seq::<EventView>::empty());
    assert(ran(session, Seq::<EventView>::empty()).0 == session);
    assert(ran(session, seq![one]).0 == session.stepped(one).0);
    assert(ran(session, both).0 == session.stepped(one).0.stepped(two).0);
}

/// While the session streams, a frame whose wire object sets only the two
/// flags is applied, and the transcript then shows an empty preview and an
/// empty note.
pub proof fn lemma_flags_only_frame_shows_empty_texts(
    session: SessionView,
    text: Seq<char>,
    listening: bool,
    no_match: bool,
)
    requires
        session.phase is Streaming,
        parsed_object(text) == Some(flags_only_object(listening, no_match)),
    ensures
        ({
            let next = session.stepped(EventView::Received(StreamItemView::Text(text))).0;
            &&& next.model.transcript.preview == Seq::<char>::empty()
            &&& next.model.transcript.note == Seq::<char>::empty()
            &&& next.model.transcript.listening == listening
            &&& next.model.transcript.no_match == no_match
            &&& next.model.transcript.command is None
            &&& next.model.is_listening == listening
        }),
{
    lemma_flags_only_text_decodes(text, listening, no_match);
}

/// How many times a run of actions asks for the stream to be opened.
pub open spec fn streams_opened(actions: Seq<ActionView>) -> nat
    decreases actions.len(),
{
    if actions.len() == 0 {
        0
    } else if actions.last() is OpenStream {
        streams_opened(actions.drop_last()) + 1
    } else {
        streams_opened(actions.drop_last())
    }
}

/// The connection only moves forward: a step leaves the phase as it is or
/// takes it to a later one. The probe is asked for only on leaving the idle
/// phase, and the stream only on going from probing to opening.
pub proof fn lemma_phase_only_advances(session: SessionView, event: EventView)
    ensures
        ({
            let (next, action) = session.stepped(event);
            &&& next.phase.rank() >= session.phase.rank()
            &&& next.phase.rank() == session.phase.rank() ==> next.phase == session.phase
            &&& action == ActionView::Send(ControlOp::Probe) ==> session.phase is Idle
                && next.phase is Probing
            &&& action is OpenStream ==> session.phase is Probing && next.phase is Opening
        }),
{
}

/// A run never takes the connection back to an earlier phase.
pub proof fn lemma_run_only_advances(start: SessionView, events: Seq<EventView>)
    ensures
        ran(start, events).0.phase.rank() >= start.phase.rank(),
    decreases events.len(),
{
    if events.len() > 0 {
        lemma_run_only_advances(start, events.drop_last());
        lemma_phase_only_advances(ran(start, events.drop_last()).0, events.last());
    }
}

/// Whatever is reported and in whatever order, a session asks for the stream
/// to be opened at most once, and never once it has got as far as opening
/// it.
pub proof fn lemma_at_most_one_stream(start: SessionView, events: Seq<EventView>)
    ensures
        streams_opened(ran(start, events).1) <= 1,
        start.phase.rank() >= 2 ==> streams_opened(ran(start, events).1) == 0,
        ran(start, events).0.phase.rank() < 2 ==> streams_opened(ran(start, events).1) == 0,
    decreases events.len(),
{
    if events.len() > 0 {
        let before = ran(start, events.drop_last());
        let last = before.0.stepped(events.last());
        lemma_at_most_one_stream(start, events.drop_last());
        lemma_run_only_advances(start, events.drop_last());
        lemma_phase_only_advances(before.0, events.last());
        assert(before.1.push(last.1).drop_last() =~= before.1);
    }
}

} // verus!
