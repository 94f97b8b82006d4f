//! A running session: what it starts with, where its input goes, and what it does upon every
//! interruption, text and message of the speech recogniser.
use crate::config::Modes;
use crate::error::{ErrorView, SdkError};
use crate::event::{
    EventView, InputView, PipelineEvent, PipelineInputEvent, TranscriptData,
};
use crate::hearing::{
    filler, filler_char, is_filler, lowercase, lowercased, user_says, AcousticState, MoodView,
    ShiftOperands, Shifts, SttMessage, SttView,
};
use crate::text::{trim, trimmed};
use tonic::Status;
use vstd::prelude::*;
use vstd::string::*;

verus! {

/// How long after the start of a session the dialog service is woken.
pub const WAKE_UP_DELAY_MS: u64 = 500;

/// The text that wakes the dialog service. It is the same in every language; the service greets in
/// the language of its prompt.
pub open spec fn wake_up_words() -> Seq<char> {
    "<SYSTEM_EVENT: CALL_CONNECTED>"@
}

/// A text that is to come in as if it were typed, after a delay.
#[derive(Debug, Clone)]
pub struct WakeUp {
    pub delay_ms: u64,
    pub text: String,
}

/// Where an input goes.
#[derive(Debug, Clone)]
pub enum RoutedInput {
    /// To the speech recogniser.
    Recognise(Vec<u8>),
    /// To the session, as a text.
    Trigger(String),
    /// Nowhere.
    Drop,
}

/// Where an input goes, as a model value.
pub enum RoutedView {
    Recognise(Seq<u8>),
    Trigger(Seq<char>),
    Drop,
}

impl View for RoutedInput {
    type V = RoutedView;

    open spec fn view(&self) -> RoutedView {
        match self {
            RoutedInput::Recognise(chunk) => RoutedView::Recognise(chunk@),
            RoutedInput::Trigger(text) => RoutedView::Trigger(text@),
            RoutedInput::Drop => RoutedView::Drop,
        }
    }
}

/// Texts go to the session in every mode; audio goes to the recogniser where the session listens.
pub open spec fn route(modes: Modes, input: InputView) -> RoutedView {
    match input {
        InputView::Audio(chunk) => if modes.listens() {
            RoutedView::Recognise(chunk)
        } else {
            RoutedView::Drop
        },
        InputView::Text(text) => RoutedView::Trigger(text),
    }
}

/// What happens to a session.
#[derive(Debug)]
pub enum SessionEvent {
    /// The voice detector heard the user start to speak.
    Interrupt,
    /// A text came in.
    TextTrigger(String),
    /// The speech recogniser sent a message; the shifts are those that `shift_operands` asks for.
    Heard(SttMessage, Shifts),
    /// The call to the speech recogniser or its stream failed.
    SttFailed(Status),
    /// The stream of the speech recogniser ended.
    SttEnded,
}

/// What happens to a session, as a model value.
pub enum SessionEventView {
    Interrupt,
    TextTrigger(Seq<char>),
    Heard(SttView, Shifts),
    SttFailed(Status),
    SttEnded,
}

impl View for SessionEvent {
    type V = SessionEventView;

    open spec fn view(&self) -> SessionEventView {
        match self {
            SessionEvent::Interrupt => SessionEventView::Interrupt,
            SessionEvent::TextTrigger(text) => SessionEventView::TextTrigger(text@),
            SessionEvent::Heard(msg, shifts) => SessionEventView::Heard(msg@, *shifts),
            SessionEvent::SttFailed(status) => SessionEventView::SttFailed(*status),
            SessionEvent::SttEnded => SessionEventView::SttEnded,
        }
    }
}

/// What a session does.
#[derive(Debug)]
pub enum SessionAction {
    /// Interrupt all turns and sentences that are running.
    CancelTasks,
    /// Report an event.
    Emit(PipelineEvent),
    /// Start a turn of the dialog with a text of the user.
    StartDialog(String),
    /// Start to speak a text.
    StartSpeech(String),
    /// End the session with an error.
    Fail(SdkError),
}

/// What a session does, as a model value.
pub enum ActionView {
    CancelTasks,
    Emit(EventView),
    StartDialog(Seq<char>),
    StartSpeech(Seq<char>),
    Fail(ErrorView),
}

impl View for SessionAction {
    type V = ActionView;

    open spec fn view(&self) -> ActionView {
        match self {
            SessionAction::CancelTasks => ActionView::CancelTasks,
            SessionAction::Emit(event) => ActionView::Emit(event@),
            SessionAction::StartDialog(text) => ActionView::StartDialog(text@),
            SessionAction::StartSpeech(text) => ActionView::StartSpeech(text@),
            SessionAction::Fail(e) => ActionView::Fail(e@),
        }
    }
}

/// A list of actions as a model value.
pub open spec fn action_views(actions: Seq<SessionAction>) -> Seq<ActionView> {
    actions.map_values(|a: SessionAction| a@)
}

/// A session as a model value.
pub struct SessionView {
    pub modes: Modes,
    pub session_id: Seq<char>,
    pub mood: MoodView,
}

/// The cut through everything that is being said: running tasks are interrupted and what they have
/// put out is cleared away.
pub open spec fn barge_in() -> Seq<ActionView> {
    seq![ActionView::CancelTasks, ActionView::Emit(EventView::ClearBuffer)]
}

/// Whether a message is to be passed over: a final text that is a mere filler, by its lower-case
/// form `lowered`.
pub open spec fn passed_over(msg: SttView, lowered: Seq<char>) -> bool {
    let text = trimmed(msg.transcription);
    msg.is_final && text.len() > 0 && filler(text, lowered)
}

impl SessionView {
    /// A session in which nothing has happened yet.
    pub open spec fn fresh(modes: Modes, session_id: Seq<char>) -> SessionView {
        SessionView { modes, session_id, mood: MoodView::unheard() }
    }

    /// The text to wake the dialog service with and the delay before it, if it is to be woken.
    pub open spec fn waking(self) -> Option<(int, Seq<char>)> {
        if self.modes.speak_only || self.modes.listen_only {
            None
        } else {
            Some((WAKE_UP_DELAY_MS as int, wake_up_words()))
        }
    }

    /// The report of a change of mood, if a message is one.
    pub open spec fn mood_report(self, msg: SttView, shifts: Shifts) -> Seq<ActionView> {
        if self.mood.shifted(msg, shifts.arousal) {
            seq![
                ActionView::Emit(
                    EventView::AcousticMoodShifted {
                        session_id: self.session_id,
                        previous_mood: self.mood.mood,
                        current_mood: msg.emotion,
                        arousal_shift: shifts.arousal,
                        valence_shift: shifts.valence,
                        speaker_id: msg.speaker_id,
                        speaker_vec: msg.speaker_vec,
                    },
                ),
            ]
        } else {
            Seq::empty()
        }
    }

    /// The answer to a message: a text that is still growing cuts through what is being said, a
    /// final one starts a turn; neither where the session only listens.
    pub open spec fn reply(self, msg: SttView) -> Seq<ActionView> {
        let text = trimmed(msg.transcription);
        if text.len() == 0 || self.modes.listen_only {
            Seq::empty()
        } else if msg.is_final {
            seq![ActionView::StartDialog(text)]
        } else {
            barge_in()
        }
    }

    /// What a session does upon a message whose trimmed text has the lower-case form `lowered`.
    pub open spec fn hear(self, msg: SttView, shifts: Shifts, lowered: Seq<char>) -> Seq<ActionView> {
        if passed_over(msg, lowered) {
            Seq::empty()
        } else {
            seq![
                ActionView::Emit(
                    EventView::Transcript(user_says(msg, trimmed(msg.transcription))),
                ),
            ] + self.mood_report(msg, shifts) + self.reply(msg)
        }
    }

    /// The session after such a message.
    pub open spec fn heard(self, msg: SttView, lowered: Seq<char>) -> SessionView {
        if passed_over(msg, lowered) {
            self
        } else {
            SessionView { mood: self.mood.after(msg), ..self }
        }
    }

    /// What a session does upon a text: everything that is being said is cut, and the text is
    /// spoken or answered.
    pub open spec fn take_text(self, text: Seq<char>) -> Seq<ActionView> {
        barge_in().push(
            if self.modes.speak_only {
                ActionView::StartSpeech(text)
            } else {
                ActionView::StartDialog(text)
            },
        )
    }

    /// What a session does upon an event.
    pub open spec fn step(self, event: SessionEventView) -> Seq<ActionView> {
        match event {
            SessionEventView::Interrupt => barge_in(),
            SessionEventView::TextTrigger(text) => self.take_text(text),
            SessionEventView::Heard(msg, shifts) => self.hear(
                msg,
                shifts,
                lowercased(trimmed(msg.transcription)),
            ),
            SessionEventView::SttFailed(status) => seq![
                ActionView::Fail(ErrorView::GrpcError(status)),
            ],
            SessionEventView::SttEnded => Seq::empty(),
        }
    }

    /// The session after an event.
    pub open spec fn after(self, event: SessionEventView) -> SessionView {
        match event {
            SessionEventView::Heard(msg, _) => self.heard(
                msg,
                lowercased(trimmed(msg.transcription)),
            ),
            _ => self,
        }
    }
}

/// A session of the pipeline.
#[derive(Debug)]
pub struct PipelineSession {
    modes: Modes,
    session_id: String,
    acoustic_state: AcousticState,
}

impl View for PipelineSession {
    type V = SessionView;

    closed spec fn view(&self) -> SessionView {
        SessionView {
            modes: self.modes,
            session_id: self.session_id@,
            mood: self.acoustic_state@,
        }
    }
}

impl PipelineSession {
    /// A session in which nothing has happened yet.
    pub fn new(modes: Modes, session_id: String) -> (r: PipelineSession)
        ensures
            r@ == SessionView::fresh(modes, session_id@),
    {
        PipelineSession { modes, session_id, acoustic_state: AcousticState::new() }
    }

    /// The text to wake the dialog service with, unless the session only listens or only speaks.
    pub fn wake_up(&self) -> (r: Option<WakeUp>)
        ensures
            r is Some <==> !self@.modes.speak_only && !self@.modes.listen_only,
            r matches Some(w) ==> w.delay_ms == WAKE_UP_DELAY_MS && w.text@ == wake_up_words(),
            (match r {
                Some(w) => Some((w.delay_ms as int, w.text@)),
                None => None,
            }) == self@.waking(),
    {
        if !self.modes.speak_only && !self.modes.listen_only {
            Some(
                WakeUp {
                    delay_ms: WAKE_UP_DELAY_MS,
                    text: "<SYSTEM_EVENT: CALL_CONNECTED>".to_string(),
                },
            )
        } else {
            None
        }
    }

    /// Tells whether a stream to the speech recogniser is to be opened.
    pub fn listens(&self) -> (r: bool)
        ensures
            r == self@.modes.listens(),
    {
        !self.modes.speak_only && !self.modes.chat_only
    }

    /// Says where an input goes.
    pub fn route_input(&self, input: PipelineInputEvent) -> (r: RoutedInput)
        ensures
            r@ == route(self@.modes, input@),
    {
        match input {
            PipelineInputEvent::Audio(chunk) => {
                if self.listens() {
                    RoutedInput::Recognise(chunk)
                } else {
                    RoutedInput::Drop
                }
            },
            PipelineInputEvent::Text(text) => RoutedInput::Trigger(text),
        }
    }

    /// What is to be subtracted before a message is handed to `step`.
    pub fn shift_operands(&self, msg: &SttMessage) -> (r: ShiftOperands)
        ensures
            r == self@.mood.operands(msg@),
    {
        self.acoustic_state.shift_operands(msg)
    }

    /// Takes a message of the speech recogniser whose trimmed text has the lower-case form
    /// `lowered`.
    pub fn hear(&mut self, msg: SttMessage, shifts: Shifts, lowered: &str) -> (r: Vec<SessionAction>)
        ensures
            action_views(r@) == old(self)@.hear(msg@, shifts, lowered@),
            final(self)@ == old(self)@.heard(msg@, lowered@),
    {
        let ghost before = self@;
        let ghost seen = msg@;
        let mut actions: Vec<SessionAction> = Vec::new();
        let text = trim(msg.partial_transcription.as_str()).to_string();
        if msg.is_final && !text.as_str().is_empty() && is_filler(text.as_str(), lowered) {
            assert(action_views(actions@) =~= Seq::<ActionView>::empty());
            return actions;
        }
        let shifted = self.acoustic_state.is_shifted(&msg, shifts.arousal);
        let previous_mood = self.acoustic_state.current_mood.clone();
        self.acoustic_state.update(&msg);
        let is_final = msg.is_final;
        let current_mood = msg.emotion_proxy.clone();
        let speaker_id = msg.speaker_id.clone();
        let speaker_vec = msg.speaker_vec.clone();
        assert(speaker_vec@ =~= msg.speaker_vec@);
        let report = TranscriptData {
            text: text.clone(),
            is_final,
            sender: "USER".to_string(),
            emotion: msg.emotion_proxy,
            gender: msg.gender_proxy,
            arousal: msg.arousal,
            valence: msg.valence,
            speaker_id: msg.speaker_id,
            speaker_vec: msg.speaker_vec,
            words: msg.words,
        };
        actions.push(SessionAction::Emit(PipelineEvent::Transcript(report)));
        if shifted {
            actions.push(
                SessionAction::Emit(
                    PipelineEvent::AcousticMoodShifted {
                        session_id: self.session_id.clone(),
                        previous_mood,
                        current_mood,
                        arousal_shift: shifts.arousal,
                        valence_shift: shifts.valence,
                        speaker_id,
                        speaker_vec,
                    },
                ),
            );
        }
        if !text.as_str().is_empty() && !self.modes.listen_only {
            if is_final {
                actions.push(SessionAction::StartDialog(text));
            } else {
                actions.push(SessionAction::CancelTasks);
                actions.push(SessionAction::Emit(PipelineEvent::ClearBuffer));
            }
        }
        assert(action_views(actions@) =~= before.hear(seen, shifts, lowered@));
        actions
    }

    /// Takes an event and says what to do about it, in order.
    pub fn step(&mut self, event: SessionEvent) -> (r: Vec<SessionAction>)
        ensures
            action_views(r@) == old(self)@.step(event@),
            final(self)@ == old(self)@.after(event@),
    {
        let mut actions: Vec<SessionAction> = Vec::new();
        match event {
            SessionEvent::Interrupt => {
                actions.push(SessionAction::CancelTasks);
                actions.push(SessionAction::Emit(PipelineEvent::ClearBuffer));
                assert(action_views(actions@) =~= barge_in());
                actions
            },
            SessionEvent::TextTrigger(text) => {
                let ghost words = text@;
                actions.push(SessionAction::CancelTasks);
                actions.push(SessionAction::Emit(PipelineEvent::ClearBuffer));
                if self.modes.speak_only {
                    actions.push(SessionAction::StartSpeech(text));
                } else {
                    actions.push(SessionAction::StartDialog(text));
                }
                assert(action_views(actions@) =~= self@.take_text(words));
                actions
            },
            SessionEvent::Heard(msg, shifts) => {
                let lowered = lowercase(trim(msg.partial_transcription.as_str()));
                self.hear(msg, shifts, lowered.as_str())
            },
            SessionEvent::SttFailed(status) => {
                actions.push(SessionAction::Fail(SdkError::GrpcError(status)));
                assert(action_views(actions@) =~= self@.step(event@));
                actions
            },
            SessionEvent::SttEnded => {
                assert(action_views(actions@) =~= Seq::<ActionView>::empty());
                actions
            },
        }
    }
}

/// A task that a session runs.
pub enum TaskView {
    Dialog(Seq<char>),
    Speech(Seq<char>),
}

/// The tasks that run once `actions` have been carried out, where `tasks` ran before.
pub open spec fn tasks_after(tasks: Seq<TaskView>, actions: Seq<ActionView>) -> Seq<TaskView>
    decreases actions.len(),
{
    if actions.len() == 0 {
        tasks
    } else {
        let before = tasks_after(tasks, actions.drop_last());
        match actions.last() {
            ActionView::CancelTasks => Seq::empty(),
            ActionView::StartDialog(text) => before.push(TaskView::Dialog(text)),
            ActionView::StartSpeech(text) => before.push(TaskView::Speech(text)),
            _ => before,
        }
    }
}

/// The session after a run of events.
pub open spec fn session_after(start: SessionView, events: Seq<SessionEventView>) -> SessionView
    decreases events.len(),
{
    if events.len() == 0 {
        start
    } else {
        session_after(start, events.drop_last()).after(events.last())
    }
}

/// Whether an event cuts through what is being said: an interruption, a text, or a text that is
/// being heard in a session that answers.
pub open spec fn cuts_in(session: SessionView, event: SessionEventView) -> bool {
    match event {
        SessionEventView::Interrupt => true,
        SessionEventView::TextTrigger(_) => true,
        SessionEventView::Heard(msg, _) => !msg.is_final && trimmed(msg.transcription).len() > 0
            && !session.modes.listen_only,
        _ => false,
    }
}

/// The task that an event starts, if it starts one.
pub open spec fn started_task(session: SessionView, event: SessionEventView) -> Option<TaskView> {
    match event {
        SessionEventView::TextTrigger(text) => Some(
            if session.modes.speak_only {
                TaskView::Speech(text)
            } else {
                TaskView::Dialog(text)
            },
        ),
        SessionEventView::Heard(msg, _) => {
            let text = trimmed(msg.transcription);
            if msg.is_final && text.len() > 0 && !filler(text, lowercased(text))
                && !session.modes.listen_only {
                Some(TaskView::Dialog(text))
            } else {
                None
            }
        },
        _ => None,
    }
}

/// A list of tasks with one more, if there is one.
pub open spec fn with_task(tasks: Seq<TaskView>, task: Option<TaskView>) -> Seq<TaskView> {
    match task {
        Some(t) => tasks.push(t),
        None => tasks,
    }
}

/// Carrying out one list of actions after another is carrying out both.
proof fn lemma_tasks_after_concat(
    tasks: Seq<TaskView>,
    first: Seq<ActionView>,
    second: Seq<ActionView>,
)
    ensures
        tasks_after(tasks, first + second) == tasks_after(tasks_after(tasks, first), second),
    decreases second.len(),
{
    if second.len() == 0 {
        assert(first + second =~= first);
    } else {
        assert((first + second).drop_last() =~= first + second.drop_last());
        lemma_tasks_after_concat(tasks, first, second.drop_last());
    }
}

/// One action on its own.
proof fn lemma_tasks_after_one(tasks: Seq<TaskView>, action: ActionView)
    ensures
        tasks_after(tasks, seq![action]) == match action {
            ActionView::CancelTasks => Seq::empty(),
            ActionView::StartDialog(text) => tasks.push(TaskView::Dialog(text)),
            ActionView::StartSpeech(text) => tasks.push(TaskView::Speech(text)),
            _ => tasks,
        },
{
    reveal_with_fuel(tasks_after, 2);
    assert(seq![action].drop_last() =~= Seq::<ActionView>::empty());
}

/// A cut leaves nothing running.
proof fn lemma_barge_in_cancels(tasks: Seq<TaskView>)
    ensures
        tasks_after(tasks, barge_in()) == Seq::<TaskView>::empty(),
{
    let clear = ActionView::Emit(EventView::ClearBuffer);
    assert(barge_in() =~= seq![ActionView::CancelTasks] + seq![clear]);
    lemma_tasks_after_concat(tasks, seq![ActionView::CancelTasks], seq![clear]);
    lemma_tasks_after_one(tasks, ActionView::CancelTasks);
    lemma_tasks_after_one(Seq::empty(), clear);
}

/// What runs after an event: an event that cuts in leaves nothing of what ran before, every other
/// event leaves all of it; to that comes the task that the event starts.
pub proof fn lemma_tasks_after_event(
    session: SessionView,
    event: SessionEventView,
    tasks: Seq<TaskView>,
)
    ensures
        tasks_after(tasks, session.step(event)) == with_task(
            if cuts_in(session, event) {
                Seq::empty()
            } else {
                tasks
            },
            started_task(session, event),
        ),
{
    lemma_barge_in_cancels(tasks);
    match event {
        SessionEventView::Interrupt => {},
        SessionEventView::TextTrigger(text) => {
            let start = session.take_text(text).last();
            assert(session.take_text(text) =~= barge_in() + seq![start]);
            lemma_tasks_after_concat(tasks, barge_in(), seq![start]);
            lemma_tasks_after_one(Seq::empty(), start);
        },
        SessionEventView::Heard(msg, shifts) => {
            let text = trimmed(msg.transcription);
            if !passed_over(msg, lowercased(text)) {
                let report = ActionView::Emit(EventView::Transcript(user_says(msg, text)));
                let mood = session.mood_report(msg, shifts);
                let reply = session.reply(msg);
                lemma_tasks_after_concat(tasks, seq![report] + mood, reply);
                lemma_tasks_after_concat(tasks, seq![report], mood);
                lemma_tasks_after_one(tasks, report);
                if mood.len() > 0 {
                    assert(mood =~= seq![mood[0]]);
                    lemma_tasks_after_one(tasks, mood[0]);
                }
                if reply.len() == 1 {
                    assert(reply =~= seq![reply[0]]);
                    lemma_tasks_after_one(tasks, reply[0]);
                }
            }
        },
        SessionEventView::SttFailed(status) => {
            lemma_tasks_after_one(tasks, ActionView::Fail(ErrorView::GrpcError(status)));
        },
        SessionEventView::SttEnded => {},
    }
}

/// The tasks that run after a run of events, where none ran before.
pub open spec fn running(start: SessionView, events: Seq<SessionEventView>) -> Seq<TaskView>
    decreases events.len(),
{
    if events.len() == 0 {
        Seq::empty()
    } else {
        let rest = events.drop_last();
        tasks_after(running(start, rest), session_after(start, rest).step(events.last()))
    }
}

/// The tasks that the events from position `from` on start, in their order.
pub open spec fn started_since(
    start: SessionView,
    events: Seq<SessionEventView>,
    from: int,
) -> Seq<TaskView>
    decreases events.len(),
{
    if events.len() <= from || events.len() == 0 {
        Seq::empty()
    } else {
        with_task(
            started_since(start, events.drop_last(), from),
            started_task(start, events.last()),
        )
    }
}

/// Once an event has cut in, only that event's task and those started later run: nothing that was
/// started before the last cut goes on.
pub proof fn lemma_only_tasks_since_last_cut_run(
    start: SessionView,
    events: Seq<SessionEventView>,
    cut: int,
)
    requires
        0 <= cut < events.len(),
        cuts_in(start, events[cut]),
        forall|i: int| cut < i < events.len() ==> !cuts_in(start, #[trigger] events[i]),
    ensures
        running(start, events) == started_since(start, events, cut),
    decreases events.len(),
{
    let rest = events.drop_last();
    let session = session_after(start, rest);
    lemma_session_keeps_identity(start, rest);
    lemma_tasks_after_event(session, events.last(), running(start, rest));
    if cut < rest.len() {
        assert(rest[cut] == events[cut]);
        assert forall|i: int| cut < i < rest.len() implies !cuts_in(start, #[trigger] rest[i]) by {
            assert(rest[i] == events[i]);
        }
        assert(!cuts_in(start, events[events.len() - 1]));
        lemma_only_tasks_since_last_cut_run(start, rest, cut);
    } else {
        assert(started_since(start, rest, cut) =~= Seq::<TaskView>::empty());
    }
}

/// Whenever an event cuts in, what has been put out is cleared away, and never otherwise.
pub proof fn lemma_cleared_when_cut(session: SessionView, event: SessionEventView)
    ensures
        cuts_in(session, event) <==> session.step(event).contains(
            ActionView::Emit(EventView::ClearBuffer),
        ),
        cuts_in(session, event) <==> session.step(event).contains(ActionView::CancelTasks),
{
    let clear = ActionView::Emit(EventView::ClearBuffer);
    let actions = session.step(event);
    match event {
        SessionEventView::Interrupt => {
            assert(actions[0] == ActionView::CancelTasks);
            assert(actions[1] == clear);
        },
        SessionEventView::TextTrigger(_) => {
            assert(actions[0] == ActionView::CancelTasks);
            assert(actions[1] == clear);
        },
        SessionEventView::Heard(msg, shifts) => {
            if cuts_in(session, event) {
                let n = 1 + session.mood_report(msg, shifts).len() as int;
                assert(actions[n] == ActionView::CancelTasks);
                assert(actions[n + 1] == clear);
            }
        },
        _ => {},
    }
}

/// A session that only listens reports what it hears and does nothing about it: it neither cuts in
/// nor answers.
pub proof fn lemma_listen_only_observes(session: SessionView, msg: SttView, shifts: Shifts)
    requires
        session.modes.listen_only,
    ensures
        forall|i: int|
            0 <= i < session.step(SessionEventView::Heard(msg, shifts)).len() ==> {
                let action = #[trigger] session.step(SessionEventView::Heard(msg, shifts))[i];
                ||| action is Emit && action->Emit_0 is Transcript
                ||| action is Emit && action->Emit_0 is AcousticMoodShifted
            },
{
}

/// A session that only speaks says every text as it came, never asks the dialog service about one,
/// and takes no audio.
pub proof fn lemma_speak_only_speaks(session: SessionView, text: Seq<char>, chunk: Seq<u8>)
    requires
        session.modes.speak_only,
    ensures
        session.step(SessionEventView::TextTrigger(text)) == barge_in().push(
            ActionView::StartSpeech(text),
        ),
        route(session.modes, InputView::Audio(chunk)) == RoutedView::Drop,
{
}

/// A session that only chats takes no audio.
pub proof fn lemma_chat_only_takes_no_audio(session: SessionView, chunk: Seq<u8>)
    requires
        session.modes.chat_only,
    ensures
        route(session.modes, InputView::Audio(chunk)) == RoutedView::Drop,
{
}

/// Every text that comes in reaches the session as it is, in every mode.
pub proof fn lemma_texts_pass(modes: Modes, text: Seq<char>)
    ensures
        route(modes, InputView::Text(text)) == RoutedView::Trigger(text),
{
}

/// The audio of a run of inputs, chunk by chunk, in their order.
pub open spec fn audio_inputs(inputs: Seq<InputView>) -> Seq<Seq<u8>>
    decreases inputs.len(),
{
    if inputs.len() == 0 {
        Seq::empty()
    } else {
        let before = audio_inputs(inputs.drop_last());
        match inputs.last() {
            InputView::Audio(chunk) => before.push(chunk),
            _ => before,
        }
    }
}

/// The texts of a run of inputs, in their order.
pub open spec fn text_inputs(inputs: Seq<InputView>) -> Seq<Seq<char>>
    decreases inputs.len(),
{
    if inputs.len() == 0 {
        Seq::empty()
    } else {
        let before = text_inputs(inputs.drop_last());
        match inputs.last() {
            InputView::Text(text) => before.push(text),
            _ => before,
        }
    }
}

/// The chunks that go to the speech recogniser over a run of inputs, in their order.
pub open spec fn recognised_chunks(modes: Modes, inputs: Seq<InputView>) -> Seq<Seq<u8>>
    decreases inputs.len(),
{
    if inputs.len() == 0 {
        Seq::empty()
    } else {
        let before = recognised_chunks(modes, inputs.drop_last());
        match route(modes, inputs.last()) {
            RoutedView::Recognise(chunk) => before.push(chunk),
            _ => before,
        }
    }
}

/// The texts that go to the session over a run of inputs, in their order.
pub open spec fn triggered_texts(modes: Modes, inputs: Seq<InputView>) -> Seq<Seq<char>>
    decreases inputs.len(),
{
    if inputs.len() == 0 {
        Seq::empty()
    } else {
        let before = triggered_texts(modes, inputs.drop_last());
        match route(modes, inputs.last()) {
            RoutedView::Trigger(text) => before.push(text),
            _ => before,
        }
    }
}

/// No input is lost, repeated or reordered: over a run of inputs the speech recogniser gets all the
/// audio where the session listens, chunk by chunk, and none of it otherwise; the session gets all
/// the texts. What happens to the session meanwhile does not change that.
pub proof fn lemma_routing_is_faithful(
    start: SessionView,
    events: Seq<SessionEventView>,
    inputs: Seq<InputView>,
)
    ensures
        recognised_chunks(session_after(start, events).modes, inputs) == (
        if start.modes.listens() {
            audio_inputs(inputs)
        } else {
            Seq::empty()
        }),
        triggered_texts(session_after(start, events).modes, inputs) == text_inputs(inputs),
    decreases inputs.len(),
{
    lemma_session_keeps_identity(start, events);
    if inputs.len() > 0 {
        lemma_routing_is_faithful(start, events, inputs.drop_last());
    }
}

/// A filler leaves no trace: nothing is reported, nothing is cut or started, and the mood stays.
pub proof fn lemma_filler_leaves_no_trace(session: SessionView, msg: SttView, shifts: Shifts)
    requires
        passed_over(msg, lowercased(trimmed(msg.transcription))),
    ensures
        session.step(SessionEventView::Heard(msg, shifts)) == Seq::<ActionView>::empty(),
        session.after(SessionEventView::Heard(msg, shifts)) == session,
{
}

/// A text with a single character that is no sound of a filler is never passed over, whatever its
/// lower-case form.
pub proof fn lemma_words_are_not_passed_over(msg: SttView, lowered: Seq<char>, i: int)
    requires
        0 <= i < trimmed(msg.transcription).len(),
        !filler_char(trimmed(msg.transcription)[i]),
    ensures
        !passed_over(msg, lowered),
{
}

/// Everything else that is heard is reported, first of all and once.
pub proof fn lemma_heard_is_reported(session: SessionView, msg: SttView, shifts: Shifts)
    requires
        !passed_over(msg, lowercased(trimmed(msg.transcription))),
    ensures
        ({
            let actions = session.step(SessionEventView::Heard(msg, shifts));
            &&& actions.len() > 0
            &&& actions[0] == ActionView::Emit(
                EventView::Transcript(user_says(msg, trimmed(msg.transcription))),
            )
            &&& forall|i: int|
                1 <= i < actions.len() ==> !(#[trigger] actions[i] is Emit
                    && actions[i]->Emit_0 is Transcript)
        }),
{
}

/// A session keeps its modes and its name.
pub proof fn lemma_session_keeps_identity(start: SessionView, events: Seq<SessionEventView>)
    ensures
        session_after(start, events).modes == start.modes,
        session_after(start, events).session_id == start.session_id,
    decreases events.len(),
{
    if events.len() > 0 {
        lemma_session_keeps_identity(start, events.drop_last());
    }
}

/// Whether the message at `i` is one that was heard, was not passed over, bears on the mood, and
/// is what the mood `mood` was taken from.
pub open spec fn gave_mood(events: Seq<SessionEventView>, i: int, mood: MoodView) -> bool {
    &&& 0 <= i < events.len()
    &&& events[i] matches SessionEventView::Heard(msg, _)
    &&& !passed_over(msg, lowercased(trimmed(msg.transcription)))
    &&& MoodView::bears(msg)
    &&& mood == MoodView::unheard().after(msg)
}

/// The mood of a session is that of the last message that bore on it, or, where none did, the one
/// before anything was heard.
pub proof fn lemma_mood_was_heard(
    modes: Modes,
    session_id: Seq<char>,
    events: Seq<SessionEventView>,
)
    ensures
        ({
            let mood = session_after(SessionView::fresh(modes, session_id), events).mood;
            ||| mood == MoodView::unheard() && forall|j: int|
                0 <= j < events.len() ==> !gives_mood(#[trigger] events[j])
            ||| exists|i: int|
                #[trigger] gave_mood(events, i, mood) && forall|j: int|
                    i < j < events.len() ==> !gives_mood(#[trigger] events[j])
        }),
    decreases events.len(),
{
    let start = SessionView::fresh(modes, session_id);
    if events.len() > 0 {
        let rest = events.drop_last();
        let n = events.len() - 1;
        let before = session_after(start, rest).mood;
        let mood = session_after(start, events).mood;
        lemma_mood_was_heard(modes, session_id, rest);
        if gives_mood(events[n]) {
            assert(gave_mood(events, n, mood));
        } else {
            assert(mood == before);
            if forall|j: int| 0 <= j < rest.len() ==> !gives_mood(#[trigger] rest[j]) {
                assert forall|j: int| 0 <= j < events.len() implies !gives_mood(
                    #[trigger] events[j],
                ) by {
                    if j < n {
                        assert(events[j] == rest[j]);
                    }
                }
            } else {
                let i = choose|i: int|
                    #[trigger] gave_mood(rest, i, mood) && forall|j: int|
                        i < j < rest.len() ==> !gives_mood(#[trigger] rest[j]);
                assert(gave_mood(events, i, mood));
                assert forall|j: int| i < j < events.len() implies !gives_mood(
                    #[trigger] events[j],
                ) by {
                    if j < n {
                        assert(events[j] == rest[j]);
                    }
                }
            }
        }
    }
}

/// Whether an event sets the mood.
pub open spec fn gives_mood(event: SessionEventView) -> bool {
    &&& event matches SessionEventView::Heard(msg, _)
    &&& !passed_over(msg, lowercased(trimmed(msg.transcription)))
    &&& MoodView::bears(msg)
}

/// A change of mood is reported only against an earlier message of the same speaker in the same
/// session: the last one that bore on the mood, whose emotion is the previous mood of the report.
pub proof fn lemma_mood_shift_has_a_past(
    modes: Modes,
    session_id: Seq<char>,
    events: Seq<SessionEventView>,
    msg: SttView,
    shifts: Shifts,
)
    requires
        session_after(SessionView::fresh(modes, session_id), events).mood_report(
            msg,
            shifts,
        ).len() > 0,
    ensures
        exists|i: int|
            0 <= i < events.len() && gives_mood(#[trigger] events[i]) && events[i]->Heard_0.speaker_id
                == msg.speaker_id && session_after(
                SessionView::fresh(modes, session_id),
                events,
            ).mood.mood == events[i]->Heard_0.emotion && forall|j: int|
                i < j < events.len() ==> !gives_mood(#[trigger] events[j]),
{
    lemma_mood_was_heard(modes, session_id, events);
    let mood = session_after(SessionView::fresh(modes, session_id), events).mood;
    crate::hearing::lemma_no_shift_before_first(msg, shifts.arousal);
    let i = choose|i: int|
        #[trigger] gave_mood(events, i, mood) && forall|j: int|
            i < j < events.len() ==> !gives_mood(#[trigger] events[j]);
    assert(gives_mood(events[i]));
}

/// A model action is of the kind of the action and shows what it holds.
pub proof fn lemma_action_view(a: SessionAction)
    ensures
        a is CancelTasks ==> a@ == ActionView::CancelTasks,
        a matches SessionAction::Emit(event) ==> a@ == ActionView::Emit(event@),
        a matches SessionAction::StartDialog(text) ==> a@ == ActionView::StartDialog(text@),
        a matches SessionAction::StartSpeech(text) ==> a@ == ActionView::StartSpeech(text@),
        a matches SessionAction::Fail(e) ==> a@ == ActionView::Fail(e@),
{
}

/// A model list of actions holds the actions one by one.
pub proof fn lemma_action_views(actions: Seq<SessionAction>)
    ensures
        action_views(actions).len() == actions.len(),
        forall|i: int| 0 <= i < actions.len() ==> #[trigger] action_views(actions)[i] == actions[i]@,
{
}

/// A model session event is of the kind of the event and shows what it holds.
pub proof fn lemma_session_event_view(e: SessionEvent)
    ensures
        e is Interrupt ==> e@ == SessionEventView::Interrupt,
        e matches SessionEvent::TextTrigger(text) ==> e@ == SessionEventView::TextTrigger(text@),
        e matches SessionEvent::Heard(msg, shifts) ==> e@ == SessionEventView::Heard(msg@, shifts),
        e matches SessionEvent::SttFailed(status) ==> e@ == SessionEventView::SttFailed(status),
        e is SttEnded ==> e@ == SessionEventView::SttEnded,
{
}

/// A model route is of the kind of the route and shows what it holds.
pub proof fn lemma_routed_view(r: RoutedInput)
    ensures
        r matches RoutedInput::Recognise(chunk) ==> r@ == RoutedView::Recognise(chunk@),
        r matches RoutedInput::Trigger(text) ==> r@ == RoutedView::Trigger(text@),
        r is Drop ==> r@ == RoutedView::Drop,
{
}

/// A session starts with the modes and the name that it is given, and with nothing heard.
pub proof fn lemma_session_starts_as_given(modes: Modes, session_id: Seq<char>)
    ensures
        SessionView::fresh(modes, session_id).modes == modes,
        SessionView::fresh(modes, session_id).session_id == session_id,
        SessionView::fresh(modes, session_id).mood.last_arousal.bits == 0,
        SessionView::fresh(modes, session_id).mood.last_valence.bits == 0,
        SessionView::fresh(modes, session_id).mood.mood == "neutral"@,
        SessionView::fresh(modes, session_id).mood.speaker_id == ""@,
{
}

/// Audio is taken exactly where the session neither only speaks nor only chats, and it is taken as
/// it came; the mode that only listens plays no part.
pub proof fn lemma_audio_is_taken_where_heard(modes: Modes, chunk: Seq<u8>)
    ensures
        !modes.speak_only && !modes.chat_only ==> route(modes, InputView::Audio(chunk))
            == RoutedView::Recognise(chunk),
        modes.speak_only || modes.chat_only ==> route(modes, InputView::Audio(chunk))
            == RoutedView::Drop,
        modes.listens() <==> !modes.speak_only && !modes.chat_only,
{
}

/// An interruption first cancels what runs and then clears what was put out, and does nothing else,
/// in every mode.
pub proof fn lemma_interruption_cancels_then_clears(session: SessionView)
    ensures
        ({
            let actions = session.step(SessionEventView::Interrupt);
            &&& actions.len() == 2
            &&& actions[0] == ActionView::CancelTasks
            &&& actions[1] == ActionView::Emit(EventView::ClearBuffer)
        }),
        session.after(SessionEventView::Interrupt) == session,
{
}

/// A text, whatever it holds, first cuts like an interruption; then exactly one task is started for
/// it as it came: it is spoken where the session only speaks, else the dialog is asked.
pub proof fn lemma_text_cuts_and_starts(session: SessionView, text: Seq<char>)
    ensures
        ({
            let actions = session.step(SessionEventView::TextTrigger(text));
            &&& actions.len() == 3
            &&& actions[0] == ActionView::CancelTasks
            &&& actions[1] == ActionView::Emit(EventView::ClearBuffer)
            &&& session.modes.speak_only ==> actions[2] == ActionView::StartSpeech(text)
            &&& !session.modes.speak_only ==> actions[2] == ActionView::StartDialog(text)
        }),
        session.after(SessionEventView::TextTrigger(text)) == session,
{
}

/// A failure of the recogniser ends the session with its status, and is all that ends one; the end
/// of its stream changes nothing.
pub proof fn lemma_only_recogniser_failure_ends_session(
    session: SessionView,
    event: SessionEventView,
    i: int,
)
    requires
        0 <= i < session.step(event).len(),
    ensures
        session.step(event)[i] is Fail <==> event is SttFailed,
        event matches SessionEventView::SttFailed(status) ==> session.step(event).len() == 1
            && session.step(event)[i] == ActionView::Fail(ErrorView::GrpcError(status)),
        !(event is SttEnded),
{
}

/// A failure of the recogniser is always answered, the end of its stream never is, and neither
/// changes the session.
pub proof fn lemma_end_of_recogniser(session: SessionView, status: Status)
    ensures
        session.step(SessionEventView::SttFailed(status)).len() == 1,
        session.after(SessionEventView::SttFailed(status)) == session,
        session.step(SessionEventView::SttEnded).len() == 0,
        session.after(SessionEventView::SttEnded) == session,
{
}

/// A message is passed over exactly where it is final, something is left of its text without the
/// white space round it, and that is a filler.
pub proof fn lemma_only_final_fillers_are_passed_over(msg: SttView, lowered: Seq<char>)
    ensures
        passed_over(msg, lowered) ==> msg.is_final && !crate::text::blank(msg.transcription)
            && filler(trimmed(msg.transcription), lowered),
        msg.is_final && !crate::text::blank(msg.transcription) && filler(
            trimmed(msg.transcription),
            lowered,
        ) ==> passed_over(msg, lowered),
{
    crate::text::lemma_trimmed_blank(msg.transcription);
}

/// A message that comes in is taken with the lower-case form of its text, the white space round it
/// cut off.
pub proof fn lemma_message_is_taken_by_its_text(session: SessionView, msg: SttView, shifts: Shifts)
    ensures
        session.step(SessionEventView::Heard(msg, shifts)) == session.hear(
            msg,
            shifts,
            lowercased(trimmed(msg.transcription)),
        ),
        session.after(SessionEventView::Heard(msg, shifts)) == session.heard(
            msg,
            lowercased(trimmed(msg.transcription)),
        ),
{
}

/// What is reported of a message that is not passed over is that message, field by field: its text
/// without the white space round it, whether it is final, and everything that came with it.
pub proof fn lemma_report_is_the_message(
    session: SessionView,
    msg: SttView,
    shifts: Shifts,
    lowered: Seq<char>,
)
    requires
        !passed_over(msg, lowered),
    ensures
        ({
            let actions = session.hear(msg, shifts, lowered);
            &&& actions.len() > 0
            &&& actions[0] is Emit
            &&& actions[0]->Emit_0 is Transcript
            &&& {
                let t = actions[0]->Emit_0->Transcript_0;
                &&& t.text == trimmed(msg.transcription)
                &&& t.is_final == msg.is_final
                &&& t.sender == "USER"@
                &&& t.emotion == msg.emotion
                &&& t.gender == msg.gender
                &&& t.arousal.bits == msg.arousal.bits
                &&& t.valence.bits == msg.valence.bits
                &&& t.speaker_id == msg.speaker_id
                &&& t.speaker_vec == msg.speaker_vec
                &&& t.words == msg.words
            }
        }),
{
}

/// A change of mood is reported once, directly behind the report of its message, with the session's
/// name, the mood before and after, the shifts as they were given, and the speaker; where there is
/// no change, none is reported.
pub proof fn lemma_mood_shift_is_reported(
    session: SessionView,
    msg: SttView,
    shifts: Shifts,
    lowered: Seq<char>,
)
    requires
        !passed_over(msg, lowered),
    ensures
        ({
            let actions = session.hear(msg, shifts, lowered);
            let shifted = session.mood.shifted(msg, shifts.arousal);
            &&& forall|i: int|
                0 <= i < actions.len() ==> (#[trigger] actions[i] is Emit
                    && actions[i]->Emit_0 is AcousticMoodShifted <==> shifted && i == 1)
            &&& shifted ==> {
                let e = actions[1]->Emit_0;
                &&& actions.len() > 1
                &&& e->session_id == session.session_id
                &&& e->previous_mood == session.mood.mood
                &&& e->current_mood == msg.emotion
                &&& e->arousal_shift.bits == shifts.arousal.bits
                &&& e->valence_shift.bits == shifts.valence.bits
                &&& e->AcousticMoodShifted_speaker_id == msg.speaker_id
                &&& e->AcousticMoodShifted_speaker_vec == msg.speaker_vec
            }
        }),
{
}

/// Of two final messages of one speaker, both with arousal, the second is reported as a change of
/// mood from the first exactly where the arousal went up or down by more than 0.15 or the emotion is
/// another.
pub proof fn lemma_second_message_shifts(
    session: SessionView,
    first: SttView,
    second: SttView,
    shifts: Shifts,
    lowered_first: Seq<char>,
    lowered_second: Seq<char>,
)
    requires
        !passed_over(first, lowered_first),
        !passed_over(second, lowered_second),
        first.is_final,
        second.is_final,
        0 < first.arousal.bits <= 0x7f80_0000,
        0 < second.arousal.bits <= 0x7f80_0000,
        first.speaker_id == second.speaker_id,
    ensures
        ({
            let actions = session.heard(first, lowered_first).hear(second, shifts, lowered_second);
            let reported = actions.len() > 1 && actions[1] is Emit
                && actions[1]->Emit_0 is AcousticMoodShifted;
            &&& reported <==> (0x3e19_999a < shifts.arousal.bits as int % 0x8000_0000 <= 0x7f80_0000
                || first.emotion != second.emotion)
            &&& reported ==> actions[1]->Emit_0->previous_mood == first.emotion
            &&& reported ==> actions[1]->Emit_0->current_mood == second.emotion
            &&& reported ==> actions[1]->Emit_0->session_id == session.session_id
        }),
{
    let between = session.heard(first, lowered_first);
    crate::hearing::lemma_mood_is_that_of_last_voiced(session.mood, first);
    crate::hearing::lemma_shift_is_complete(between.mood, second, shifts.arousal);
    lemma_mood_shift_is_reported(between, second, shifts, lowered_second);
}

/// What a session that answers does about a text that it hears, behind its reports: a final one
/// starts one turn with that text and cuts nothing, one that is still growing cuts and starts
/// nothing.
pub proof fn lemma_heard_text_is_answered(
    session: SessionView,
    msg: SttView,
    shifts: Shifts,
    lowered: Seq<char>,
)
    requires
        !passed_over(msg, lowered),
        trimmed(msg.transcription).len() > 0,
        !session.modes.listen_only,
    ensures
        ({
            let actions = session.hear(msg, shifts, lowered);
            let reports: int = if session.mood.shifted(msg, shifts.arousal) {
                2
            } else {
                1
            };
            &&& msg.is_final ==> actions.len() == reports + 1 && actions[reports]
                == ActionView::StartDialog(trimmed(msg.transcription))
            &&& !msg.is_final ==> actions.len() == reports + 2 && actions[reports]
                == ActionView::CancelTasks && actions[reports + 1] == ActionView::Emit(
                EventView::ClearBuffer,
            )
        }),
{
}

/// About silence, and in a session that only listens, nothing is done but to report.
pub proof fn lemma_silence_is_not_answered(
    session: SessionView,
    msg: SttView,
    shifts: Shifts,
    lowered: Seq<char>,
)
    requires
        !passed_over(msg, lowered),
        trimmed(msg.transcription).len() == 0 || session.modes.listen_only,
    ensures
        session.hear(msg, shifts, lowered).len() == if session.mood.shifted(msg, shifts.arousal) {
            2int
        } else {
            1int
        },
{
}

/// A final message with arousal that is not passed over sets the mood of the session, in every mode;
/// no other message changes the session, and none changes its modes or its name.
pub proof fn lemma_session_remembers_last_voiced(session: SessionView, msg: SttView, lowered: Seq<char>)
    ensures
        ({
            let later = session.heard(msg, lowered);
            let sets = !passed_over(msg, lowered) && msg.is_final && 0 < msg.arousal.bits
                <= 0x7f80_0000;
            &&& later.modes == session.modes
            &&& later.session_id == session.session_id
            &&& sets ==> {
                &&& later.mood.last_arousal.bits == msg.arousal.bits
                &&& later.mood.last_valence.bits == msg.valence.bits
                &&& later.mood.mood == msg.emotion
                &&& later.mood.speaker_id == msg.speaker_id
            }
            &&& !sets ==> later == session
        }),
{
    crate::hearing::lemma_mood_is_that_of_last_voiced(session.mood, msg);
}

/// What is passed over leaves no trace, whatever its lower-case form was taken to be.
pub proof fn lemma_passed_over_is_ignored(
    session: SessionView,
    msg: SttView,
    shifts: Shifts,
    lowered: Seq<char>,
)
    requires
        passed_over(msg, lowered),
    ensures
        session.hear(msg, shifts, lowered).len() == 0,
        session.heard(msg, lowered) == session,
{
}

/// The dialog service is woken half a second after the start, with the same words whatever the
/// session is called and whatever was heard, unless the session only speaks or only listens; a chat
/// is woken too.
pub proof fn lemma_dialog_is_woken(session: SessionView)
    ensures
        session.waking() is None <==> session.modes.speak_only || session.modes.listen_only,
        session.waking() matches Some(w) ==> w.0 == 500 && w.1
            == "<SYSTEM_EVENT: CALL_CONNECTED>"@,
{
}

}
