//! One turn of the dialog: a user's text goes to the dialog service, its answer comes back in
//! chunks and leaves as whole sentences to speak, or as a growing chat text.
use crate::config::SdkConfig;
use crate::error::{outcome, ErrorView, SdkError};
use crate::event::{assistant_says, EventView, PipelineEvent, TranscriptData};
use crate::text::{
    blank, ends_with, lemma_trimmed_blank, lemma_trimmed_end, lemma_trimmed_end_of, trim, trim_end,
    trimmed_end, white_space,
};
use tonic::Status;
use vstd::prelude::*;
use vstd::string::*;
use vstd::utf8::encode_utf8;

verus! {

/// How many bytes a buffered text may hold before a space is enough to end it.
pub const LONG_SENTENCE_BYTES: usize = 160;

/// A mark that ends a sentence.
pub open spec fn ends_sentence(c: char) -> bool {
    c == '.' || c == '?' || c == '!'
}

/// Whether a text ends in a sentence mark, once the white space at its end is cut off, and that
/// white space ends in a space or a line break.
pub open spec fn ends_in_mark(buffer: Seq<char>) -> bool {
    let body = trimmed_end(buffer);
    &&& body.len() > 0
    &&& ends_sentence(body.last())
    &&& buffer.last() == ' ' || buffer.last() == '\n'
}

/// Whether a buffered text is to be spoken without waiting for more of it: it ends in a sentence
/// mark with white space behind it, or it is long and ends in a space.
pub open spec fn sentence_complete(buffer: Seq<char>) -> bool {
    ||| ends_in_mark(buffer)
    ||| buffer.len() > 0 && buffer.last() == ' ' && encode_utf8(buffer).len() > LONG_SENTENCE_BYTES
}

/// Tells whether a buffered text is to be spoken without waiting for more of it.
pub fn is_sentence_complete(buffer: &str) -> (r: bool)
    ensures
        r == sentence_complete(buffer@),
{
    let body = trim_end(buffer);
    let ends_with_major_punct = ends_with(body, '.') || ends_with(body, '?') || ends_with(
        body,
        '!',
    );
    let ends_with_space = ends_with(buffer, ' ');
    let ends_with_newline = ends_with(buffer, '\n');
    let is_too_long = buffer.as_bytes().len() > LONG_SENTENCE_BYTES;
    proof {
        lemma_trimmed_end(buffer@);
    }
    (ends_with_major_punct && (ends_with_space || ends_with_newline)) || (is_too_long
        && ends_with_space)
}

/// What a turn is opened with: who talks, in which language, under which prompt.
#[derive(Debug, Clone)]
pub struct ConversationConfig {
    pub session_id: String,
    pub user_id: String,
    pub language_code: String,
    pub system_prompt_id: String,
}

/// A message to the dialog service.
#[derive(Debug, Clone)]
pub enum DialogRequest {
    Config(ConversationConfig),
    TextInput(String),
    IsFinalInput(bool),
}

/// A message to the dialog service, as a model value.
pub enum DialogRequestView {
    Config {
        session_id: Seq<char>,
        user_id: Seq<char>,
        language_code: Seq<char>,
        system_prompt_id: Seq<char>,
    },
    TextInput(Seq<char>),
    IsFinalInput(bool),
}

impl View for DialogRequest {
    type V = DialogRequestView;

    open spec fn view(&self) -> DialogRequestView {
        match self {
            DialogRequest::Config(c) => DialogRequestView::Config {
                session_id: c.session_id@,
                user_id: c.user_id@,
                language_code: c.language_code@,
                system_prompt_id: c.system_prompt_id@,
            },
            DialogRequest::TextInput(text) => DialogRequestView::TextInput(text@),
            DialogRequest::IsFinalInput(b) => DialogRequestView::IsFinalInput(*b),
        }
    }
}

/// A list of messages as a model value.
pub open spec fn message_views(messages: Seq<DialogRequest>) -> Seq<DialogRequestView> {
    messages.map_values(|m: DialogRequest| m@)
}

/// What happens to a turn.
#[derive(Debug)]
pub enum DialogEvent {
    /// The next message to the service can be sent: the turn starts, or the one before is sent.
    Ready,
    /// A message to the service could not be sent.
    SendFailed,
    /// The stream to the service, closed behind the messages, has been answered.
    Opened,
    /// The turn was interrupted.
    Cancelled,
    /// A chunk of the answer came.
    TextResponse(String),
    /// The service says whether its answer is complete.
    IsFinalResponse(bool),
    /// A message came that holds neither.
    NoPayload,
    /// The call or its stream failed.
    Failed(Status),
    /// The stream ended.
    Ended,
    /// The sentence that was to be spoken has been, or could not be.
    Spoken(Result<(), SdkError>),
}

/// What happens to a turn, as a model value.
pub enum DialogEventView {
    Ready,
    SendFailed,
    Opened,
    Cancelled,
    TextResponse(Seq<char>),
    IsFinalResponse(bool),
    NoPayload,
    Failed(Status),
    Ended,
    Spoken(Result<(), ErrorView>),
}

impl View for DialogEvent {
    type V = DialogEventView;

    open spec fn view(&self) -> DialogEventView {
        match self {
            DialogEvent::Ready => DialogEventView::Ready,
            DialogEvent::SendFailed => DialogEventView::SendFailed,
            DialogEvent::Opened => DialogEventView::Opened,
            DialogEvent::Cancelled => DialogEventView::Cancelled,
            DialogEvent::TextResponse(text) => DialogEventView::TextResponse(text@),
            DialogEvent::IsFinalResponse(b) => DialogEventView::IsFinalResponse(*b),
            DialogEvent::NoPayload => DialogEventView::NoPayload,
            DialogEvent::Failed(status) => DialogEventView::Failed(*status),
            DialogEvent::Ended => DialogEventView::Ended,
            DialogEvent::Spoken(r) => DialogEventView::Spoken(outcome(*r)),
        }
    }
}

/// What a turn does next.
#[derive(Debug)]
pub enum DialogStep {
    /// Send a message to the service; whether that went well is the next event.
    Send(DialogRequest),
    /// Close the messages and call the service; how that went is the next event.
    Open,
    /// Wait for what the service sends, or for an interruption.
    Receive,
    /// Report an event, then wait in the same way.
    Emit(PipelineEvent),
    /// Speak a sentence; how that went is the next event.
    Speak(String),
    /// The turn is over.
    Finish(Result<(), SdkError>),
}

/// What a turn does next, as a model value.
pub enum DialogStepView {
    Send(DialogRequestView),
    Open,
    Receive,
    Emit(EventView),
    Speak(Seq<char>),
    Finish(Result<(), ErrorView>),
}

impl View for DialogStep {
    type V = DialogStepView;

    open spec fn view(&self) -> DialogStepView {
        match self {
            DialogStep::Send(message) => DialogStepView::Send(message@),
            DialogStep::Open => DialogStepView::Open,
            DialogStep::Receive => DialogStepView::Receive,
            DialogStep::Emit(event) => DialogStepView::Emit(event@),
            DialogStep::Speak(sentence) => DialogStepView::Speak(sentence@),
            DialogStep::Finish(r) => DialogStepView::Finish(outcome(*r)),
        }
    }
}

/// A turn of the dialog, from the first message on.
#[derive(Debug)]
pub struct DialogTurn {
    to_send: Vec<DialogRequest>,
    chat_only: bool,
    sentence_buffer: String,
    full_chat_text: String,
}

/// A turn as a model value.
#[verifier::ext_equal]
pub struct DialogView {
    /// The messages to the service that are still to be sent.
    pub to_send: Seq<DialogRequestView>,
    pub chat_only: bool,
    /// The part of the answer that is still to be spoken.
    pub sentence: Seq<char>,
    /// The answer so far, where it stays a chat text.
    pub chat: Seq<char>,
}

impl View for DialogTurn {
    type V = DialogView;

    closed spec fn view(&self) -> DialogView {
        DialogView {
            to_send: message_views(self.to_send@),
            chat_only: self.chat_only,
            sentence: self.sentence_buffer@,
            chat: self.full_chat_text@,
        }
    }
}

impl DialogView {
    /// A turn that has not been started yet.
    pub open spec fn fresh(chat_only: bool, to_send: Seq<DialogRequestView>) -> DialogView {
        DialogView { to_send, chat_only, sentence: Seq::empty(), chat: Seq::empty() }
    }

    /// The turn after an event.
    pub open spec fn after(self, event: DialogEventView) -> DialogView {
        match event {
            DialogEventView::Ready => if self.to_send.len() > 0 {
                DialogView { to_send: self.to_send.drop_first(), ..self }
            } else {
                self
            },
            DialogEventView::Cancelled => DialogView {
                sentence: Seq::empty(),
                chat: Seq::empty(),
                ..self
            },
            DialogEventView::TextResponse(chunk) => if self.chat_only {
                DialogView { chat: self.chat + chunk, ..self }
            } else if sentence_complete(self.sentence + chunk) {
                DialogView { sentence: Seq::empty(), ..self }
            } else {
                DialogView { sentence: self.sentence + chunk, ..self }
            },
            DialogEventView::IsFinalResponse(true) => if !self.chat_only && !blank(self.sentence) {
                DialogView { sentence: Seq::empty(), ..self }
            } else {
                self
            },
            _ => self,
        }
    }

    /// What a turn does upon an event.
    pub open spec fn step(self, event: DialogEventView) -> DialogStepView {
        match event {
            DialogEventView::Ready => if self.to_send.len() > 0 {
                DialogStepView::Send(self.to_send.first())
            } else {
                DialogStepView::Open
            },
            DialogEventView::Opened => DialogStepView::Receive,
            DialogEventView::SendFailed => DialogStepView::Finish(
                Err(ErrorView::Internal("Dialog channel closed early"@)),
            ),
            DialogEventView::Cancelled => DialogStepView::Finish(Ok(())),
            DialogEventView::TextResponse(chunk) => if self.chat_only {
                DialogStepView::Emit(EventView::Transcript(assistant_says(self.chat + chunk, false)))
            } else if sentence_complete(self.sentence + chunk) {
                DialogStepView::Speak(self.sentence + chunk)
            } else {
                DialogStepView::Receive
            },
            DialogEventView::IsFinalResponse(is_final) => if is_final && !self.chat_only && !blank(
                self.sentence,
            ) {
                DialogStepView::Speak(self.sentence)
            } else {
                DialogStepView::Receive
            },
            DialogEventView::NoPayload => DialogStepView::Receive,
            DialogEventView::Failed(status) => DialogStepView::Finish(
                Err(ErrorView::GrpcError(status)),
            ),
            DialogEventView::Ended => DialogStepView::Finish(Ok(())),
            DialogEventView::Spoken(r) => match r {
                Ok(_) => DialogStepView::Receive,
                Err(e) => DialogStepView::Finish(Err(e)),
            },
        }
    }
}

/// The messages that open a turn: the conversation's settings, the user's text, and the mark that
/// nothing more comes from the user.
pub open spec fn opening_messages(
    config: SdkConfig,
    session_id: Seq<char>,
    user_id: Seq<char>,
    input_text: Seq<char>,
) -> Seq<DialogRequestView> {
    seq![
        DialogRequestView::Config {
            session_id,
            user_id,
            language_code: config.language_code@,
            system_prompt_id: config.system_prompt_id@,
        },
        DialogRequestView::TextInput(input_text),
        DialogRequestView::IsFinalInput(true),
    ]
}

impl DialogTurn {
    /// A turn for a text of the user. Its first event is that the first message can be sent.
    pub fn new(
        config: &SdkConfig,
        session_id: String,
        user_id: String,
        input_text: String,
    ) -> (r: DialogTurn)
        ensures
            r@ == DialogView::fresh(
                config.chat_only_mode,
                opening_messages(*config, session_id@, user_id@, input_text@),
            ),
    {
        let mut to_send: Vec<DialogRequest> = Vec::new();
        to_send.push(
            DialogRequest::Config(
                ConversationConfig {
                    session_id,
                    user_id,
                    language_code: config.language_code.clone(),
                    system_prompt_id: config.system_prompt_id.clone(),
                },
            ),
        );
        to_send.push(DialogRequest::TextInput(input_text));
        to_send.push(DialogRequest::IsFinalInput(true));
        assert(message_views(to_send@) =~= opening_messages(
            *config,
            session_id@,
            user_id@,
            input_text@,
        ));
        DialogTurn {
            to_send,
            chat_only: config.chat_only_mode,
            sentence_buffer: String::new(),
            full_chat_text: String::new(),
        }
    }

    /// Takes an event and says what to do about it.
    pub fn step(&mut self, event: DialogEvent) -> (r: DialogStep)
        ensures
            r@ == old(self)@.step(event@),
            final(self)@ == old(self)@.after(event@),
    {
        match event {
            DialogEvent::Ready => {
                if self.to_send.len() > 0 {
                    let ghost waiting = self.to_send@;
                    let message = self.to_send.remove(0);
                    assert(message_views(self.to_send@) =~= message_views(waiting).drop_first());
                    DialogStep::Send(message)
                } else {
                    DialogStep::Open
                }
            },
            DialogEvent::Opened => DialogStep::Receive,
            DialogEvent::SendFailed => DialogStep::Finish(
                Err(SdkError::Internal("Dialog channel closed early".to_string())),
            ),
            DialogEvent::Cancelled => {
                self.sentence_buffer = String::new();
                self.full_chat_text = String::new();
                DialogStep::Finish(Ok(()))
            },
            DialogEvent::TextResponse(chunk) => {
                if self.chat_only {
                    self.full_chat_text.append(chunk.as_str());
                    DialogStep::Emit(
                        PipelineEvent::Transcript(
                            TranscriptData::assistant(self.full_chat_text.clone(), false),
                        ),
                    )
                } else {
                    self.sentence_buffer.append(chunk.as_str());
                    if is_sentence_complete(self.sentence_buffer.as_str()) {
                        let sentence = self.sentence_buffer.clone();
                        self.sentence_buffer = String::new();
                        DialogStep::Speak(sentence)
                    } else {
                        DialogStep::Receive
                    }
                }
            },
            DialogEvent::IsFinalResponse(is_final) => {
                proof {
                    lemma_trimmed_blank(self.sentence_buffer@);
                }
                if is_final && !self.chat_only && !trim(self.sentence_buffer.as_str()).is_empty() {
                    let sentence = self.sentence_buffer.clone();
                    self.sentence_buffer = String::new();
                    DialogStep::Speak(sentence)
                } else {
                    DialogStep::Receive
                }
            },
            DialogEvent::NoPayload => DialogStep::Receive,
            DialogEvent::Failed(status) => DialogStep::Finish(Err(SdkError::GrpcError(status))),
            DialogEvent::Ended => DialogStep::Finish(Ok(())),
            DialogEvent::Spoken(r) => match r {
                Ok(_) => DialogStep::Receive,
                Err(e) => DialogStep::Finish(Err(e)),
            },
        }
    }
}

/// The turn after a run of events.
pub open spec fn turn_after(start: DialogView, events: Seq<DialogEventView>) -> DialogView
    decreases events.len(),
{
    if events.len() == 0 {
        start
    } else {
        turn_after(start, events.drop_last()).after(events.last())
    }
}

/// The text of all chunks of a run of events, in their order.
pub open spec fn received_text(events: Seq<DialogEventView>) -> Seq<char>
    decreases events.len(),
{
    if events.len() == 0 {
        Seq::empty()
    } else {
        let before = received_text(events.drop_last());
        match events.last() {
            DialogEventView::TextResponse(chunk) => before + chunk,
            _ => before,
        }
    }
}

/// The text of all sentences that a turn speaks over a run of events, in their order.
pub open spec fn spoken_text(start: DialogView, events: Seq<DialogEventView>) -> Seq<char>
    decreases events.len(),
{
    if events.len() == 0 {
        Seq::empty()
    } else {
        let before = spoken_text(start, events.drop_last());
        match turn_after(start, events.drop_last()).step(events.last()) {
            DialogStepView::Speak(sentence) => before + sentence,
            _ => before,
        }
    }
}

/// Whether a run of events holds no interruption.
pub open spec fn uninterrupted(events: Seq<DialogEventView>) -> bool {
    forall|i: int| 0 <= i < events.len() ==> !(#[trigger] events[i] is Cancelled)
}

/// A turn never changes its mode.
pub proof fn lemma_turn_keeps_mode(start: DialogView, events: Seq<DialogEventView>)
    ensures
        turn_after(start, events).chat_only == start.chat_only,
    decreases events.len(),
{
    if events.len() > 0 {
        lemma_turn_keeps_mode(start, events.drop_last());
    }
}

/// Nothing of the answer is lost, repeated or reordered on its way to the voice: in a spoken turn
/// that is not interrupted, what has been spoken, followed by what is still held back, is what the
/// turn held at first followed by what has come in.
pub proof fn lemma_speech_is_faithful(start: DialogView, events: Seq<DialogEventView>)
    requires
        !start.chat_only,
        uninterrupted(events),
    ensures
        spoken_text(start, events) + turn_after(start, events).sentence == start.sentence
            + received_text(events),
    decreases events.len(),
{
    if events.len() == 0 {
        assert(spoken_text(start, events) + start.sentence =~= start.sentence + received_text(
            events,
        ));
    } else {
        let rest = events.drop_last();
        assert(!(events[events.len() - 1] is Cancelled));
        assert forall|i: int| 0 <= i < rest.len() implies !(#[trigger] rest[i] is Cancelled) by {
            assert(rest[i] == events[i]);
        }
        lemma_speech_is_faithful(start, rest);
        lemma_turn_keeps_mode(start, rest);
        let t = turn_after(start, rest);
        let spoken = spoken_text(start, rest);
        match events.last() {
            DialogEventView::TextResponse(chunk) => {
                assert(spoken + (t.sentence + chunk) =~= (spoken + t.sentence) + chunk);
                assert((start.sentence + received_text(rest)) + chunk =~= start.sentence + (
                received_text(rest) + chunk));
                assert((spoken + (t.sentence + chunk)) + Seq::<char>::empty() =~= spoken + (
                t.sentence + chunk));
            },
            DialogEventView::IsFinalResponse(_) => {
                assert((spoken + t.sentence) + Seq::<char>::empty() =~= spoken + t.sentence);
            },
            _ => {},
        }
    }
}

/// When the service says that its answer is complete, everything of it but white space has been
/// handed to the voice.
pub proof fn lemma_final_mark_flushes(start: DialogView, events: Seq<DialogEventView>)
    requires
        !start.chat_only,
        uninterrupted(events),
        events.len() > 0,
        events.last() == DialogEventView::IsFinalResponse(true),
    ensures
        blank(turn_after(start, events).sentence),
        spoken_text(start, events) + turn_after(start, events).sentence == start.sentence
            + received_text(events),
{
    lemma_turn_keeps_mode(start, events.drop_last());
    lemma_speech_is_faithful(start, events);
}

/// A complete sentence is never held back: what a fresh turn still holds is not one.
pub proof fn lemma_no_complete_sentence_waits(
    chat_only: bool,
    to_send: Seq<DialogRequestView>,
    events: Seq<DialogEventView>,
)
    ensures
        !sentence_complete(turn_after(DialogView::fresh(chat_only, to_send), events).sentence),
    decreases events.len(),
{
    if events.len() > 0 {
        lemma_no_complete_sentence_waits(chat_only, to_send, events.drop_last());
    }
}

/// A chat turn speaks nothing, and shows with every chunk the whole answer so far.
pub proof fn lemma_chat_shows_whole_answer(
    to_send: Seq<DialogRequestView>,
    events: Seq<DialogEventView>,
)
    requires
        uninterrupted(events),
    ensures
        spoken_text(DialogView::fresh(true, to_send), events) == Seq::<char>::empty(),
        turn_after(DialogView::fresh(true, to_send), events).chat == received_text(events),
        events.len() > 0 && events.last() is TextResponse ==> turn_after(
            DialogView::fresh(true, to_send),
            events.drop_last(),
        ).step(events.last()) == DialogStepView::Emit(
            EventView::Transcript(assistant_says(received_text(events), false)),
        ),
    decreases events.len(),
{
    if events.len() > 0 {
        let rest = events.drop_last();
        assert(!(events[events.len() - 1] is Cancelled));
        assert forall|i: int| 0 <= i < rest.len() implies !(#[trigger] rest[i] is Cancelled) by {
            assert(rest[i] == events[i]);
        }
        lemma_chat_shows_whole_answer(to_send, rest);
        lemma_turn_keeps_mode(DialogView::fresh(true, to_send), rest);
    }
}

/// An interruption ends a turn at once, without an error, and leaves nothing of it to be said.
pub proof fn lemma_interruption_ends_turn(turn: DialogView)
    ensures
        turn.step(DialogEventView::Cancelled) == DialogStepView::Finish(Ok(())),
        turn.after(DialogEventView::Cancelled) == DialogView::fresh(turn.chat_only, turn.to_send),
{
}

/// The messages that a turn sends over a run of events, in their order.
pub open spec fn sent_messages(start: DialogView, events: Seq<DialogEventView>) -> Seq<
    DialogRequestView,
>
    decreases events.len(),
{
    if events.len() == 0 {
        Seq::empty()
    } else {
        let before = sent_messages(start, events.drop_last());
        match turn_after(start, events.drop_last()).step(events.last()) {
            DialogStepView::Send(message) => before.push(message),
            _ => before,
        }
    }
}

/// Messages are sent once each, in their order: what has been sent, followed by what is still to be
/// sent, is always what was to be sent at first.
pub proof fn lemma_messages_are_sent_in_order(start: DialogView, events: Seq<DialogEventView>)
    ensures
        sent_messages(start, events) + turn_after(start, events).to_send == start.to_send,
    decreases events.len(),
{
    if events.len() == 0 {
        assert(Seq::<DialogRequestView>::empty() + start.to_send =~= start.to_send);
    } else {
        let rest = events.drop_last();
        let waiting = turn_after(start, rest).to_send;
        lemma_messages_are_sent_in_order(start, rest);
        if events.last() is Ready && waiting.len() > 0 {
            assert(sent_messages(start, rest).push(waiting.first()) + waiting.drop_first()
                =~= sent_messages(start, rest) + waiting);
        }
    }
}

/// The service is called only when all messages have been sent.
pub proof fn lemma_call_comes_after_messages(
    start: DialogView,
    events: Seq<DialogEventView>,
    event: DialogEventView,
)
    requires
        turn_after(start, events).step(event) == DialogStepView::Open,
    ensures
        sent_messages(start, events) == start.to_send,
{
    lemma_messages_are_sent_in_order(start, events);
    let sent = sent_messages(start, events);
    assert(sent + Seq::<DialogRequestView>::empty() =~= sent);
    assert(turn_after(start, events).to_send =~= Seq::<DialogRequestView>::empty());
}

/// Only a sentence mark ends a text that is not long: a comma, a line break without a mark, or a
/// mark with nothing behind it yet (as inside a word) does not.
pub proof fn lemma_only_marks_end_a_short_text(buffer: Seq<char>)
    requires
        encode_utf8(buffer).len() <= LONG_SENTENCE_BYTES,
        sentence_complete(buffer),
    ensures
        ends_sentence(trimmed_end(buffer).last()),
        trimmed_end(buffer).len() < buffer.len(),
        buffer == trimmed_end(buffer) + buffer.skip(trimmed_end(buffer).len() as int),
        blank(buffer.skip(trimmed_end(buffer).len() as int)),
{
    lemma_trimmed_end(buffer);
    assert(buffer =~= trimmed_end(buffer) + buffer.skip(trimmed_end(buffer).len() as int));
    assert(white_space(buffer.last()));
}

/// A model message to the service is of the kind of the message and shows what it holds.
pub proof fn lemma_dialog_request_view(m: DialogRequest)
    ensures
        m matches DialogRequest::Config(c) ==> {
            &&& m@ is Config
            &&& m@->session_id == c.session_id@
            &&& m@->user_id == c.user_id@
            &&& m@->language_code == c.language_code@
            &&& m@->system_prompt_id == c.system_prompt_id@
        },
        m matches DialogRequest::TextInput(text) ==> m@ == DialogRequestView::TextInput(text@),
        m matches DialogRequest::IsFinalInput(b) ==> m@ == DialogRequestView::IsFinalInput(b),
{
}

/// A model event of a turn is of the kind of the event and shows what it holds.
pub proof fn lemma_dialog_event_view(e: DialogEvent)
    ensures
        e is Ready ==> e@ == DialogEventView::Ready,
        e is SendFailed ==> e@ == DialogEventView::SendFailed,
        e is Opened ==> e@ == DialogEventView::Opened,
        e is Cancelled ==> e@ == DialogEventView::Cancelled,
        e matches DialogEvent::TextResponse(text) ==> e@ == DialogEventView::TextResponse(text@),
        e matches DialogEvent::IsFinalResponse(b) ==> e@ == DialogEventView::IsFinalResponse(b),
        e is NoPayload ==> e@ == DialogEventView::NoPayload,
        e matches DialogEvent::Failed(status) ==> e@ == DialogEventView::Failed(status),
        e is Ended ==> e@ == DialogEventView::Ended,
        e matches DialogEvent::Spoken(Ok(_)) ==> e@ == DialogEventView::Spoken(Ok(())),
        e matches DialogEvent::Spoken(Err(error)) ==> e@ == DialogEventView::Spoken(Err(error@)),
{
}

/// A model step of a turn is of the kind of the step and shows what it holds.
pub proof fn lemma_dialog_step_view(s: DialogStep)
    ensures
        s matches DialogStep::Send(message) ==> s@ == DialogStepView::Send(message@),
        s is Open ==> s@ == DialogStepView::Open,
        s is Receive ==> s@ == DialogStepView::Receive,
        s matches DialogStep::Emit(event) ==> s@ == DialogStepView::Emit(event@),
        s matches DialogStep::Speak(sentence) ==> s@ == DialogStepView::Speak(sentence@),
        s matches DialogStep::Finish(Ok(_)) ==> s@ == DialogStepView::Finish(Ok(())),
        s matches DialogStep::Finish(Err(error)) ==> s@ == DialogStepView::Finish(Err(error@)),
{
}

/// In every mode a turn opens with three messages: the settings of the conversation, the user's text
/// as it came, and the mark that nothing more comes.
pub proof fn lemma_turn_opens_with_the_text(
    config: SdkConfig,
    session_id: Seq<char>,
    user_id: Seq<char>,
    input_text: Seq<char>,
)
    ensures
        ({
            let messages = opening_messages(config, session_id, user_id, input_text);
            &&& messages.len() == 3
            &&& messages[0] is Config
            &&& messages[0]->session_id == session_id
            &&& messages[0]->user_id == user_id
            &&& messages[0]->language_code == config.language_code@
            &&& messages[0]->system_prompt_id == config.system_prompt_id@
            &&& messages[1] == DialogRequestView::TextInput(input_text)
            &&& messages[2] == DialogRequestView::IsFinalInput(true)
            &&& forall|i: int|
                0 <= i < messages.len() ==> (#[trigger] messages[i] is TextInput <==> i == 1)
        }),
{
}

/// A turn starts in the mode and with the messages that it is given, and with nothing received.
pub proof fn lemma_turn_starts_as_given(chat_only: bool, to_send: Seq<DialogRequestView>)
    ensures
        DialogView::fresh(chat_only, to_send).chat_only == chat_only,
        DialogView::fresh(chat_only, to_send).to_send == to_send,
        DialogView::fresh(chat_only, to_send).sentence.len() == 0,
        DialogView::fresh(chat_only, to_send).chat.len() == 0,
{
}

/// A turn finishes only upon an interruption, a message that could not be sent, a call or stream
/// that failed, the end of the stream, or a sentence that could not be spoken: until then it goes
/// on, whatever it holds and whatever is still to be sent.
pub proof fn lemma_turn_goes_on(turn: DialogView, event: DialogEventView)
    requires
        turn.step(event) is Finish,
    ensures
        event is Cancelled || event is SendFailed || event is Failed || event is Ended || (event
            is Spoken && event->Spoken_0 is Err),
{
}

/// Upon each of these a turn does finish: without an error where it was interrupted or the stream
/// ended, else with the error that it met.
pub proof fn lemma_turn_finishes_with_its_error(turn: DialogView, status: Status, error: ErrorView)
    ensures
        turn.step(DialogEventView::Cancelled) == DialogStepView::Finish(Ok(())),
        turn.step(DialogEventView::Ended) == DialogStepView::Finish(Ok(())),
        turn.step(DialogEventView::SendFailed) == DialogStepView::Finish(
            Err(ErrorView::Internal("Dialog channel closed early"@)),
        ),
        turn.step(DialogEventView::Failed(status)) == DialogStepView::Finish(
            Err(ErrorView::GrpcError(status)),
        ),
        turn.step(DialogEventView::Spoken(Err(error))) == DialogStepView::Finish(Err(error)),
{
}

/// After the call is answered, after a sentence is spoken, and after a message without an answer in
/// it, a turn waits for more and holds what it held.
pub proof fn lemma_turn_waits_for_more(turn: DialogView, event: DialogEventView)
    requires
        event is Opened || event is NoPayload || event == DialogEventView::Spoken(Ok(())) || event
            == DialogEventView::IsFinalResponse(false),
    ensures
        turn.step(event) == DialogStepView::Receive,
        turn.after(event) == turn,
{
}

/// While messages are to be sent, being ready sends the first of them and leaves the others; when
/// none is left, and only then, the service is called.
pub proof fn lemma_ready_sends_the_next(turn: DialogView, event: DialogEventView)
    ensures
        turn.step(event) is Send <==> event is Ready && turn.to_send.len() > 0,
        turn.step(event) is Open <==> event is Ready && turn.to_send.len() == 0,
        turn.step(event) matches DialogStepView::Send(message) ==> message == turn.to_send[0],
        event is Ready ==> turn.after(event).sentence == turn.sentence && turn.after(event).chat
            == turn.chat,
        turn.step(event) is Send ==> turn.after(event).to_send == turn.to_send.skip(1),
        !(turn.step(event) is Send) ==> turn.after(event).to_send == turn.to_send,
        turn.after(event).chat_only == turn.chat_only,
{
    if turn.to_send.len() > 0 {
        assert(turn.to_send.skip(1) =~= turn.to_send.drop_first());
    }
}

/// In a chat, every chunk is shown at once, behind all of the answer that came before it, as a text
/// of the assistant that is not final; it is kept, and nothing is held back for the voice.
pub proof fn lemma_chat_chunk_is_shown(turn: DialogView, chunk: Seq<char>)
    requires
        turn.chat_only,
    ensures
        ({
            let step = turn.step(DialogEventView::TextResponse(chunk));
            let later = turn.after(DialogEventView::TextResponse(chunk));
            &&& step is Emit
            &&& step->Emit_0 is Transcript
            &&& {
                let t = step->Emit_0->Transcript_0;
                &&& t.text == turn.chat + chunk
                &&& !t.is_final
                &&& t.sender == "AI"@
                &&& t.emotion == "neutral"@
                &&& t.gender == "neutral"@
                &&& t.arousal.bits == 0
                &&& t.valence.bits == 0
                &&& t.speaker_id == "AI_1"@
                &&& t.speaker_vec.len() == 0
                &&& t.words.len() == 0
            }
            &&& later.chat == turn.chat + chunk
            &&& later.sentence == turn.sentence
        }),
{
}

/// Where the answer is spoken, a chunk that completes a sentence has all that was held back spoken,
/// the chunk behind it, and nothing is held back; every other chunk is held back behind the rest.
pub proof fn lemma_spoken_chunk_is_kept_or_said(turn: DialogView, chunk: Seq<char>)
    requires
        !turn.chat_only,
    ensures
        ({
            let step = turn.step(DialogEventView::TextResponse(chunk));
            let later = turn.after(DialogEventView::TextResponse(chunk));
            &&& later.chat == turn.chat
            &&& sentence_complete(turn.sentence + chunk) ==> step == DialogStepView::Speak(
                turn.sentence + chunk,
            ) && later.sentence.len() == 0
            &&& !sentence_complete(turn.sentence + chunk) ==> step == DialogStepView::Receive
                && later.sentence == turn.sentence + chunk
        }),
{
}

/// When the service says that its answer is complete, what is held back is spoken as it is, unless
/// it is blank or the turn is a chat; in those cases nothing changes.
pub proof fn lemma_final_mark_speaks_the_rest(turn: DialogView)
    ensures
        ({
            let step = turn.step(DialogEventView::IsFinalResponse(true));
            let later = turn.after(DialogEventView::IsFinalResponse(true));
            let says = !turn.chat_only && exists|i: int|
                0 <= i < turn.sentence.len() && !white_space(#[trigger] turn.sentence[i]);
            &&& says ==> step == DialogStepView::Speak(turn.sentence) && later.sentence.len() == 0
                && later.chat == turn.chat && later.to_send == turn.to_send
            &&& !says ==> step == DialogStepView::Receive && later == turn
        }),
{
}

/// A turn speaks only what came from the service, never in a chat: a complete sentence, or the rest
/// at the end of the answer. It shows something only in a chat, and only upon a chunk.
pub proof fn lemma_turn_speaks_only_the_answer(turn: DialogView, event: DialogEventView)
    ensures
        turn.step(event) matches DialogStepView::Speak(sentence) ==> !turn.chat_only && ((event
            is TextResponse && sentence == turn.sentence + event->TextResponse_0
            && sentence_complete(sentence)) || (event == DialogEventView::IsFinalResponse(true)
            && sentence == turn.sentence)),
        turn.step(event) is Emit ==> turn.chat_only && event is TextResponse,
{
}

/// Only chunks, the final mark, interruptions and sent messages change what a turn holds.
pub proof fn lemma_other_events_change_nothing(turn: DialogView, event: DialogEventView)
    requires
        !(event is TextResponse) && !(event is Cancelled) && !(event is Ready) && event
            != DialogEventView::IsFinalResponse(true),
    ensures
        turn.after(event) == turn,
{
}

/// A sentence mark followed by white space that ends in a space or a line break completes every
/// text before it.
pub proof fn lemma_mark_completes(body: Seq<char>, mark: char, tail: Seq<char>)
    requires
        mark == '.' || mark == '?' || mark == '!',
        tail.len() > 0,
        forall|i: int| 0 <= i < tail.len() ==> white_space(#[trigger] tail[i]),
        tail.last() == ' ' || tail.last() == '\n',
    ensures
        sentence_complete(body.push(mark) + tail),
{
    lemma_trimmed_end_of(body.push(mark), tail);
    assert((body.push(mark) + tail).last() == tail.last());
}

/// A text of more than 160 bytes is complete at every space.
pub proof fn lemma_long_text_completes_at_space(text: Seq<char>)
    requires
        text.len() > 0,
        text.last() == ' ',
        encode_utf8(text).len() > 160,
    ensures
        sentence_complete(text),
{
}

/// Nothing else completes a text: it ends in a space or a line break, and it has more than 160 bytes
/// and ends in a space, or is written as a text, a sentence mark, and white space.
pub proof fn lemma_complete_text_has_an_end(text: Seq<char>)
    requires
        sentence_complete(text),
    ensures
        text.len() > 0,
        text.last() == ' ' || text.last() == '\n',
        (text.last() == ' ' && encode_utf8(text).len() > 160) || exists|body: Seq<char>, mark: char,
         tail: Seq<char>|
            #![trigger body.push(mark) + tail]
            text == body.push(mark) + tail && (mark == '.' || mark == '?' || mark == '!') && blank(
                tail,
            ) && tail.len() > 0,
{
    lemma_trimmed_end(text);
    if !(text.last() == ' ' && encode_utf8(text).len() > 160) {
        let kept = trimmed_end(text);
        let body = kept.drop_last();
        let tail = text.skip(kept.len() as int);
        assert(body.push(kept.last()) =~= kept);
        assert(text =~= body.push(kept.last()) + tail);
        assert(white_space(text.last()));
    }
}

}
