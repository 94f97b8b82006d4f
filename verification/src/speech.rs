//! Speaking one sentence: what is asked of the speech service, and what becomes of the audio that
//! it streams back.
use crate::config::SdkConfig;
use crate::error::{outcome, ErrorView, SdkError};
use crate::event::{assistant_says, EventView, PipelineEvent, TranscriptData};
use crate::score::{zero_score, Score};
use tonic::Status;
use vstd::prelude::*;

verus! {

/// The service's number for a plain text.
pub const TEXT_TYPE_PLAIN: i32 = 1;

/// The service's number for the audio format that is asked for.
pub const AUDIO_FORMAT: i32 = 1;

/// How the audio is to come.
#[derive(Debug, Clone)]
pub struct AudioConfig {
    pub audio_format: i32,
    pub sample_rate_hertz: i32,
    pub volume_gain_db: Score,
}

/// What is asked of the speech service. Voice tuning and voice cloning are never asked for.
#[derive(Debug, Clone)]
pub struct SynthesisRequest {
    pub text: String,
    pub text_type: i32,
    pub voice_id: String,
    pub audio_config: AudioConfig,
    pub preferred_provider: String,
}

/// What is asked of the speech service, as a model value.
pub struct SynthesisRequestView {
    pub text: Seq<char>,
    pub text_type: i32,
    pub voice_id: Seq<char>,
    pub audio_format: i32,
    pub sample_rate_hertz: int,
    pub volume_gain_db: Score,
    pub preferred_provider: Seq<char>,
}

impl View for SynthesisRequest {
    type V = SynthesisRequestView;

    open spec fn view(&self) -> SynthesisRequestView {
        SynthesisRequestView {
            text: self.text@,
            text_type: self.text_type,
            voice_id: self.voice_id@,
            audio_format: self.audio_config.audio_format,
            sample_rate_hertz: self.audio_config.sample_rate_hertz as int,
            volume_gain_db: self.audio_config.volume_gain_db,
            preferred_provider: self.preferred_provider@,
        }
    }
}

/// A sample rate as the service's signed number: the same number up to the largest signed one,
/// wrapped round above it.
pub open spec fn signed_rate(rate: u32) -> int {
    if rate <= i32::MAX {
        rate as int
    } else {
        rate - 0x1_0000_0000
    }
}

/// The request to speak `sentence` in the configured voice.
pub open spec fn synthesis_request(config: SdkConfig, sentence: Seq<char>) -> SynthesisRequestView {
    SynthesisRequestView {
        text: sentence,
        text_type: TEXT_TYPE_PLAIN,
        voice_id: config.tts_voice_id@,
        audio_format: AUDIO_FORMAT,
        sample_rate_hertz: signed_rate(config.tts_sample_rate),
        volume_gain_db: zero_score(),
        preferred_provider: ""@,
    }
}

/// What happens while a sentence is being spoken.
#[derive(Debug)]
pub enum SpeechEvent {
    /// The turn was interrupted.
    Cancelled,
    /// The call to the service has been answered.
    Opened,
    /// The call to the service failed.
    OpenFailed(Status),
    /// A chunk of audio came.
    AudioContent(Vec<u8>),
    /// The audio could not be handed on: nobody takes it any more.
    OutputClosed,
    /// The stream of audio failed.
    StreamFailed(Status),
    /// The stream of audio ended.
    Ended,
}

/// What happens while a sentence is being spoken, as a model value.
pub enum SpeechEventView {
    Cancelled,
    Opened,
    OpenFailed(Status),
    AudioContent(Seq<u8>),
    OutputClosed,
    StreamFailed(Status),
    Ended,
}

impl View for SpeechEvent {
    type V = SpeechEventView;

    open spec fn view(&self) -> SpeechEventView {
        match self {
            SpeechEvent::Cancelled => SpeechEventView::Cancelled,
            SpeechEvent::Opened => SpeechEventView::Opened,
            SpeechEvent::OpenFailed(status) => SpeechEventView::OpenFailed(*status),
            SpeechEvent::AudioContent(chunk) => SpeechEventView::AudioContent(chunk@),
            SpeechEvent::OutputClosed => SpeechEventView::OutputClosed,
            SpeechEvent::StreamFailed(status) => SpeechEventView::StreamFailed(*status),
            SpeechEvent::Ended => SpeechEventView::Ended,
        }
    }
}

/// What is to be done next.
#[derive(Debug)]
pub enum SpeechStep {
    /// Wait for what the service sends, or for an interruption.
    Receive,
    /// Hand an event on, then wait in the same way.
    Forward(PipelineEvent),
    /// The sentence is over.
    Finish(Result<(), SdkError>),
}

/// What is to be done next, as a model value.
pub enum SpeechStepView {
    Receive,
    Forward(EventView),
    Finish(Result<(), ErrorView>),
}

impl View for SpeechStep {
    type V = SpeechStepView;

    open spec fn view(&self) -> SpeechStepView {
        match self {
            SpeechStep::Receive => SpeechStepView::Receive,
            SpeechStep::Forward(event) => SpeechStepView::Forward(event@),
            SpeechStep::Finish(r) => SpeechStepView::Finish(outcome(*r)),
        }
    }
}

/// What is to be done upon an event. A stream that breaks off ends the sentence without an error;
/// a call that cannot be made, or audio that nobody takes, is one.
pub open spec fn speech_step(event: SpeechEventView) -> SpeechStepView {
    match event {
        SpeechEventView::Cancelled => SpeechStepView::Finish(Ok(())),
        SpeechEventView::Opened => SpeechStepView::Receive,
        SpeechEventView::OpenFailed(status) => SpeechStepView::Finish(
            Err(ErrorView::GrpcError(status)),
        ),
        SpeechEventView::AudioContent(chunk) => if chunk.len() == 0 {
            SpeechStepView::Receive
        } else {
            SpeechStepView::Forward(EventView::Audio(chunk))
        },
        SpeechEventView::OutputClosed => SpeechStepView::Finish(
            Err(ErrorView::Internal("Audio output sender dropped"@)),
        ),
        SpeechEventView::StreamFailed(_) => SpeechStepView::Finish(Ok(())),
        SpeechEventView::Ended => SpeechStepView::Finish(Ok(())),
    }
}

/// Starts a sentence: the event that reports it as said, and the request that has it spoken.
pub fn begin_speech(config: &SdkConfig, sentence: String) -> (r: (PipelineEvent, SynthesisRequest))
    ensures
        r.0@ == EventView::Transcript(assistant_says(sentence@, true)),
        r.1@ == synthesis_request(*config, sentence@),
{
    let event = PipelineEvent::Transcript(TranscriptData::assistant(sentence.clone(), true));
    let rate: u32 = config.tts_sample_rate;
    let signed: i32 = #[verifier::truncate] (rate as i32);
    assert(rate <= 0x7fff_ffff ==> rate as i32 == rate) by (bit_vector);
    assert(rate > 0x7fff_ffff ==> rate as i32 == rate - 0x1_0000_0000) by (bit_vector);
    let request = SynthesisRequest {
        text: sentence,
        text_type: TEXT_TYPE_PLAIN,
        voice_id: config.tts_voice_id.clone(),
        audio_config: AudioConfig {
            audio_format: AUDIO_FORMAT,
            sample_rate_hertz: signed,
            volume_gain_db: Score::zero(),
        },
        preferred_provider: "".to_string(),
    };
    (event, request)
}

/// Takes an event and says what to do about it.
pub fn step_speech(event: SpeechEvent) -> (r: SpeechStep)
    ensures
        r@ == speech_step(event@),
{
    match event {
        SpeechEvent::Cancelled => SpeechStep::Finish(Ok(())),
        SpeechEvent::Opened => SpeechStep::Receive,
        SpeechEvent::OpenFailed(status) => SpeechStep::Finish(Err(SdkError::GrpcError(status))),
        SpeechEvent::AudioContent(chunk) => {
            if chunk.is_empty() {
                SpeechStep::Receive
            } else {
                SpeechStep::Forward(PipelineEvent::Audio(chunk))
            }
        },
        SpeechEvent::OutputClosed => SpeechStep::Finish(
            Err(SdkError::Internal("Audio output sender dropped".to_string())),
        ),
        SpeechEvent::StreamFailed(_) => SpeechStep::Finish(Ok(())),
        SpeechEvent::Ended => SpeechStep::Finish(Ok(())),
    }
}

/// The audio of all chunks of a run of events, in their order.
pub open spec fn received_audio(events: Seq<SpeechEventView>) -> Seq<u8>
    decreases events.len(),
{
    if events.len() == 0 {
        Seq::empty()
    } else {
        let before = received_audio(events.drop_last());
        match events.last() {
            SpeechEventView::AudioContent(chunk) => before + chunk,
            _ => before,
        }
    }
}

/// The audio that is handed on over a run of events, in its order.
pub open spec fn forwarded_audio(events: Seq<SpeechEventView>) -> Seq<u8>
    decreases events.len(),
{
    if events.len() == 0 {
        Seq::empty()
    } else {
        let before = forwarded_audio(events.drop_last());
        match speech_step(events.last()) {
            SpeechStepView::Forward(EventView::Audio(chunk)) => before + chunk,
            _ => before,
        }
    }
}

/// The audio that is handed on is the audio that came, byte for byte.
pub proof fn lemma_audio_is_faithful(events: Seq<SpeechEventView>)
    ensures
        forwarded_audio(events) == received_audio(events),
    decreases events.len(),
{
    if events.len() > 0 {
        lemma_audio_is_faithful(events.drop_last());
        if let SpeechEventView::AudioContent(chunk) = events.last() {
            assert(chunk.len() == 0 ==> received_audio(events.drop_last()) + chunk
                =~= received_audio(events.drop_last()));
        }
    }
}

/// No event without audio is handed on.
pub proof fn lemma_no_empty_audio(event: SpeechEventView, chunk: Seq<u8>)
    requires
        speech_step(event) == SpeechStepView::Forward(EventView::Audio(chunk)),
    ensures
        chunk.len() > 0,
        event == SpeechEventView::AudioContent(chunk),
{
}

/// A model request shows every field of the request.
pub proof fn lemma_synthesis_request_view(r: SynthesisRequest)
    ensures
        r@.text == r.text@,
        r@.text_type == r.text_type,
        r@.voice_id == r.voice_id@,
        r@.audio_format == r.audio_config.audio_format,
        r@.sample_rate_hertz == r.audio_config.sample_rate_hertz,
        r@.volume_gain_db.bits == r.audio_config.volume_gain_db.bits,
        r@.preferred_provider == r.preferred_provider@,
{
}

/// A model event of a sentence is of the kind of the event and shows what it holds.
pub proof fn lemma_speech_event_view(e: SpeechEvent)
    ensures
        e is Cancelled ==> e@ == SpeechEventView::Cancelled,
        e is Opened ==> e@ == SpeechEventView::Opened,
        e matches SpeechEvent::OpenFailed(status) ==> e@ == SpeechEventView::OpenFailed(status),
        e matches SpeechEvent::AudioContent(chunk) ==> e@ == SpeechEventView::AudioContent(chunk@),
        e is OutputClosed ==> e@ == SpeechEventView::OutputClosed,
        e matches SpeechEvent::StreamFailed(status) ==> e@ == SpeechEventView::StreamFailed(status),
        e is Ended ==> e@ == SpeechEventView::Ended,
{
}

/// A model step of a sentence is of the kind of the step and shows what it holds.
pub proof fn lemma_speech_step_view(s: SpeechStep)
    ensures
        s is Receive ==> s@ == SpeechStepView::Receive,
        s matches SpeechStep::Forward(event) ==> s@ == SpeechStepView::Forward(event@),
        s matches SpeechStep::Finish(Ok(_)) ==> s@ == SpeechStepView::Finish(Ok(())),
        s matches SpeechStep::Finish(Err(error)) ==> s@ == SpeechStepView::Finish(Err(error@)),
{
}

/// A request asks for the sentence as it is, as plain text, in the configured voice and at the
/// configured rate, without gain and from no particular provider; nothing else of the configuration
/// plays a part.
pub proof fn lemma_request_asks_for_the_sentence(config: SdkConfig, sentence: Seq<char>)
    ensures
        ({
            let r = synthesis_request(config, sentence);
            &&& r.text == sentence
            &&& r.text_type == 1
            &&& r.voice_id == config.tts_voice_id@
            &&& r.audio_format == 1
            &&& -0x8000_0000 <= r.sample_rate_hertz <= 0x7fff_ffff
            &&& r.sample_rate_hertz == config.tts_sample_rate || r.sample_rate_hertz
                == config.tts_sample_rate - 0x1_0000_0000
            &&& r.volume_gain_db.bits == 0
            &&& r.preferred_provider.len() == 0
        }),
{
    reveal_strlit("");
}

/// A sentence is over only upon an interruption, a call or a stream that failed, the end of the
/// stream, or audio that nobody takes: until then it goes on.
pub proof fn lemma_sentence_goes_on(event: SpeechEventView)
    ensures
        speech_step(event) is Finish <==> event is Cancelled || event is OpenFailed || event
            is StreamFailed || event is Ended || event is OutputClosed,
        event is Opened ==> speech_step(event) == SpeechStepView::Receive,
{
}

/// A sentence ends in an error exactly where the call could not be made, with its status, or nobody
/// takes the audio; a stream that breaks off is no error.
pub proof fn lemma_sentence_fails_with_its_error(event: SpeechEventView)
    requires
        speech_step(event) is Finish,
    ensures
        speech_step(event)->Finish_0 is Err <==> event is OpenFailed || event is OutputClosed,
        event matches SpeechEventView::OpenFailed(status) ==> speech_step(event)
            == SpeechStepView::Finish(Err(ErrorView::GrpcError(status))),
        event is OutputClosed ==> speech_step(event) == SpeechStepView::Finish(
            Err(ErrorView::Internal("Audio output sender dropped"@)),
        ),
{
}

/// Every chunk with audio in it is handed on as it came, and nothing but audio is.
pub proof fn lemma_every_chunk_is_handed_on(event: SpeechEventView, chunk: Seq<u8>)
    ensures
        chunk.len() > 0 ==> speech_step(SpeechEventView::AudioContent(chunk))
            == SpeechStepView::Forward(EventView::Audio(chunk)),
        chunk.len() == 0 ==> speech_step(SpeechEventView::AudioContent(chunk))
            == SpeechStepView::Receive,
        speech_step(event) is Forward ==> event is AudioContent,
{
}

}
