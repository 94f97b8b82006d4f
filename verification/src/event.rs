//! What goes into the pipeline and what comes out of it.
use crate::score::{zero_score, Score};
use vstd::prelude::*;

verus! {

/// One word of a transcript, with its place in time.
#[derive(Debug, Clone)]
pub struct WordData {
    pub word: String,
    pub start: Score,
    pub end: Score,
    pub probability: Score,
}

/// A piece of the conversation, said by the user or by the assistant.
#[derive(Debug, Clone)]
pub struct TranscriptData {
    pub text: String,
    pub is_final: bool,
    pub sender: String,
    pub emotion: String,
    pub gender: String,
    pub arousal: Score,
    pub valence: Score,
    pub speaker_id: String,
    pub speaker_vec: Vec<Score>,
    pub words: Vec<WordData>,
}

/// What the pipeline reports to the embedding service.
#[derive(Debug, Clone)]
pub enum PipelineEvent {
    Audio(Vec<u8>),
    Transcript(TranscriptData),
    ClearBuffer,
    AcousticMoodShifted {
        session_id: String,
        previous_mood: String,
        current_mood: String,
        arousal_shift: Score,
        valence_shift: Score,
        speaker_id: String,
        speaker_vec: Vec<Score>,
    },
}

/// What the embedding service feeds to the pipeline.
#[derive(Debug, Clone)]
pub enum PipelineInputEvent {
    Audio(Vec<u8>),
    Text(String),
}

/// A word as a model value.
pub struct WordView {
    pub word: Seq<char>,
    pub start: Score,
    pub end: Score,
    pub probability: Score,
}

/// A transcript as a model value.
pub struct TranscriptView {
    pub text: Seq<char>,
    pub is_final: bool,
    pub sender: Seq<char>,
    pub emotion: Seq<char>,
    pub gender: Seq<char>,
    pub arousal: Score,
    pub valence: Score,
    pub speaker_id: Seq<char>,
    pub speaker_vec: Seq<Score>,
    pub words: Seq<WordView>,
}

/// An event as a model value.
pub enum EventView {
    Audio(Seq<u8>),
    Transcript(TranscriptView),
    ClearBuffer,
    AcousticMoodShifted {
        session_id: Seq<char>,
        previous_mood: Seq<char>,
        current_mood: Seq<char>,
        arousal_shift: Score,
        valence_shift: Score,
        speaker_id: Seq<char>,
        speaker_vec: Seq<Score>,
    },
}

/// An input as a model value.
pub enum InputView {
    Audio(Seq<u8>),
    Text(Seq<char>),
}

impl View for WordData {
    type V = WordView;

    open spec fn view(&self) -> WordView {
        WordView {
            word: self.word@,
            start: self.start,
            end: self.end,
            probability: self.probability,
        }
    }
}

/// A list of words as a model value.
pub open spec fn word_views(words: Seq<WordData>) -> Seq<WordView> {
    words.map_values(|w: WordData| w@)
}

impl View for TranscriptData {
    type V = TranscriptView;

    open spec fn view(&self) -> TranscriptView {
        TranscriptView {
            text: self.text@,
            is_final: self.is_final,
            sender: self.sender@,
            emotion: self.emotion@,
            gender: self.gender@,
            arousal: self.arousal,
            valence: self.valence,
            speaker_id: self.speaker_id@,
            speaker_vec: self.speaker_vec@,
            words: word_views(self.words@),
        }
    }
}

impl View for PipelineEvent {
    type V = EventView;

    open spec fn view(&self) -> EventView {
        match self {
            PipelineEvent::Audio(chunk) => EventView::Audio(chunk@),
            PipelineEvent::Transcript(data) => EventView::Transcript(data@),
            PipelineEvent::ClearBuffer => EventView::ClearBuffer,
            PipelineEvent::AcousticMoodShifted {
                session_id,
                previous_mood,
                current_mood,
                arousal_shift,
                valence_shift,
                speaker_id,
                speaker_vec,
            } => EventView::AcousticMoodShifted {
                session_id: session_id@,
                previous_mood: previous_mood@,
                current_mood: current_mood@,
                arousal_shift: *arousal_shift,
                valence_shift: *valence_shift,
                speaker_id: speaker_id@,
                speaker_vec: speaker_vec@,
            },
        }
    }
}

impl View for PipelineInputEvent {
    type V = InputView;

    open spec fn view(&self) -> InputView {
        match self {
            PipelineInputEvent::Audio(chunk) => InputView::Audio(chunk@),
            PipelineInputEvent::Text(text) => InputView::Text(text@),
        }
    }
}

/// What the assistant says or writes: neutral in every respect, under the assistant's own speaker
/// id.
pub open spec fn assistant_says(text: Seq<char>, is_final: bool) -> TranscriptView {
    TranscriptView {
        text,
        is_final,
        sender: "AI"@,
        emotion: "neutral"@,
        gender: "neutral"@,
        arousal: zero_score(),
        valence: zero_score(),
        speaker_id: "AI_1"@,
        speaker_vec: Seq::empty(),
        words: Seq::empty(),
    }
}

impl TranscriptData {
    /// The transcript of something that the assistant says or writes.
    pub fn assistant(text: String, is_final: bool) -> (r: TranscriptData)
        ensures
            r@ == assistant_says(text@, is_final),
    {
        let r = TranscriptData {
            text,
            is_final,
            sender: "AI".to_string(),
            emotion: "neutral".to_string(),
            gender: "neutral".to_string(),
            arousal: Score::zero(),
            valence: Score::zero(),
            speaker_id: "AI_1".to_string(),
            speaker_vec: Vec::new(),
            words: Vec::new(),
        };
        assert(r@.words == Seq::<WordView>::empty());
        r
    }
}

/// A model word shows every field of the word.
pub proof fn lemma_word_view(w: WordData)
    ensures
        w@.word == w.word@,
        w@.start.bits == w.start.bits,
        w@.end.bits == w.end.bits,
        w@.probability.bits == w.probability.bits,
{
}

/// A model transcript shows every field of the transcript.
pub proof fn lemma_transcript_view(t: TranscriptData)
    ensures
        t@.text == t.text@,
        t@.is_final == t.is_final,
        t@.sender == t.sender@,
        t@.emotion == t.emotion@,
        t@.gender == t.gender@,
        t@.arousal.bits == t.arousal.bits,
        t@.valence.bits == t.valence.bits,
        t@.speaker_id == t.speaker_id@,
        t@.speaker_vec == t.speaker_vec@,
        t@.words.len() == t.words@.len(),
        forall|i: int| 0 <= i < t.words@.len() ==> #[trigger] t@.words[i] == t.words@[i]@,
{
}

/// A model event is of the kind of the event and shows what it holds.
pub proof fn lemma_event_view(e: PipelineEvent)
    ensures
        e matches PipelineEvent::Audio(chunk) ==> e@ == EventView::Audio(chunk@),
        e matches PipelineEvent::Transcript(t) ==> e@ == EventView::Transcript(t@),
        e is ClearBuffer <==> e@ is ClearBuffer,
        e is AcousticMoodShifted <==> e@ is AcousticMoodShifted,
        e is AcousticMoodShifted ==> {
            &&& e@->session_id == e->session_id@
            &&& e@->previous_mood == e->previous_mood@
            &&& e@->current_mood == e->current_mood@
            &&& e@->arousal_shift.bits == e->arousal_shift.bits
            &&& e@->valence_shift.bits == e->valence_shift.bits
            &&& e@->speaker_id == e->speaker_id@
            &&& e@->speaker_vec == e->speaker_vec@
        },
{
}

/// A model input is of the kind of the input and shows what it holds.
pub proof fn lemma_input_view(input: PipelineInputEvent)
    ensures
        input matches PipelineInputEvent::Audio(chunk) ==> input@ == InputView::Audio(chunk@),
        input matches PipelineInputEvent::Text(text) ==> input@ == InputView::Text(text@),
{
}

/// What the assistant says holds the text and the mark that it was given, and is otherwise always
/// the same: from the assistant, neutral, without affect, voice features or words.
pub proof fn lemma_assistant_speaks_plainly(text: Seq<char>, is_final: bool)
    ensures
        ({
            let t = assistant_says(text, is_final);
            &&& t.text == text
            &&& t.is_final == is_final
            &&& t.sender == "AI"@
            &&& t.emotion == "neutral"@
            &&& t.gender == "neutral"@
            &&& t.arousal.bits == 0
            &&& t.valence.bits == 0
            &&& t.speaker_id == "AI_1"@
            &&& t.speaker_vec.len() == 0
            &&& t.words.len() == 0
        }),
{
}

}
