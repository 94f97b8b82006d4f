//! What is heard: messages of the speech recogniser, the fillers among them, and the mood of the
//! one who speaks.
use crate::event::{word_views, TranscriptView, WordData, WordView};
use crate::score::{zero_score, Score};
use crate::text::{contains, is_white_space, occurs_in, white_space};
use vstd::prelude::*;
use vstd::string::*;
use vstd::utf8::encode_utf8;

verus! {

/// A message of the speech recogniser.
#[derive(Debug, Clone)]
pub struct SttMessage {
    pub partial_transcription: String,
    pub is_final: bool,
    pub emotion_proxy: String,
    pub gender_proxy: String,
    pub arousal: Score,
    pub valence: Score,
    pub speaker_id: String,
    pub speaker_vec: Vec<Score>,
    pub words: Vec<WordData>,
}

/// A message of the speech recogniser, as a model value.
pub struct SttView {
    pub transcription: Seq<char>,
    pub is_final: bool,
    pub emotion: Seq<char>,
    pub gender: Seq<char>,
    pub arousal: Score,
    pub valence: Score,
    pub speaker_id: Seq<char>,
    pub speaker_vec: Seq<Score>,
    pub words: Seq<WordView>,
}

impl View for SttMessage {
    type V = SttView;

    open spec fn view(&self) -> SttView {
        SttView {
            transcription: self.partial_transcription@,
            is_final: self.is_final,
            emotion: self.emotion_proxy@,
            gender: self.gender_proxy@,
            arousal: self.arousal,
            valence: self.valence,
            speaker_id: self.speaker_id@,
            speaker_vec: self.speaker_vec@,
            words: word_views(self.words@),
        }
    }
}

/// The report of a message: what the user said, without the white space round it.
pub open spec fn user_says(msg: SttView, text: Seq<char>) -> TranscriptView {
    TranscriptView {
        text,
        is_final: msg.is_final,
        sender: "USER"@,
        emotion: msg.emotion,
        gender: msg.gender,
        arousal: msg.arousal,
        valence: msg.valence,
        speaker_id: msg.speaker_id,
        speaker_vec: msg.speaker_vec,
        words: msg.words,
    }
}

/// A text of this many bytes is too long to be a mere filler.
pub const FILLER_BYTES: usize = 10;

/// The lower-case form of a text, by Unicode.
pub uninterp spec fn lowercased(s: Seq<char>) -> Seq<char>;

/// Calls `str::to_lowercase` of std. Claimed of it: the lower-case form is a function of the text
/// alone.
#[verifier::external_body]
pub(crate) fn lowercase(s: &str) -> (r: String)
    ensures
        r@ == lowercased(s@),
{
    s.to_lowercase()
}

/// A punctuation mark: one of ASCII, or a dash, a quotation mark, a bullet or an ellipsis.
pub open spec fn punctuation(c: char) -> bool {
    let n = c as u32;
    ||| 0x21 <= n <= 0x2f
    ||| 0x3a <= n <= 0x40
    ||| 0x5b <= n <= 0x60
    ||| 0x7b <= n <= 0x7e
    ||| 0x2010 <= n <= 0x2027
}

/// A letter of a filler, small or capital. The capital of the dotless letter is the plain `I`.
pub open spec fn filler_letter(c: char) -> bool {
    ||| c == '\u{131}' || c == 'I'
    ||| c == 'e' || c == 'E'
    ||| c == 'm' || c == 'M'
    ||| c == 'h' || c == 'H'
}

/// A character that a filler may hold.
pub open spec fn filler_char(c: char) -> bool {
    filler_letter(c) || white_space(c) || punctuation(c)
}

/// Whether a text holds nothing but the sounds of a filler.
pub open spec fn only_sounds(text: Seq<char>) -> bool {
    forall|i: int| 0 <= i < text.len() ==> filler_char(#[trigger] text[i])
}

/// Tells whether a text holds nothing but the sounds of a filler.
pub fn has_only_sounds(text: &str) -> (r: bool)
    ensures
        r == only_sounds(text@),
{
    let len: usize = text.unicode_len();
    let mut i: usize = 0;
    while i < len
        invariant
            i <= len,
            len == text@.len(),
            forall|j: int| 0 <= j < i ==> filler_char(#[trigger] text@[j]),
        decreases len - i,
    {
        let c: char = text.get_char(i);
        let n: u32 = c as u32;
        let letter: bool = c == '\u{131}' || c == 'I' || c == 'e' || c == 'E' || c == 'm' || c == 'M'
            || c == 'h' || c == 'H';
        let mark: bool = (0x21 <= n && n <= 0x2f) || (0x3a <= n && n <= 0x40) || (0x5b <= n && n
            <= 0x60) || (0x7b <= n && n <= 0x7e) || (0x2010 <= n && n <= 0x2027);
        if !letter && !mark && !is_white_space(c) {
            assert(!filler_char(text@[i as int]));
            return false;
        }
        i = i + 1;
    }
    true
}

/// Whether a text is a mere filler (a breath, a hum): it is short, it holds nothing but the sounds
/// of a filler, and its lower-case form `lowered` holds one of them drawn out.
pub open spec fn filler(text: Seq<char>, lowered: Seq<char>) -> bool {
    &&& encode_utf8(text).len() < FILLER_BYTES
    &&& only_sounds(text)
    &&& {
        ||| occurs_in("\u{131}\u{131}"@, lowered)
        ||| occurs_in("ee"@, lowered)
        ||| occurs_in("mm"@, lowered)
        ||| occurs_in("hm"@, lowered)
    }
}

/// Tells a filler by a text and its lower-case form.
pub fn is_filler(text: &str, lowered: &str) -> (r: bool)
    ensures
        r == filler(text@, lowered@),
{
    text.as_bytes().len() < FILLER_BYTES && has_only_sounds(text) && (contains(
        lowered,
        "\u{131}\u{131}",
    ) || contains(lowered, "ee") || contains(lowered, "mm") || contains(lowered, "hm"))
}

/// The mood of the user as last heard.
#[derive(Debug)]
pub struct AcousticState {
    pub last_arousal: Score,
    pub last_valence: Score,
    pub current_mood: String,
    pub speaker_id: String,
}

/// A mood as a model value.
pub struct MoodView {
    pub last_arousal: Score,
    pub last_valence: Score,
    pub mood: Seq<char>,
    pub speaker_id: Seq<char>,
}

impl View for AcousticState {
    type V = MoodView;

    open spec fn view(&self) -> MoodView {
        MoodView {
            last_arousal: self.last_arousal,
            last_valence: self.last_valence,
            mood: self.current_mood@,
            speaker_id: self.speaker_id@,
        }
    }
}

/// How far a message is from the mood before it.
#[derive(Debug, Clone, Copy, PartialEq, Eq, Structural)]
pub struct Shifts {
    pub arousal: Score,
    pub valence: Score,
}

/// What the shifts are computed from: they are `arousal - base` and `valence - base`.
#[derive(Debug, Clone, Copy, PartialEq, Eq, Structural)]
pub struct ShiftOperands {
    pub arousal: Score,
    pub valence: Score,
    pub base: Score,
}

impl MoodView {
    /// The mood before anything was heard.
    pub open spec fn unheard() -> MoodView {
        MoodView {
            last_arousal: zero_score(),
            last_valence: zero_score(),
            mood: "neutral"@,
            speaker_id: ""@,
        }
    }

    /// Both shifts are taken from the last arousal.
    pub open spec fn operands(self, msg: SttView) -> ShiftOperands {
        ShiftOperands {
            arousal: msg.arousal,
            valence: msg.valence,
            base: self.last_arousal,
        }
    }

    /// Whether a message bears on the mood: it is final and its arousal is above zero.
    pub open spec fn bears(msg: SttView) -> bool {
        msg.is_final && msg.arousal.positive()
    }

    /// The mood after a message.
    pub open spec fn after(self, msg: SttView) -> MoodView {
        if MoodView::bears(msg) {
            MoodView {
                last_arousal: msg.arousal,
                last_valence: msg.valence,
                mood: msg.emotion,
                speaker_id: msg.speaker_id,
            }
        } else {
            self
        }
    }

    /// Whether a message, at a distance `arousal_shift` in arousal, is a change of mood: the mood
    /// before it was heard from the same speaker, and the arousal is far off or the emotion is
    /// another.
    pub open spec fn shifted(self, msg: SttView, arousal_shift: Score) -> bool {
        &&& MoodView::bears(msg)
        &&& self.last_arousal.positive()
        &&& self.speaker_id == msg.speaker_id
        &&& arousal_shift.beyond_mood_threshold() || msg.emotion != self.mood
    }
}

impl AcousticState {
    /// The mood before anything was heard.
    pub fn new() -> (r: AcousticState)
        ensures
            r@ == MoodView::unheard(),
    {
        AcousticState {
            last_arousal: Score::zero(),
            last_valence: Score::zero(),
            current_mood: "neutral".to_string(),
            speaker_id: "".to_string(),
        }
    }

    /// What is to be subtracted to say how far a message is from this mood.
    pub fn shift_operands(&self, msg: &SttMessage) -> (r: ShiftOperands)
        ensures
            r == self@.operands(msg@),
    {
        ShiftOperands {
            arousal: msg.arousal,
            valence: msg.valence,
            base: self.last_arousal,
        }
    }

    /// Tells whether a message is a change of mood.
    pub fn is_shifted(&self, msg: &SttMessage, arousal_shift: Score) -> (r: bool)
        ensures
            r == self@.shifted(msg@, arousal_shift),
    {
        msg.is_final && msg.arousal.is_positive() && self.last_arousal.is_positive()
            && self.speaker_id == msg.speaker_id && (arousal_shift.is_beyond_mood_threshold()
            || msg.emotion_proxy != self.current_mood)
    }

    /// Takes a message into account.
    pub fn update(&mut self, msg: &SttMessage)
        ensures
            final(self)@ == old(self)@.after(msg@),
    {
        if msg.is_final && msg.arousal.is_positive() {
            self.last_arousal = msg.arousal;
            self.last_valence = msg.valence;
            self.current_mood = msg.emotion_proxy.clone();
            self.speaker_id = msg.speaker_id.clone();
        }
    }
}

/// Before anything that bears on the mood was heard, no message is a change of it.
pub proof fn lemma_no_shift_before_first(msg: SttView, arousal_shift: Score)
    ensures
        !MoodView::unheard().shifted(msg, arousal_shift),
{
}

/// A message of another speaker is never a change of mood; it starts that speaker's.
pub proof fn lemma_no_shift_between_speakers(mood: MoodView, msg: SttView, arousal_shift: Score)
    requires
        mood.speaker_id != msg.speaker_id,
    ensures
        !mood.shifted(msg, arousal_shift),
        MoodView::bears(msg) ==> mood.after(msg).speaker_id == msg.speaker_id,
{
}

/// A model message shows every field of the message.
pub proof fn lemma_stt_view(m: SttMessage)
    ensures
        m@.transcription == m.partial_transcription@,
        m@.is_final == m.is_final,
        m@.emotion == m.emotion_proxy@,
        m@.gender == m.gender_proxy@,
        m@.arousal.bits == m.arousal.bits,
        m@.valence.bits == m.valence.bits,
        m@.speaker_id == m.speaker_id@,
        m@.speaker_vec == m.speaker_vec@,
        m@.words.len() == m.words@.len(),
        forall|i: int| 0 <= i < m.words@.len() ==> #[trigger] m@.words[i] == m.words@[i]@,
{
}

/// A model mood shows every field of the mood.
pub proof fn lemma_mood_view(state: AcousticState)
    ensures
        state@.last_arousal.bits == state.last_arousal.bits,
        state@.last_valence.bits == state.last_valence.bits,
        state@.mood == state.current_mood@,
        state@.speaker_id == state.speaker_id@,
{
}

/// The report of a message carries every field of the message as it is, the text that it is given,
/// and the user as the one who speaks.
pub proof fn lemma_report_carries_message(msg: SttView, text: Seq<char>)
    ensures
        ({
            let t = user_says(msg, text);
            &&& t.text == text
            &&& t.is_final == msg.is_final
            &&& t.sender == "USER"@
            &&& t.emotion == msg.emotion
            &&& t.gender == msg.gender
            &&& t.arousal.bits == msg.arousal.bits
            &&& t.valence.bits == msg.valence.bits
            &&& t.speaker_id == msg.speaker_id
            &&& t.speaker_vec == msg.speaker_vec
            &&& t.words == msg.words
        }),
{
}

/// The letters of the drawn-out sounds, white space and marks belong to fillers; every other letter,
/// every digit and every other character does not.
pub proof fn lemma_filler_characters(c: char)
    ensures
        c == '\u{131}' || c == 'I' || c == 'e' || c == 'E' || c == 'm' || c == 'M' || c == 'h' || c
            == 'H' ==> filler_char(c),
        white_space(c) ==> filler_char(c),
        0x21 <= c as u32 <= 0x7e && !(0x30 <= c as u32 <= 0x39) && !(0x41 <= c as u32 <= 0x5a) && !(
        0x61 <= c as u32 <= 0x7a) ==> filler_char(c),
        0x2010 <= c as u32 <= 0x2027 ==> filler_char(c),
        '0' as u32 <= c as u32 <= '9' as u32 ==> !filler_char(c),
        'a' as u32 <= c as u32 <= 'z' as u32 && c != 'e' && c != 'm' && c != 'h' ==> !filler_char(c),
        'A' as u32 <= c as u32 <= 'Z' as u32 && c != 'E' && c != 'M' && c != 'H' && c != 'I'
            ==> !filler_char(c),
        c as u32 >= 0x80 && c != '\u{131}' && !white_space(c) && !(0x2010 <= c as u32 <= 0x2027)
            ==> !filler_char(c),
        (c as u32) < 0x20 && !white_space(c) || c as u32 == 0x7f ==> !filler_char(c),
{
}

/// A short text of nothing but filler characters is a filler as soon as its lower-case form is
/// written round one of the drawn-out sounds.
pub proof fn lemma_drawn_out_sound_is_filler(
    text: Seq<char>,
    before: Seq<char>,
    sound: Seq<char>,
    behind: Seq<char>,
)
    requires
        encode_utf8(text).len() < 10,
        forall|i: int| 0 <= i < text.len() ==> filler_char(#[trigger] text[i]),
        sound == "\u{131}\u{131}"@ || sound == "ee"@ || sound == "mm"@ || sound == "hm"@,
    ensures
        filler(text, before + sound + behind),
{
    crate::text::lemma_piece_occurs(before, sound, behind);
}

/// Nothing else is a filler: a filler has less than ten bytes and nothing but filler characters, and
/// its lower-case form is written round a drawn-out sound.
pub proof fn lemma_filler_is_drawn_out(text: Seq<char>, lowered: Seq<char>)
    requires
        filler(text, lowered),
    ensures
        encode_utf8(text).len() < 10,
        forall|i: int| 0 <= i < text.len() ==> filler_char(#[trigger] text[i]),
        exists|before: Seq<char>, sound: Seq<char>, behind: Seq<char>|
            lowered == #[trigger] (before + sound + behind) && (sound == "\u{131}\u{131}"@ || sound
                == "ee"@ || sound == "mm"@ || sound == "hm"@),
{
    let sound = if occurs_in("\u{131}\u{131}"@, lowered) {
        "\u{131}\u{131}"@
    } else if occurs_in("ee"@, lowered) {
        "ee"@
    } else if occurs_in("mm"@, lowered) {
        "mm"@
    } else {
        "hm"@
    };
    crate::text::lemma_occurring_piece(sound, lowered);
    let (before, behind) = choose|before: Seq<char>, behind: Seq<char>|
        lowered == #[trigger] (before + sound + behind);
    assert(lowered == before + sound + behind);
}

/// Before anything was heard, the mood is neutral, without affect, and nobody's.
pub proof fn lemma_unheard_is_neutral()
    ensures
        MoodView::unheard().last_arousal.bits == 0,
        MoodView::unheard().last_valence.bits == 0,
        MoodView::unheard().mood == "neutral"@,
        MoodView::unheard().speaker_id == ""@,
{
}

/// What is subtracted are the two scores of the message, each less the last arousal.
pub proof fn lemma_shifts_are_taken_from_last_arousal(mood: MoodView, msg: SttView)
    ensures
        mood.operands(msg).arousal.bits == msg.arousal.bits,
        mood.operands(msg).valence.bits == msg.valence.bits,
        mood.operands(msg).base.bits == mood.last_arousal.bits,
{
}

/// A final message with an arousal above zero sets the mood, whatever it was before; no other
/// message changes it.
pub proof fn lemma_mood_is_that_of_last_voiced(mood: MoodView, msg: SttView)
    ensures
        msg.is_final && 0 < msg.arousal.bits <= 0x7f80_0000 ==> {
            &&& mood.after(msg).last_arousal.bits == msg.arousal.bits
            &&& mood.after(msg).last_valence.bits == msg.valence.bits
            &&& mood.after(msg).mood == msg.emotion
            &&& mood.after(msg).speaker_id == msg.speaker_id
        },
        !(msg.is_final && 0 < msg.arousal.bits <= 0x7f80_0000) ==> mood.after(msg) == mood,
{
    crate::score::lemma_positive_by_bits(msg.arousal);
}

/// Among final messages of one speaker whose arousals are above zero, a change of mood is exactly
/// an arousal that is off by more than 0.15, up or down, or another emotion.
pub proof fn lemma_shift_is_complete(mood: MoodView, msg: SttView, arousal_shift: Score)
    requires
        msg.is_final,
        0 < msg.arousal.bits <= 0x7f80_0000,
        0 < mood.last_arousal.bits <= 0x7f80_0000,
        mood.speaker_id == msg.speaker_id,
    ensures
        mood.shifted(msg, arousal_shift) <==> (0x3e19_999a < arousal_shift.bits as int % 0x8000_0000
            <= 0x7f80_0000 || msg.emotion != mood.mood),
{
    crate::score::lemma_positive_by_bits(msg.arousal);
    crate::score::lemma_positive_by_bits(mood.last_arousal);
    crate::score::lemma_threshold_by_bits(arousal_shift);
}

/// No other message is a change of mood: one that is not final, one without arousal, one that
/// follows a mood without arousal, or one of another speaker.
pub proof fn lemma_shift_needs_two_voiced_messages(mood: MoodView, msg: SttView, arousal_shift: Score)
    requires
        mood.shifted(msg, arousal_shift),
    ensures
        msg.is_final,
        0 < msg.arousal.bits <= 0x7f80_0000,
        0 < mood.last_arousal.bits <= 0x7f80_0000,
        mood.speaker_id == msg.speaker_id,
{
    crate::score::lemma_positive_by_bits(msg.arousal);
    crate::score::lemma_positive_by_bits(mood.last_arousal);
}

/// Whether a message is a change of mood is decided alike for a rise and a fall of the same size.
pub proof fn lemma_shift_ignores_direction(
    mood: MoodView,
    msg: SttView,
    rise: Score,
    fall: Score,
)
    requires
        fall.bits == rise.bits + 0x8000_0000,
    ensures
        mood.shifted(msg, rise) == mood.shifted(msg, fall),
{
    crate::score::lemma_threshold_ignores_sign(rise, fall);
}

}
