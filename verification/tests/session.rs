use sentiric_ai_pipeline_sdk::config::Modes;
use sentiric_ai_pipeline_sdk::hearing::{has_only_sounds, is_filler, Shifts, SttMessage};
use sentiric_ai_pipeline_sdk::score::Score;
use sentiric_ai_pipeline_sdk::session::{
    PipelineSession, RoutedInput, SessionAction, SessionEvent,
};
use sentiric_ai_pipeline_sdk::{PipelineEvent, PipelineInputEvent, SdkError, WordData};

fn modes(listen_only: bool, speak_only: bool, chat_only: bool) -> Modes {
    Modes { listen_only, speak_only, chat_only }
}

fn session(m: Modes) -> PipelineSession {
    PipelineSession::new(m, "session-1".to_string())
}

fn score(x: f32) -> Score {
    Score::from_bits(x.to_bits())
}

fn message(text: &str, is_final: bool) -> SttMessage {
    SttMessage {
        partial_transcription: text.to_string(),
        is_final,
        emotion_proxy: "neutral".to_string(),
        gender_proxy: "female".to_string(),
        arousal: score(0.0),
        valence: score(0.0),
        speaker_id: "spk".to_string(),
        speaker_vec: vec![score(0.25), score(-1.5)],
        words: vec![WordData {
            word: "w".to_string(),
            start: score(0.0),
            end: score(0.5),
            probability: score(0.75),
        }],
    }
}

fn voiced(arousal: f32, valence: f32, emotion: &str, speaker: &str) -> SttMessage {
    SttMessage {
        arousal: score(arousal),
        valence: score(valence),
        emotion_proxy: emotion.to_string(),
        speaker_id: speaker.to_string(),
        ..message("uzun bir c\u{fc}mle", true)
    }
}

fn hear(s: &mut PipelineSession, msg: SttMessage) -> Vec<SessionAction> {
    let ops = s.shift_operands(&msg);
    let less = |a: Score, b: Score| score(f32::from_bits(a.bits) - f32::from_bits(b.bits));
    let shifts = Shifts {
        arousal: less(ops.arousal, ops.base),
        valence: less(ops.valence, ops.base),
    };
    s.step(SessionEvent::Heard(msg, shifts))
}

/// A short name for each action.
fn names(actions: &[SessionAction]) -> Vec<String> {
    actions
        .iter()
        .map(|a| match a {
            SessionAction::CancelTasks => "cancel".to_string(),
            SessionAction::Emit(PipelineEvent::ClearBuffer) => "clear".to_string(),
            SessionAction::Emit(PipelineEvent::Transcript(t)) => format!("said {}", t.text),
            SessionAction::Emit(PipelineEvent::AcousticMoodShifted { previous_mood, current_mood, .. }) => {
                format!("mood {} {}", previous_mood, current_mood)
            }
            SessionAction::Emit(PipelineEvent::Audio(_)) => "audio".to_string(),
            SessionAction::StartDialog(t) => format!("dialog {}", t),
            SessionAction::StartSpeech(t) => format!("speech {}", t),
            SessionAction::Fail(e) => format!("fail {}", e.message()),
        })
        .collect()
}

#[test]
fn the_dialog_service_is_woken_where_the_session_answers() {
    for (l, s, c, woken) in [
        (false, false, false, true),
        (false, false, true, true),
        (true, false, false, false),
        (false, true, false, false),
        (true, true, false, false),
    ] {
        let wake = session(modes(l, s, c)).wake_up();
        assert_eq!(wake.is_some(), woken);
        if let Some(w) = wake {
            assert_eq!(w.delay_ms, 500);
            assert_eq!(w.text, "<SYSTEM_EVENT: CALL_CONNECTED>");
        }
    }
}

#[test]
fn audio_is_recognised_where_the_session_listens() {
    for (l, s, c, listens) in [
        (false, false, false, true),
        (true, false, false, true),
        (false, true, false, false),
        (false, false, true, false),
    ] {
        let session = session(modes(l, s, c));
        assert_eq!(session.listens(), listens);
        match session.route_input(PipelineInputEvent::Audio(vec![1, 2, 3])) {
            RoutedInput::Recognise(chunk) => assert!(listens && chunk == vec![1, 2, 3]),
            RoutedInput::Drop => assert!(!listens),
            other => panic!("{:?}", other),
        }
        match session.route_input(PipelineInputEvent::Text("selam".to_string())) {
            RoutedInput::Trigger(text) => assert_eq!(text, "selam"),
            other => panic!("{:?}", other),
        }
    }
}

#[test]
fn an_interruption_cuts_and_clears() {
    let mut s = session(modes(false, false, false));
    assert_eq!(names(&s.step(SessionEvent::Interrupt)), ["cancel", "clear"]);
}

#[test]
fn a_text_cuts_and_is_answered_or_spoken() {
    let text = || SessionEvent::TextTrigger(" selam ".to_string());
    let mut s = session(modes(false, false, false));
    assert_eq!(names(&s.step(text())), ["cancel", "clear", "dialog  selam "]);
    let mut s = session(modes(false, true, false));
    assert_eq!(names(&s.step(text())), ["cancel", "clear", "speech  selam "]);
    let mut s = session(modes(false, false, true));
    assert_eq!(names(&s.step(text())), ["cancel", "clear", "dialog  selam "]);
    let mut s = session(modes(true, false, false));
    assert_eq!(names(&s.step(text())), ["cancel", "clear", "dialog  selam "]);
}

#[test]
fn a_growing_text_cuts_in_and_a_final_one_is_answered() {
    let mut s = session(modes(false, false, false));
    assert_eq!(
        names(&hear(&mut s, message(" bir d", false))),
        ["said bir d", "cancel", "clear"]
    );
    assert_eq!(
        names(&hear(&mut s, message(" bir dakika ", true))),
        ["said bir dakika", "dialog bir dakika"]
    );
    assert_eq!(names(&hear(&mut s, message("  ", false))), ["said "]);
    assert_eq!(names(&hear(&mut s, message("", true))), ["said "]);
}

#[test]
fn a_listening_session_only_reports() {
    let mut s = session(modes(true, false, false));
    assert_eq!(names(&hear(&mut s, message("bir d", false))), ["said bir d"]);
    assert_eq!(names(&hear(&mut s, message("bir dakika", true))), ["said bir dakika"]);
}

#[test]
fn a_report_holds_what_was_heard() {
    let mut s = session(modes(false, false, false));
    let actions = hear(&mut s, voiced(0.5, -0.25, "happy", "spk-2"));
    match &actions[0] {
        SessionAction::Emit(PipelineEvent::Transcript(t)) => {
            assert_eq!(t.text, "uzun bir c\u{fc}mle");
            assert!(t.is_final);
            assert_eq!(t.sender, "USER");
            assert_eq!(t.emotion, "happy");
            assert_eq!(t.gender, "female");
            assert_eq!(f32::from_bits(t.arousal.bits), 0.5);
            assert_eq!(f32::from_bits(t.valence.bits), -0.25);
            assert_eq!(t.speaker_id, "spk-2");
            assert_eq!(t.speaker_vec, vec![score(0.25), score(-1.5)]);
            assert_eq!(t.words.len(), 1);
            assert_eq!(t.words[0].word, "w");
            assert_eq!(t.words[0].probability, score(0.75));
        }
        other => panic!("{:?}", other),
    }
}

#[test]
fn fillers_are_passed_over() {
    for text in ["I\u{131}\u{131}", "Eee", "HMM", "hm", "mmm...", " Eee \n", "ee, hm", "eee\u{2026}"] {
        let mut s = session(modes(false, false, false));
        assert!(hear(&mut s, message(text, true)).is_empty(), "{:?}", text);
    }
    // Too long, without a drawn-out sound, or not final.
    let mut s = session(modes(false, false, false));
    assert_eq!(
        names(&hear(&mut s, message("eeee eeeee", true))),
        ["said eeee eeeee", "dialog eeee eeeee"]
    );
    assert_eq!(names(&hear(&mut s, message("em", true))), ["said em", "dialog em"]);
    assert_eq!(names(&hear(&mut s, message("evet", true))), ["said evet", "dialog evet"]);
    assert_eq!(names(&hear(&mut s, message("Eee", false))), ["said Eee", "cancel", "clear"]);
}

#[test]
fn short_words_are_no_fillers() {
    for text in ["Ahmet", "Mehmet", "eee tamam", "evet ee", "emmi", "hm 5", "mm\u{fc}"] {
        let mut s = session(modes(false, false, false));
        assert_eq!(
            names(&hear(&mut s, message(text, true))),
            [format!("said {}", text), format!("dialog {}", text)]
        );
    }
    let mut observer = session(modes(true, false, false));
    assert_eq!(names(&hear(&mut observer, message("Ahmet", true))), ["said Ahmet"]);
}

#[test]
fn the_sounds_of_fillers() {
    for text in ["", "I\u{131}\u{131}", "eEmMhH", "!/:@[`{~", " \t\u{a0}", "\u{2010}\u{2026}\u{2027}"] {
        assert!(has_only_sounds(text), "{:?}", text);
    }
    for text in ["i", "a", "0", "9", "A", "Z", "z", "\u{130}", "\u{200f}", "\u{202a}", "eea", "aee"] {
        assert!(!has_only_sounds(text), "{:?}", text);
    }
}

#[test]
fn fillers_are_told_by_bytes_and_sounds() {
    assert!(is_filler("Eee", "eee"));
    assert!(!is_filler("Eee", "EEE"));
    assert!(is_filler("hmhmhmhmh", "hm"));
    assert!(!is_filler("hmhmhmhmhm", "hm"));
    assert!(!is_filler("123456789", "hm"));
    // Five letters of two bytes each are ten bytes.
    assert!(!is_filler("\u{131}\u{131}\u{131}\u{131}\u{131}", "\u{131}\u{131}\u{131}\u{131}\u{131}"));
    assert!(is_filler("\u{131}\u{131}\u{131}\u{131}", "\u{131}\u{131}\u{131}\u{131}"));
    assert!(!is_filler("ii", "ii"));
}

#[test]
fn lower_case_forms_decide_over_capitals() {
    let mut s = session(modes(false, false, false));
    assert!(hear(&mut s, message("EE", true)).is_empty());
}

#[test]
fn a_mood_needs_a_past() {
    let mut s = session(modes(false, false, false));
    assert_eq!(hear(&mut s, voiced(0.9, 0.1, "angry", "spk")).len(), 2);
    let actions = hear(&mut s, voiced(0.5, 0.3, "calm", "spk"));
    assert_eq!(names(&actions)[1], "mood angry calm");
    match &actions[1] {
        SessionAction::Emit(PipelineEvent::AcousticMoodShifted {
            session_id,
            arousal_shift,
            valence_shift,
            speaker_id,
            speaker_vec,
            ..
        }) => {
            assert_eq!(session_id, "session-1");
            assert_eq!(f32::from_bits(arousal_shift.bits), 0.5f32 - 0.9f32);
            // The valence is taken from the last arousal.
            assert_eq!(f32::from_bits(valence_shift.bits), 0.3f32 - 0.9f32);
            assert_eq!(speaker_id, "spk");
            assert_eq!(speaker_vec, &vec![score(0.25), score(-1.5)]);
        }
        other => panic!("{:?}", other),
    }
}

#[test]
fn a_mood_shifts_by_arousal_or_emotion() {
    let mut s = session(modes(true, false, false));
    hear(&mut s, voiced(0.5, 0.0, "calm", "spk"));
    // Neither far off nor another emotion.
    assert_eq!(hear(&mut s, voiced(0.6, 0.0, "calm", "spk")).len(), 1);
    // Far off.
    assert_eq!(names(&hear(&mut s, voiced(0.8, 0.0, "calm", "spk")))[1], "mood calm calm");
    // Another emotion.
    assert_eq!(names(&hear(&mut s, voiced(0.8, 0.0, "sad", "spk")))[1], "mood calm sad");
    // Another speaker starts afresh.
    assert_eq!(hear(&mut s, voiced(0.1, 0.0, "angry", "other")).len(), 1);
    assert_eq!(names(&hear(&mut s, voiced(0.9, 0.0, "angry", "other")))[1], "mood angry angry");
}

#[test]
fn what_bears_on_no_mood_leaves_it() {
    let mut s = session(modes(true, false, false));
    hear(&mut s, voiced(0.5, 0.0, "calm", "spk"));
    for silent in [0.0, -1.0, f32::NAN] {
        assert_eq!(hear(&mut s, voiced(silent, 0.0, "angry", "spk")).len(), 1);
    }
    let partial = SttMessage { is_final: false, ..voiced(0.9, 0.0, "angry", "spk") };
    assert_eq!(hear(&mut s, partial).len(), 1);
    let filler = SttMessage {
        partial_transcription: "hmm".to_string(),
        ..voiced(0.9, 0.0, "angry", "spk")
    };
    assert_eq!(hear(&mut s, filler).len(), 0);
    let ops = s.shift_operands(&voiced(0.75, 0.25, "calm", "spk"));
    assert_eq!(ops.arousal, score(0.75));
    assert_eq!(ops.valence, score(0.25));
    assert_eq!(ops.base, score(0.5));
}

#[test]
fn a_message_without_text_still_bears_on_the_mood() {
    let mut s = session(modes(false, false, false));
    let silent = SttMessage {
        partial_transcription: String::new(),
        ..voiced(0.5, 0.0, "calm", "spk")
    };
    assert_eq!(names(&hear(&mut s, silent)), ["said "]);
    assert_eq!(
        names(&hear(&mut s, voiced(0.5, 0.0, "sad", "spk")))[1],
        "mood calm sad"
    );
}

#[test]
fn a_failing_recogniser_ends_the_session_and_an_ended_one_does_not() {
    let mut s = session(modes(false, false, false));
    let actions = s.step(SessionEvent::SttFailed(tonic::Status::aborted("gone")));
    assert_eq!(actions.len(), 1);
    match &actions[0] {
        SessionAction::Fail(SdkError::GrpcError(status)) => assert_eq!(status.message(), "gone"),
        other => panic!("{:?}", other),
    }
    assert!(s.step(SessionEvent::SttEnded).is_empty());
}

#[test]
fn only_what_started_since_the_last_cut_runs() {
    let mut s = session(modes(false, false, false));
    let mut running: Vec<String> = Vec::new();
    let mut carry_out = |actions: Vec<SessionAction>| {
        for a in actions {
            match a {
                SessionAction::CancelTasks => running.clear(),
                SessionAction::StartDialog(t) | SessionAction::StartSpeech(t) => running.push(t),
                _ => {}
            }
        }
        running.clone()
    };
    carry_out(s.step(SessionEvent::TextTrigger("bir".to_string())));
    assert_eq!(carry_out(hear(&mut s, message("ikinci c\u{fc}mle", true))), ["bir", "ikinci c\u{fc}mle"]);
    assert!(carry_out(hear(&mut s, message("dur", false))).is_empty());
    assert_eq!(carry_out(hear(&mut s, message("dur bakal\u{131}m", true))), ["dur bakal\u{131}m"]);
    assert_eq!(carry_out(s.step(SessionEvent::TextTrigger("yeni".to_string()))), ["yeni"]);
    assert!(carry_out(s.step(SessionEvent::Interrupt)).is_empty());
}
