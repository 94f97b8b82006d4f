use sentiric_ai_pipeline_sdk::dialog::{
    is_sentence_complete, DialogEvent, DialogRequest, DialogStep, DialogTurn,
};
use sentiric_ai_pipeline_sdk::{PipelineEvent, SdkConfig, SdkError};

fn config(chat_only: bool) -> SdkConfig {
    SdkConfig {
        stt_gateway_url: "https://stt".to_string(),
        dialog_service_url: "https://dialog".to_string(),
        tts_gateway_url: "https://tts".to_string(),
        tls_ca_path: "ca.pem".to_string(),
        tls_cert_path: "cert.pem".to_string(),
        tls_key_path: "key.pem".to_string(),
        language_code: "tr-TR".to_string(),
        system_prompt_id: "prompt-1".to_string(),
        tts_voice_id: "voice-1".to_string(),
        tts_sample_rate: 16000,
        edge_mode: false,
        listen_only_mode: false,
        speak_only_mode: false,
        chat_only_mode: chat_only,
    }
}

fn open(chat_only: bool) -> DialogTurn {
    DialogTurn::new(&config(chat_only), "s".to_string(), "u".to_string(), "hi".to_string())
}

fn chunk(turn: &mut DialogTurn, text: &str) -> Option<String> {
    match turn.step(DialogEvent::TextResponse(text.to_string())) {
        DialogStep::Receive => None,
        DialogStep::Speak(sentence) => Some(sentence),
        other => panic!("{:?}", other),
    }
}

#[test]
fn a_turn_opens_with_settings_text_and_final_mark() {
    let mut turn = DialogTurn::new(
        &config(false),
        "session-7".to_string(),
        "user-9".to_string(),
        "merhaba".to_string(),
    );
    match turn.step(DialogEvent::Ready) {
        DialogStep::Send(DialogRequest::Config(c)) => {
            assert_eq!(c.session_id, "session-7");
            assert_eq!(c.user_id, "user-9");
            assert_eq!(c.language_code, "tr-TR");
            assert_eq!(c.system_prompt_id, "prompt-1");
        }
        other => panic!("{:?}", other),
    }
    match turn.step(DialogEvent::Ready) {
        DialogStep::Send(DialogRequest::TextInput(text)) => assert_eq!(text, "merhaba"),
        other => panic!("{:?}", other),
    }
    assert!(matches!(
        turn.step(DialogEvent::Ready),
        DialogStep::Send(DialogRequest::IsFinalInput(true))
    ));
    assert!(matches!(turn.step(DialogEvent::Ready), DialogStep::Open));
    assert!(matches!(turn.step(DialogEvent::Opened), DialogStep::Receive));
}

#[test]
fn a_sentence_ends_with_a_mark_and_white_space() {
    assert!(is_sentence_complete("Merhaba. "));
    assert!(is_sentence_complete("Nas\u{131}ls\u{131}n?  "));
    assert!(is_sentence_complete("Dur!\n "));
    assert!(!is_sentence_complete("Merhaba."));
    assert!(!is_sentence_complete("Merhaba, "));
    assert!(!is_sentence_complete("3.14"));
    assert!(is_sentence_complete("Merhaba.\n"));
    assert!(is_sentence_complete("Merhaba. \r\n"));
    assert!(!is_sentence_complete("Merhaba.\t"));
    assert!(!is_sentence_complete("Merhaba,\n"));
    assert!(!is_sentence_complete("Dr.Ay\u{15f}e "));
    assert!(!is_sentence_complete("\n"));
    assert!(!is_sentence_complete("Merhaba\n"));
    assert!(!is_sentence_complete(" "));
    assert!(!is_sentence_complete(""));
}

#[test]
fn a_long_text_ends_at_a_space() {
    let short = format!("{} ", "a".repeat(159));
    let long = format!("{} ", "a".repeat(160));
    assert_eq!(short.len(), 160);
    assert!(!is_sentence_complete(&short));
    assert!(is_sentence_complete(&long));
    assert!(!is_sentence_complete(&"a".repeat(400)));
    assert!(!is_sentence_complete(&format!("{}\n", "a".repeat(400))));
    // Bytes count, not characters.
    let wide = format!("{} ", "\u{131}".repeat(80));
    assert_eq!(wide.chars().count(), 81);
    assert!(is_sentence_complete(&wide));
}

#[test]
fn a_line_break_behind_a_mark_ends_a_sentence() {
    let mut turn = open(false);
    assert_eq!(chunk(&mut turn, "Merhaba.\n"), Some("Merhaba.\n".to_string()));
    assert_eq!(
        chunk(&mut turn, "Nas\u{131}ls\u{131}n? "),
        Some("Nas\u{131}ls\u{131}n? ".to_string())
    );
    assert!(matches!(turn.step(DialogEvent::IsFinalResponse(true)), DialogStep::Receive));
}

#[test]
fn sentences_are_spoken_as_they_become_complete() {
    let mut turn = open(false);
    assert_eq!(chunk(&mut turn, "Mer"), None);
    assert_eq!(chunk(&mut turn, "haba. "), Some("Merhaba. ".to_string()));
    assert_eq!(chunk(&mut turn, "Nas\u{131}l"), None);
    assert_eq!(chunk(&mut turn, "s\u{131}n?"), None);
    assert_eq!(chunk(&mut turn, " "), Some("Nas\u{131}ls\u{131}n? ".to_string()));
    assert_eq!(chunk(&mut turn, "son"), None);
    match turn.step(DialogEvent::IsFinalResponse(true)) {
        DialogStep::Speak(sentence) => assert_eq!(sentence, "son"),
        other => panic!("{:?}", other),
    }
    assert!(matches!(turn.step(DialogEvent::Ended), DialogStep::Finish(Ok(()))));
}

#[test]
fn nothing_of_the_answer_is_lost() {
    let chunks = ["A", ". B", " c.", " ", "", "  d! e", "! ", "\n", "f"];
    let mut turn = open(false);
    let mut spoken = String::new();
    for c in chunks {
        if let Some(sentence) = chunk(&mut turn, c) {
            spoken.push_str(&sentence);
        }
    }
    if let DialogStep::Speak(rest) = turn.step(DialogEvent::IsFinalResponse(true)) {
        spoken.push_str(&rest);
    }
    assert_eq!(spoken, chunks.concat());
}

#[test]
fn a_blank_rest_is_not_spoken_and_kept() {
    let mut turn = open(false);
    assert_eq!(chunk(&mut turn, " \n"), None);
    assert!(matches!(
        turn.step(DialogEvent::IsFinalResponse(true)),
        DialogStep::Receive
    ));
    assert_eq!(chunk(&mut turn, "ok. "), Some(" \nok. ".to_string()));
}

#[test]
fn an_answer_that_goes_on_is_not_flushed() {
    let mut turn = open(false);
    assert_eq!(chunk(&mut turn, "devam"), None);
    assert!(matches!(
        turn.step(DialogEvent::IsFinalResponse(false)),
        DialogStep::Receive
    ));
    assert!(matches!(turn.step(DialogEvent::NoPayload), DialogStep::Receive));
    assert!(matches!(turn.step(DialogEvent::Ended), DialogStep::Finish(Ok(()))));
}

#[test]
fn a_chat_shows_the_whole_answer_so_far() {
    let mut turn = open(true);
    for (c, whole) in [("Bir. ", "Bir. "), ("\u{130}ki", "Bir. \u{130}ki")] {
        match turn.step(DialogEvent::TextResponse(c.to_string())) {
            DialogStep::Emit(PipelineEvent::Transcript(data)) => {
                assert_eq!(data.text, whole);
                assert!(!data.is_final);
                assert_eq!(data.sender, "AI");
                assert_eq!(data.emotion, "neutral");
                assert_eq!(data.gender, "neutral");
                assert_eq!(data.speaker_id, "AI_1");
                assert_eq!(data.arousal.bits, 0);
                assert_eq!(data.valence.bits, 0);
                assert!(data.speaker_vec.is_empty());
                assert!(data.words.is_empty());
            }
            other => panic!("{:?}", other),
        }
    }
    assert!(matches!(
        turn.step(DialogEvent::IsFinalResponse(true)),
        DialogStep::Receive
    ));
}

#[test]
fn an_interruption_ends_a_turn_and_forgets_it() {
    let mut turn = open(false);
    assert_eq!(chunk(&mut turn, "yar\u{131}m"), None);
    assert!(matches!(turn.step(DialogEvent::Cancelled), DialogStep::Finish(Ok(()))));
    assert!(matches!(
        turn.step(DialogEvent::IsFinalResponse(true)),
        DialogStep::Receive
    ));
}

#[test]
fn failures_end_a_turn_with_their_errors() {
    let mut turn = open(false);
    match turn.step(DialogEvent::SendFailed) {
        DialogStep::Finish(Err(SdkError::Internal(text))) => {
            assert_eq!(text, "Dialog channel closed early")
        }
        other => panic!("{:?}", other),
    }
    match turn.step(DialogEvent::Failed(tonic::Status::unavailable("down"))) {
        DialogStep::Finish(Err(SdkError::GrpcError(status))) => {
            assert_eq!(status.code(), tonic::Code::Unavailable);
            assert_eq!(status.message(), "down");
        }
        other => panic!("{:?}", other),
    }
    match turn.step(DialogEvent::Spoken(Err(SdkError::Internal("x".to_string())))) {
        DialogStep::Finish(Err(SdkError::Internal(text))) => assert_eq!(text, "x"),
        other => panic!("{:?}", other),
    }
    assert!(matches!(turn.step(DialogEvent::Spoken(Ok(()))), DialogStep::Receive));
}
