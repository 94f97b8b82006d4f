use sentiric_ai_pipeline_sdk::speech::{begin_speech, step_speech, SpeechEvent, SpeechStep};
use sentiric_ai_pipeline_sdk::{PipelineEvent, SdkConfig, SdkError};

fn config(rate: u32) -> SdkConfig {
    SdkConfig {
        stt_gateway_url: "https://stt".to_string(),
        dialog_service_url: "https://dialog".to_string(),
        tts_gateway_url: "https://tts".to_string(),
        tls_ca_path: "ca.pem".to_string(),
        tls_cert_path: "cert.pem".to_string(),
        tls_key_path: "key.pem".to_string(),
        language_code: "tr-TR".to_string(),
        system_prompt_id: "prompt-1".to_string(),
        tts_voice_id: "voice-1".to_string(),
        tts_sample_rate: rate,
        edge_mode: false,
        listen_only_mode: false,
        speak_only_mode: true,
        chat_only_mode: false,
    }
}

#[test]
fn a_sentence_is_reported_and_asked_for() {
    let (event, request) = begin_speech(&config(24000), "Merhaba. ".to_string());
    match event {
        PipelineEvent::Transcript(data) => {
            assert_eq!(data.text, "Merhaba. ");
            assert!(data.is_final);
            assert_eq!(data.sender, "AI");
            assert_eq!(data.speaker_id, "AI_1");
        }
        other => panic!("{:?}", other),
    }
    assert_eq!(request.text, "Merhaba. ");
    assert_eq!(request.text_type, 1);
    assert_eq!(request.voice_id, "voice-1");
    assert_eq!(request.audio_config.audio_format, 1);
    assert_eq!(request.audio_config.sample_rate_hertz, 24000);
    assert_eq!(f32::from_bits(request.audio_config.volume_gain_db.bits), 0.0);
    assert_eq!(request.preferred_provider, "");
}

#[test]
fn a_rate_above_the_signed_range_wraps() {
    for rate in [0, 8000, i32::MAX as u32, 0x8000_0000, 0x8000_0001, u32::MAX] {
        let (_, request) = begin_speech(&config(rate), String::new());
        assert_eq!(request.audio_config.sample_rate_hertz, rate as i32);
    }
}

#[test]
fn audio_is_handed_on_byte_for_byte() {
    let mut out: Vec<u8> = Vec::new();
    for chunk in [vec![1u8, 2], vec![], vec![3], vec![0, 255]] {
        match step_speech(SpeechEvent::AudioContent(chunk.clone())) {
            SpeechStep::Forward(PipelineEvent::Audio(bytes)) => {
                assert!(!bytes.is_empty());
                out.extend(bytes);
            }
            SpeechStep::Receive => assert!(chunk.is_empty()),
            other => panic!("{:?}", other),
        }
    }
    assert_eq!(out, vec![1, 2, 3, 0, 255]);
}

#[test]
fn a_sentence_ends_quietly_or_with_its_error() {
    assert!(matches!(step_speech(SpeechEvent::Opened), SpeechStep::Receive));
    assert!(matches!(step_speech(SpeechEvent::Cancelled), SpeechStep::Finish(Ok(()))));
    assert!(matches!(step_speech(SpeechEvent::Ended), SpeechStep::Finish(Ok(()))));
    assert!(matches!(
        step_speech(SpeechEvent::StreamFailed(tonic::Status::internal("x"))),
        SpeechStep::Finish(Ok(()))
    ));
    match step_speech(SpeechEvent::OpenFailed(tonic::Status::not_found("voice"))) {
        SpeechStep::Finish(Err(SdkError::GrpcError(status))) => {
            assert_eq!(status.code(), tonic::Code::NotFound)
        }
        other => panic!("{:?}", other),
    }
    match step_speech(SpeechEvent::OutputClosed) {
        SpeechStep::Finish(Err(SdkError::Internal(text))) => {
            assert_eq!(text, "Audio output sender dropped")
        }
        other => panic!("{:?}", other),
    }
}
