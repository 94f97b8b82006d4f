use sentiric_ai_pipeline_sdk::clients::{ApiClients, MutualTls, TlsLoad, TlsProgress};
use sentiric_ai_pipeline_sdk::dialog::{DialogEvent, DialogRequest, DialogStep};
use sentiric_ai_pipeline_sdk::metadata::GrpcRequest;
use sentiric_ai_pipeline_sdk::orchestrator::CallContext;
use sentiric_ai_pipeline_sdk::session::SessionEvent;
use sentiric_ai_pipeline_sdk::{PipelineOrchestrator, SdkConfig, SdkError};

const REFUSAL: &str =
    "Architectural Violation: Insecure HTTP channels are strictly forbidden. Use https:// and mTLS.";

const KEY: [u8; 48] = [
    48, 46, 2, 1, 0, 48, 5, 6, 3, 43, 101, 112, 4, 34, 4, 32, 241, 103, 21, 156, 56, 60, 165, 65,
    176, 51, 167, 60, 49, 160, 47, 200, 103, 82, 113, 140, 179, 79, 40, 177, 22, 173, 75, 86, 30,
    135, 245, 155,
];

const CERTIFICATE: [u8; 312] = [
    48, 130, 1, 52, 48, 129, 231, 160, 3, 2, 1, 2, 2, 20, 9, 87, 14, 244, 87, 249, 85, 228, 152,
    217, 172, 29, 103, 197, 134, 58, 122, 190, 248, 201, 48, 5, 6, 3, 43, 101, 112, 48, 15, 49, 13,
    48, 11, 6, 3, 85, 4, 3, 12, 4, 116, 101, 115, 116, 48, 32, 23, 13, 50, 54, 49, 49, 49, 52, 50,
    51, 50, 54, 53, 55, 90, 24, 15, 50, 49, 50, 54, 49, 48, 50, 49, 50, 51, 50, 54, 53, 55, 90, 48,
    15, 49, 13, 48, 11, 6, 3, 85, 4, 3, 12, 4, 116, 101, 115, 116, 48, 42, 48, 5, 6, 3, 43, 101,
    112, 3, 33, 0, 27, 5, 127, 178, 201, 251, 191, 35, 97, 89, 133, 43, 173, 45, 67, 40, 5, 137,
    39, 69, 0, 66, 37, 16, 59, 159, 81, 93, 117, 73, 188, 77, 163, 83, 48, 81, 48, 29, 6, 3, 85,
    29, 14, 4, 22, 4, 20, 56, 170, 78, 43, 78, 120, 58, 244, 91, 152, 182, 196, 100, 58, 76, 168,
    210, 6, 160, 38, 48, 31, 6, 3, 85, 29, 35, 4, 24, 48, 22, 128, 20, 56, 170, 78, 43, 78, 120, 58,
    244, 91, 152, 182, 196, 100, 58, 76, 168, 210, 6, 160, 38, 48, 15, 6, 3, 85, 29, 19, 1, 1, 255,
    4, 5, 48, 3, 1, 1, 255, 48, 5, 6, 3, 43, 101, 112, 3, 65, 0, 60, 34, 108, 107, 162, 104, 51,
    150, 137, 62, 10, 67, 169, 99, 25, 5, 69, 206, 72, 251, 71, 200, 44, 43, 160, 11, 214, 172, 70,
    75, 131, 65, 4, 218, 15, 206, 249, 38, 81, 213, 104, 180, 1, 107, 221, 105, 135, 255, 30, 129,
    160, 38, 244, 226, 5, 221, 194, 117, 235, 24, 161, 243, 212, 9,
];

/// The PEM form of some bytes.
fn pem(label: &str, der: &[u8]) -> Vec<u8> {
    let alphabet = b"ABCDEFGHIJKLMNOPQRSTUVWXYZabcdefghijklmnopqrstuvwxyz0123456789+/";
    let mut body = String::new();
    for group in der.chunks(3) {
        let mut n: u32 = 0;
        for i in 0..3 {
            n = n * 256 + *group.get(i).unwrap_or(&0) as u32;
        }
        for i in 0..4 {
            if i <= group.len() {
                body.push(alphabet[((n >> (18 - 6 * i)) & 63) as usize] as char);
            } else {
                body.push('=');
            }
        }
    }
    let mut text = format!("-----BEGIN {}-----\n", label);
    for line in body.as_bytes().chunks(64) {
        text.push_str(std::str::from_utf8(line).unwrap());
        text.push('\n');
    }
    text.push_str(&format!("-----END {}-----\n", label));
    text.into_bytes()
}

fn config(stt: &str, dialog: &str, tts: &str) -> SdkConfig {
    SdkConfig {
        stt_gateway_url: stt.to_string(),
        dialog_service_url: dialog.to_string(),
        tts_gateway_url: tts.to_string(),
        tls_ca_path: "/tls/ca.pem".to_string(),
        tls_cert_path: "/tls/cert.pem".to_string(),
        tls_key_path: "/tls/key.pem".to_string(),
        language_code: "tr-TR".to_string(),
        system_prompt_id: "prompt-1".to_string(),
        tts_voice_id: "voice-1".to_string(),
        tts_sample_rate: 16000,
        edge_mode: false,
        listen_only_mode: false,
        speak_only_mode: true,
        chat_only_mode: false,
    }
}

fn good_config() -> SdkConfig {
    config("https://stt:1", "https://dialog:2", "https://tts:3")
}

fn load(config: &SdkConfig, ca: Vec<u8>, cert: Vec<u8>, key: Vec<u8>) -> MutualTls {
    let mut step = ApiClients::begin_connect(config).unwrap_or_else(|e| panic!("{:?}", e));
    for file in [ca, cert] {
        step = match step.feed(config, Ok(file)) {
            Ok(TlsProgress::Read(next)) => next,
            other => panic!("{:?}", other),
        };
    }
    match step.feed(config, Ok(key)) {
        Ok(TlsProgress::Ready(tls)) => tls,
        other => panic!("{:?}", other),
    }
}

/// Settings that can be used.
fn identity() -> MutualTls {
    let certificate = pem("CERTIFICATE", &CERTIFICATE);
    let key = pem("PRIVATE KEY", &KEY);
    load(&good_config(), certificate.clone(), certificate, key)
}

#[test]
fn plain_http_is_refused_before_anything_is_read() {
    for (a, b, c) in [
        ("http://x", "https://x", "https://x"),
        ("https://x", "http://x", "https://x"),
        ("https://x", "https://x", "http://x"),
        ("HTTP://x", "https://x", "https://x"),
    ] {
        match ApiClients::begin_connect(&config(a, b, c)) {
            Err(SdkError::InvalidArgument(text)) => assert_eq!(text, REFUSAL),
            other => panic!("{:?}", other),
        }
        match ApiClients::connect(&config(a, b, c), &identity()) {
            Err(SdkError::InvalidArgument(text)) => assert_eq!(text, REFUSAL),
            _ => panic!("admitted"),
        }
    }
}

#[test]
fn the_tls_files_are_read_in_order() {
    let config = good_config();
    let first = ApiClients::begin_connect(&config).unwrap();
    assert!(matches!(first, TlsLoad::Ca));
    assert_eq!(first.path(&config), "/tls/ca.pem");
    let second = match first.feed(&config, Ok(vec![1])) {
        Ok(TlsProgress::Read(next)) => next,
        other => panic!("{:?}", other),
    };
    assert_eq!(second.path(&config), "/tls/cert.pem");
    let third = match second.feed(&config, Ok(vec![2])) {
        Ok(TlsProgress::Read(next)) => next,
        other => panic!("{:?}", other),
    };
    assert_eq!(third.path(&config), "/tls/key.pem");
    assert!(matches!(third.feed(&config, Ok(vec![3])), Ok(TlsProgress::Ready(_))));
}

#[test]
fn a_file_that_cannot_be_read_is_named() {
    let config = good_config();
    let failed = || Err("gone".to_string());
    for (step, text) in [
        (TlsLoad::Ca, "CA read error (/tls/ca.pem): gone"),
        (TlsLoad::Cert { ca: vec![] }, "Cert read error (/tls/cert.pem): gone"),
        (TlsLoad::Key { ca: vec![], cert: vec![] }, "Key read error (/tls/key.pem): gone"),
    ] {
        match step.feed(&config, failed()) {
            Err(SdkError::TlsConfigError(got)) => assert_eq!(got, text),
            other => panic!("{:?}", other),
        }
    }
}

#[test]
fn the_tls_settings_hold_what_was_read() {
    let tls = load(&good_config(), vec![11, 12], vec![21, 22], vec![31, 32]);
    let shown = format!("{:?}", tls);
    assert!(shown.contains("domain: Some(\"sentiric.cloud\")"), "{}", shown);
    assert!(shown.contains("certs: [Certificate { pem: [11, 12] }]"), "{}", shown);
    assert!(
        shown.contains(
            "identity: Some(Identity { cert: Certificate { pem: [21, 22] }, key: [31, 32] })"
        ),
        "{}",
        shown
    );
}

#[test]
fn channels_are_made_with_a_full_identity() {
    let config = config("https://stt:1", "HTTPS://dialog:2/x", "https://tts:3");
    match ApiClients::connect(&config, &identity()) {
        Ok(clients) => {
            assert_eq!(clients.stt.uri().to_string(), "https://stt:1/");
            assert_eq!(clients.dialog.uri().to_string(), "https://dialog:2/x");
            assert_eq!(clients.tts.uri().to_string(), "https://tts:3/");
        }
        Err(e) => panic!("{:?}", e),
    }
}

#[test]
fn an_unusable_key_is_a_tls_error() {
    let config = good_config();
    let certificate = pem("CERTIFICATE", &CERTIFICATE);
    let tls = load(&config, certificate.clone(), certificate, b"no key".to_vec());
    match ApiClients::connect(&config, &tls) {
        Err(SdkError::TlsConfigError(text)) => assert_eq!(text, "transport error"),
        Err(e) => panic!("{:?}", e),
        Ok(_) => panic!("admitted"),
    }
}

#[test]
fn an_invalid_url_is_a_connection_error() {
    for (a, b, c) in [
        ("https://a b", "https://x", "https://x"),
        ("https://x", "", "https://x"),
        ("https://x", "https://x", "https://"),
    ] {
        match ApiClients::connect(&config(a, b, c), &identity()) {
            Err(SdkError::ConnectionError(text)) => assert_eq!(text, "invalid URI"),
            Err(e) => panic!("{:?}", e),
            Ok(_) => panic!("admitted"),
        }
    }
}

#[test]
fn the_first_refused_url_decides() {
    let tls = identity();
    assert!(matches!(
        ApiClients::connect(&config("https://x", "grpc://x", "not a url"), &tls),
        Err(SdkError::InvalidArgument(_))
    ));
    assert!(matches!(
        ApiClients::connect(&config("https://x", "not a url", "grpc://x"), &tls),
        Err(SdkError::ConnectionError(_))
    ));
}

#[test]
fn only_encrypted_channels_are_made() {
    for url in ["grpc://host:1", "localhost:50051", "/path", "HTTP://host"] {
        match ApiClients::connect(&config("https://x", "https://x", url), &identity()) {
            Err(SdkError::InvalidArgument(text)) => assert_eq!(text, REFUSAL, "{}", url),
            Err(e) => panic!("{}: {:?}", url, e),
            Ok(_) => panic!("{} admitted", url),
        }
    }
}

#[test]
fn what_tls_settings_come_to_is_passed_on() {
    match ApiClients::tls_applied(Err("why".to_string())) {
        Err(SdkError::TlsConfigError(text)) => assert_eq!(text, "why"),
        _ => panic!("lost"),
    }
    let plain = ApiClients::admit_channel(&"https://a:5".to_string()).unwrap();
    let passed = ApiClients::tls_applied(Ok(plain)).unwrap();
    assert_eq!(passed.uri().port_u16(), Some(5));
}

#[test]
fn the_first_failing_channel_decides() {
    let ok = || ApiClients::admit_channel(&"https://a".to_string());
    let fail = |text: &str| Err(SdkError::Internal(text.to_string()));
    let text = |r: Result<ApiClients, SdkError>| match r {
        Ok(_) => "ok".to_string(),
        Err(e) => e.message(),
    };
    assert_eq!(text(ApiClients::from_channels(ok(), ok(), ok())), "ok");
    assert_eq!(
        text(ApiClients::from_channels(fail("1"), fail("2"), fail("3"))),
        "Internal SDK Error: 1"
    );
    assert_eq!(
        text(ApiClients::from_channels(ok(), fail("2"), fail("3"))),
        "Internal SDK Error: 2"
    );
    assert_eq!(
        text(ApiClients::from_channels(ok(), ok(), fail("3"))),
        "Internal SDK Error: 3"
    );
}

#[test]
fn an_orchestrator_starts_what_its_configuration_says() {
    let orchestrator =
        PipelineOrchestrator::new(good_config(), &identity())
            .unwrap_or_else(|e| panic!("{:?}", e));
    assert_eq!(orchestrator.config().tts_voice_id, "voice-1");
    assert_eq!(orchestrator.clients().tts.uri().to_string(), "https://tts:3/");
    let context = CallContext {
        session_id: "s".to_string(),
        user_id: "u".to_string(),
        trace_id: "t".to_string(),
        span_id: "p".to_string(),
        tenant_id: "n".to_string(),
    };
    let mut session = orchestrator.run_pipeline(&context);
    assert!(!session.listens());
    assert_eq!(session.step(SessionEvent::TextTrigger("x".to_string())).len(), 3);
    let mut turn = orchestrator.start_dialog(&context, "x".to_string());
    match turn.step(DialogEvent::Ready) {
        DialogStep::Send(DialogRequest::Config(c)) => {
            assert_eq!(c.session_id, "s");
            assert_eq!(c.user_id, "u");
        }
        other => panic!("{:?}", other),
    }
    let (_, request) = orchestrator.start_speech("x".to_string());
    assert_eq!(request.voice_id, "voice-1");
    assert!(PipelineOrchestrator::new(
        config("http://x", "https://x", "https://x"),
        &identity()
    )
    .is_err());
}

#[test]
fn an_orchestrator_tags_with_the_names_of_the_call() {
    let orchestrator = match PipelineOrchestrator::new(good_config(), &identity()) {
        Ok(o) => o,
        Err(e) => panic!("{:?}", e),
    };
    let context = CallContext {
        session_id: "session".to_string(),
        user_id: "user".to_string(),
        trace_id: "trace".to_string(),
        span_id: "span".to_string(),
        tenant_id: "tenant".to_string(),
    };
    let (metadata, extensions, message) = tonic::Request::new(7u32).into_parts();
    match orchestrator.tag_request(&context, GrpcRequest { metadata, extensions, message }) {
        Ok(r) => {
            assert_eq!(r.message, 7);
            assert_eq!(r.metadata.get("x-trace-id").unwrap(), "trace");
            assert_eq!(r.metadata.get("x-span-id").unwrap(), "span");
            assert_eq!(r.metadata.get("x-tenant-id").unwrap(), "tenant");
        }
        Err(_) => panic!("refused"),
    }
}

#[test]
fn an_orchestrator_takes_what_connecting_gave() {
    let channel = || ApiClients::admit_channel(&"https://a:5".to_string());
    let clients = ApiClients::from_channels(channel(), channel(), channel());
    match PipelineOrchestrator::from_clients(good_config(), clients) {
        Ok(o) => {
            assert_eq!(o.config().tls_key_path, "/tls/key.pem");
            assert_eq!(o.clients().dialog.uri().port_u16(), Some(5));
        }
        Err(e) => panic!("{:?}", e),
    }
    let failed = Err(SdkError::ConnectionError("why".to_string()));
    match PipelineOrchestrator::from_clients(good_config(), failed) {
        Err(SdkError::ConnectionError(text)) => assert_eq!(text, "why"),
        _ => panic!("lost"),
    }
}
