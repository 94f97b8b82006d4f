//! What an embedding service configures.
use vstd::prelude::*;

verus! {

/// Where the speech services are, which identity to present to them, and in which mode the
/// pipeline runs.
#[derive(Debug, Clone)]
pub struct SdkConfig {
    pub stt_gateway_url: String,
    pub dialog_service_url: String,
    pub tts_gateway_url: String,
    pub tls_ca_path: String,
    pub tls_cert_path: String,
    pub tls_key_path: String,
    pub language_code: String,
    pub system_prompt_id: String,
    pub tts_voice_id: String,
    pub tts_sample_rate: u32,
    pub edge_mode: bool,
    /// Observe only: what is heard is reported, never answered.
    pub listen_only_mode: bool,
    /// Speak only: input texts are spoken as they are, nothing is heard.
    pub speak_only_mode: bool,
    /// Chat only: answers stay texts, nothing is heard or spoken.
    pub chat_only_mode: bool,
}

/// The modes of a configuration.
#[derive(Debug, Clone, Copy, PartialEq, Eq, Structural)]
pub struct Modes {
    pub listen_only: bool,
    pub speak_only: bool,
    pub chat_only: bool,
}

impl Modes {
    /// Whether the session listens: audio is taken and transcribed.
    pub open spec fn listens(self) -> bool {
        !self.speak_only && !self.chat_only
    }
}

impl SdkConfig {
    /// The modes that a configuration sets, as a model value.
    pub open spec fn modes_of(self) -> Modes {
        Modes {
            listen_only: self.listen_only_mode,
            speak_only: self.speak_only_mode,
            chat_only: self.chat_only_mode,
        }
    }

    /// The modes that this configuration sets.
    pub fn modes(&self) -> (r: Modes)
        ensures
            r == self.modes_of(),
    {
        Modes {
            listen_only: self.listen_only_mode,
            speak_only: self.speak_only_mode,
            chat_only: self.chat_only_mode,
        }
    }
}

/// The modes are the three flags of the configuration, each under its name; nothing else of the
/// configuration plays a part.
pub proof fn lemma_modes_are_the_flags(config: SdkConfig)
    ensures
        config.modes_of().listen_only == config.listen_only_mode,
        config.modes_of().speak_only == config.speak_only_mode,
        config.modes_of().chat_only == config.chat_only_mode,
        config.modes_of().listens() <==> !(config.speak_only_mode || config.chat_only_mode),
{
}

}
