pub mod clients;
pub mod config;
pub mod dialog;
pub mod error;
pub mod event;
pub mod hearing;
pub mod metadata;
pub mod orchestrator;
pub mod score;
pub mod session;
pub mod speech;
pub mod text;

pub use config::SdkConfig;
pub use error::SdkError;
pub use event::{PipelineEvent, PipelineInputEvent, TranscriptData, WordData};
pub use orchestrator::PipelineOrchestrator;
