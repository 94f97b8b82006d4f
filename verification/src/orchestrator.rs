//! The orchestrator: the channels to the speech services and the configuration they are used with,
//! from which sessions, turns of the dialog and spoken sentences are started.
use crate::clients::{connect_error, connect_refused, connected, ApiClients, MutualTls};
use crate::config::SdkConfig;
use crate::dialog::{opening_messages, DialogTurn, DialogView};
use crate::error::SdkError;
use crate::event::{assistant_says, EventView, PipelineEvent};
use crate::metadata::{injected, GrpcRequest};
use crate::session::{PipelineSession, SessionView};
use crate::speech::{begin_speech, synthesis_request, SynthesisRequest};
use vstd::prelude::*;

verus! {

/// The names under which a call runs.
#[derive(Debug, Clone)]
pub struct CallContext {
    pub session_id: String,
    pub user_id: String,
    pub trace_id: String,
    pub span_id: String,
    pub tenant_id: String,
}

/// The channels to the speech services, with the configuration they are used with.
pub struct PipelineOrchestrator {
    config: SdkConfig,
    clients: ApiClients,
}

impl PipelineOrchestrator {
    /// The configuration, as a model value.
    pub closed spec fn config_of(self) -> SdkConfig {
        self.config
    }

    /// The channels, as a model value.
    pub closed spec fn clients_of(self) -> ApiClients {
        self.clients
    }

    /// An orchestrator for a configuration, once its TLS files have been read.
    pub fn new(config: SdkConfig, tls: &MutualTls) -> (r: Result<
        PipelineOrchestrator,
        SdkError,
    >)
        ensures
            r is Ok <==> connect_error(config, tls.settings()) is None,
            r matches Ok(o) ==> o.config_of() == config && connected(
                config,
                tls.settings(),
                o.clients_of(),
            ),
            r matches Err(e) ==> connect_refused(config, e@),
            r matches Err(e) ==> connect_error(config, tls.settings()) == Some(e@),
    {
        let clients = ApiClients::connect(&config, tls);
        PipelineOrchestrator::from_clients(config, clients)
    }

    /// An orchestrator for a configuration and what came of connecting: exactly where there are
    /// channels, with these and the configuration as they are; else the error as it is.
    pub fn from_clients(config: SdkConfig, clients: Result<ApiClients, SdkError>) -> (r: Result<
        PipelineOrchestrator,
        SdkError,
    >)
        ensures
            r is Ok <==> clients is Ok,
            r matches Ok(o) ==> o.config_of() == config && clients == Ok::<ApiClients, SdkError>(
                o.clients_of(),
            ),
            r matches Err(e) ==> clients == Err::<ApiClients, SdkError>(e),
    {
        match clients {
            Ok(clients) => Ok(PipelineOrchestrator { config, clients }),
            Err(e) => Err(e),
        }
    }

    /// The configuration.
    pub fn config(&self) -> (r: &SdkConfig)
        ensures
            *r == self.config_of(),
    {
        &self.config
    }

    /// The channels.
    pub fn clients(&self) -> (r: &ApiClients)
        ensures
            *r == self.clients_of(),
    {
        &self.clients
    }

    /// Starts a session.
    pub fn run_pipeline(&self, context: &CallContext) -> (r: PipelineSession)
        ensures
            r@ == SessionView::fresh(self.config_of().modes_of(), context.session_id@),
    {
        PipelineSession::new(self.config.modes(), context.session_id.clone())
    }

    /// A turn of the dialog for a text of the user.
    pub fn start_dialog(&self, context: &CallContext, input_text: String) -> (r: DialogTurn)
        ensures
            r@ == DialogView::fresh(
                self.config_of().chat_only_mode,
                opening_messages(
                    self.config_of(),
                    context.session_id@,
                    context.user_id@,
                    input_text@,
                ),
            ),
    {
        DialogTurn::new(
            &self.config,
            context.session_id.clone(),
            context.user_id.clone(),
            input_text,
        )
    }

    /// Starts to speak a sentence.
    pub fn start_speech(&self, sentence: String) -> (r: (PipelineEvent, SynthesisRequest))
        ensures
            r.0@ == EventView::Transcript(assistant_says(sentence@, true)),
            r.1@ == synthesis_request(self.config_of(), sentence@),
    {
        begin_speech(&self.config, sentence)
    }

    /// Tags a request with the names under which the call runs, or gives it back as it is where
    /// its metadata is so full that a tag might find no room.
    pub fn tag_request<T>(&self, context: &CallContext, req: GrpcRequest<T>) -> (r: Result<
        GrpcRequest<T>,
        GrpcRequest<T>,
    >)
        ensures
            r is Ok <==> req.roomy(),
            r matches Ok(t) ==> {
                &&& t.message == req.message
                &&& t.extensions == req.extensions
                &&& t.entries() == injected(
                    req.entries(),
                    context.trace_id@,
                    context.span_id@,
                    context.tenant_id@,
                )
            },
            r matches Err(t) ==> t == req,
    {
        self.clients.try_inject_metadata(
            req,
            context.trace_id.as_str(),
            context.span_id.as_str(),
            context.tenant_id.as_str(),
        )
    }
}

}
