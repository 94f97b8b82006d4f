//! The way to the speech services: which addresses are admitted, how the identity for mutual TLS is
//! put together, and which channels come of both.
use crate::config::SdkConfig;
use crate::error::{ErrorView, SdkError};
use crate::text::{same_letter, starts_in_any_case, starts_with_any_case};
use tonic::transport::{Certificate, ClientTlsConfig, Endpoint, Identity};
use vstd::prelude::*;
use vstd::string::*;

verus! {

/// A channel that can be opened.
#[verifier::external_type_specification]
#[verifier::external_body]
pub struct ExEndpoint(tonic::transport::Endpoint);

/// The TLS settings of a channel.
#[verifier::external_type_specification]
#[verifier::external_body]
pub struct ExClientTlsConfig(tonic::transport::ClientTlsConfig);

/// A certificate in PEM form.
#[verifier::external_type_specification]
#[verifier::external_body]
pub struct ExCertificate(tonic::transport::Certificate);

/// A certificate in PEM form with its private key.
#[verifier::external_type_specification]
#[verifier::external_body]
pub struct ExIdentity(tonic::transport::Identity);

/// The bytes of a certificate.
pub uninterp spec fn certificate_pem(certificate: Certificate) -> Seq<u8>;

/// The bytes of an identity: of its certificate and of its key.
pub uninterp spec fn identity_pem(identity: Identity) -> (Seq<u8>, Seq<u8>);

/// TLS settings as a model value.
pub struct TlsSettings {
    /// The name that a server's certificate has to bear, if it is not the host's.
    pub domain: Option<Seq<char>>,
    /// The certificates of the authorities that are trusted.
    pub authorities: Seq<Seq<u8>>,
    /// The certificate and the key that the client presents.
    pub identity: Option<(Seq<u8>, Seq<u8>)>,
}

/// What TLS settings hold.
pub uninterp spec fn tls_settings(tls: ClientTlsConfig) -> TlsSettings;

/// The channel for a URL, without TLS settings; `None` where the URL is not a valid one.
pub uninterp spec fn endpoint_for(url: Seq<char>) -> Option<Endpoint>;

/// Whether `secured` is the channel `plain` with TLS settings applied that hold `settings`.
pub uninterp spec fn secured_with(plain: Endpoint, settings: TlsSettings, secured: Endpoint) -> bool;

/// Calls `Certificate::from_pem` of tonic, which keeps the bytes as they are.
#[verifier::external_body]
fn certificate_from_pem(pem: Vec<u8>) -> (r: Certificate)
    ensures
        certificate_pem(r) == pem@,
{
    Certificate::from_pem(pem)
}

/// Calls `Identity::from_pem` of tonic, which keeps the bytes of both parts as they are.
#[verifier::external_body]
fn identity_from_pem(cert: Vec<u8>, key: Vec<u8>) -> (r: Identity)
    ensures
        identity_pem(r) == (cert@, key@),
{
    Identity::from_pem(cert, key)
}

/// Calls `ClientTlsConfig::new` of tonic: settings that hold nothing.
#[verifier::external_body]
fn tls_new() -> (r: ClientTlsConfig)
    ensures
        tls_settings(r) == (TlsSettings {
            domain: None,
            authorities: Seq::empty(),
            identity: None,
        }),
{
    ClientTlsConfig::new()
}

/// Calls `ClientTlsConfig::domain_name` of tonic, which sets the domain and nothing else.
#[verifier::external_body]
fn tls_domain_name(tls: ClientTlsConfig, domain: &str) -> (r: ClientTlsConfig)
    ensures
        tls_settings(r) == (TlsSettings { domain: Some(domain@), ..tls_settings(tls) }),
{
    tls.domain_name(domain)
}

/// Calls `ClientTlsConfig::ca_certificate` of tonic, which adds a trusted certificate behind those
/// that are there and changes nothing else.
#[verifier::external_body]
fn tls_ca_certificate(tls: ClientTlsConfig, ca: Certificate) -> (r: ClientTlsConfig)
    ensures
        tls_settings(r) == (TlsSettings {
            authorities: tls_settings(tls).authorities.push(certificate_pem(ca)),
            ..tls_settings(tls)
        }),
{
    tls.ca_certificate(ca)
}

/// Calls `ClientTlsConfig::identity` of tonic, which sets the identity and nothing else.
#[verifier::external_body]
fn tls_identity(tls: ClientTlsConfig, identity: Identity) -> (r: ClientTlsConfig)
    ensures
        tls_settings(r) == (TlsSettings {
            identity: Some(identity_pem(identity)),
            ..tls_settings(tls)
        }),
{
    tls.identity(identity)
}

/// Calls `clone` on a `ClientTlsConfig` of tonic: the clone holds the same settings.
#[verifier::external_body]
fn tls_clone(tls: &ClientTlsConfig) -> (r: ClientTlsConfig)
    ensures
        tls_settings(r) == tls_settings(*tls),
{
    tls.clone()
}

/// Calls `Endpoint::from_shared` of tonic, and `to_string` on the error. Claimed of it: whether
/// the URL is a valid one, and the channel for it, are functions of the URL alone; the error for a
/// URL that is not valid reads `invalid URI`.
#[verifier::external_body]
fn endpoint_from_shared(url: String) -> (r: Result<Endpoint, String>)
    ensures
        r is Ok <==> endpoint_for(url@) is Some,
        r matches Ok(e) ==> endpoint_for(url@) == Some(e),
        r matches Err(text) ==> text@ == "invalid URI"@,
{
    Endpoint::from_shared(url).map_err(|e| e.to_string())
}

/// Calls `Endpoint::tls_config` of tonic, and `to_string` on the error. Claimed of it: a channel
/// that comes back is the given one with the given settings applied; an error comes back only where
/// no channel is the given one with those settings applied, and it reads `transport error`. So
/// whether the settings can be used is the same for the same channel and settings throughout a
/// process: tonic reads them afresh in every call, with the cryptography that rustls finds for the
/// process once and keeps. Which settings can be used is left unsaid: it rests on that cryptography.
/// The call panics in a process for which rustls
/// finds no cryptography at all, or one that supports no protocol version; no argument decides that.
#[verifier::external_body]
fn endpoint_tls_config(plain: Endpoint, tls: ClientTlsConfig) -> (r: Result<Endpoint, String>)
    ensures
        r matches Ok(e) ==> secured_with(plain, tls_settings(tls), e),
        r is Err ==> forall|e: Endpoint| !secured_with(plain, tls_settings(tls), e),
        r matches Err(text) ==> text@ == "transport error"@,
{
    plain.tls_config(tls).map_err(|e| e.to_string())
}

/// The name that every server's certificate has to bear.
pub open spec fn service_domain() -> Seq<char> {
    "sentiric.cloud"@
}

/// The answer to an address that is not an encrypted one.
pub open spec fn insecure_answer() -> ErrorView {
    ErrorView::InvalidArgument(
        "Architectural Violation: Insecure HTTP channels are strictly forbidden. Use https:// and mTLS."@,
    )
}

/// Whether a URL asks for plain HTTP. The case of a scheme does not matter.
pub open spec fn plain_http(url: Seq<char>) -> bool {
    starts_in_any_case(url, "http://"@)
}

/// Whether a URL asks for HTTPS. The case of a scheme does not matter.
pub open spec fn https(url: Seq<char>) -> bool {
    starts_in_any_case(url, "https://"@)
}

/// Whether none of the configured URLs asks for plain HTTP.
pub open spec fn transport_admitted(config: SdkConfig) -> bool {
    &&& !plain_http(config.stt_gateway_url@)
    &&& !plain_http(config.dialog_service_url@)
    &&& !plain_http(config.tts_gateway_url@)
}

/// The settings for mutual TLS with the given certificates and key.
pub open spec fn mutual_tls(ca: Seq<u8>, cert: Seq<u8>, key: Seq<u8>) -> TlsSettings {
    TlsSettings {
        domain: Some(service_domain()),
        authorities: seq![ca],
        identity: Some((cert, key)),
    }
}

/// Whether TLS settings are mutual: the server has to prove its name to one authority, and the
/// client has an identity to present.
pub open spec fn is_mutual(settings: TlsSettings) -> bool {
    &&& settings.domain == Some(service_domain())
    &&& settings.authorities.len() == 1
    &&& settings.identity is Some
}

/// TLS settings for both sides: they can only be made of the three TLS files.
#[derive(Debug)]
pub struct MutualTls {
    tls: ClientTlsConfig,
}

impl MutualTls {
    /// What the settings hold.
    pub closed spec fn settings(self) -> TlsSettings {
        tls_settings(self.tls)
    }

    #[verifier::type_invariant]
    closed spec fn mutual(self) -> bool {
        is_mutual(self.settings())
    }

    /// The settings for the given certificates and key.
    fn new(ca: Vec<u8>, cert: Vec<u8>, key: Vec<u8>) -> (r: MutualTls)
        ensures
            r.settings() == mutual_tls(ca@, cert@, key@),
    {
        let named = tls_domain_name(tls_new(), "sentiric.cloud");
        let trusting = tls_ca_certificate(named, certificate_from_pem(ca));
        let tls = tls_identity(trusting, identity_from_pem(cert, key));
        assert(tls_settings(tls).authorities =~= seq![ca@]);
        MutualTls { tls }
    }
}

/// How far the TLS files have been read. They are read in the order of the variants, one after
/// the other.
#[derive(Debug)]
pub enum TlsLoad {
    /// The authority's certificate is to be read.
    Ca,
    /// The client's certificate is to be read.
    Cert { ca: Vec<u8> },
    /// The client's key is to be read.
    Key { ca: Vec<u8>, cert: Vec<u8> },
}

/// How far the TLS files have been read, as a model value.
pub enum TlsLoadView {
    Ca,
    Cert { ca: Seq<u8> },
    Key { ca: Seq<u8>, cert: Seq<u8> },
}

impl View for TlsLoad {
    type V = TlsLoadView;

    open spec fn view(&self) -> TlsLoadView {
        match self {
            TlsLoad::Ca => TlsLoadView::Ca,
            TlsLoad::Cert { ca } => TlsLoadView::Cert { ca: ca@ },
            TlsLoad::Key { ca, cert } => TlsLoadView::Key { ca: ca@, cert: cert@ },
        }
    }
}

/// What comes of a file that has been read.
#[derive(Debug)]
pub enum TlsProgress {
    /// There is more to read.
    Read(TlsLoad),
    /// All is read.
    Ready(MutualTls),
}

/// What comes of a file that has been read, as a model value.
pub enum TlsProgressView {
    Read(TlsLoadView),
    Ready(TlsSettings),
}

impl View for TlsProgress {
    type V = TlsProgressView;

    open spec fn view(&self) -> TlsProgressView {
        match self {
            TlsProgress::Read(load) => TlsProgressView::Read(load@),
            TlsProgress::Ready(tls) => TlsProgressView::Ready(tls.settings()),
        }
    }
}

/// A progress or an error, as a model value.
pub open spec fn progress_view(r: Result<TlsProgress, SdkError>) -> Result<
    TlsProgressView,
    ErrorView,
> {
    match r {
        Ok(p) => Ok(p@),
        Err(e) => Err(e@),
    }
}

/// What reading a file gave, as a model value.
pub open spec fn read_view(read: Result<Vec<u8>, String>) -> Result<Seq<u8>, Seq<char>> {
    match read {
        Ok(bytes) => Ok(bytes@),
        Err(text) => Err(text@),
    }
}

/// The error for the file `path`, called `what`, that could not be read for the reason `reason`.
pub open spec fn read_error(what: Seq<char>, path: Seq<char>, reason: Seq<char>) -> ErrorView {
    ErrorView::TlsConfigError(what + " read error ("@ + path + "): "@ + reason)
}

impl TlsLoadView {
    /// The file that is to be read.
    pub open spec fn wanted(self, config: SdkConfig) -> Seq<char> {
        match self {
            TlsLoadView::Ca => config.tls_ca_path@,
            TlsLoadView::Cert { .. } => config.tls_cert_path@,
            TlsLoadView::Key { .. } => config.tls_key_path@,
        }
    }

    /// What that file is called in an error.
    pub open spec fn called(self) -> Seq<char> {
        match self {
            TlsLoadView::Ca => "CA"@,
            TlsLoadView::Cert { .. } => "Cert"@,
            TlsLoadView::Key { .. } => "Key"@,
        }
    }

    /// What comes of reading that file.
    pub open spec fn fed(self, config: SdkConfig, read: Result<Seq<u8>, Seq<char>>) -> Result<
        TlsProgressView,
        ErrorView,
    > {
        match read {
            Err(reason) => Err(read_error(self.called(), self.wanted(config), reason)),
            Ok(bytes) => Ok(
                match self {
                    TlsLoadView::Ca => TlsProgressView::Read(TlsLoadView::Cert { ca: bytes }),
                    TlsLoadView::Cert { ca } => TlsProgressView::Read(
                        TlsLoadView::Key { ca, cert: bytes },
                    ),
                    TlsLoadView::Key { ca, cert } => TlsProgressView::Ready(
                        mutual_tls(ca, cert, bytes),
                    ),
                },
            ),
        }
    }
}

impl TlsLoad {
    /// The path of the file that is to be read.
    pub fn path(&self, config: &SdkConfig) -> (r: String)
        ensures
            r@ == self@.wanted(*config),
    {
        match self {
            TlsLoad::Ca => config.tls_ca_path.clone(),
            TlsLoad::Cert { .. } => config.tls_cert_path.clone(),
            TlsLoad::Key { .. } => config.tls_key_path.clone(),
        }
    }

    /// Takes what reading that file gave: its bytes, or the reason why it could not be read.
    pub fn feed(self, config: &SdkConfig, read: Result<Vec<u8>, String>) -> (r: Result<
        TlsProgress,
        SdkError,
    >)
        ensures
            progress_view(r) == self@.fed(*config, read_view(read)),
    {
        match read {
            Err(reason) => {
                let what = match &self {
                    TlsLoad::Ca => "CA".to_string(),
                    TlsLoad::Cert { .. } => "Cert".to_string(),
                    TlsLoad::Key { .. } => "Key".to_string(),
                };
                let path = self.path(config);
                let text = what.concat(" read error (").concat(path.as_str()).concat("): ").concat(
                    reason.as_str(),
                );
                Err(SdkError::TlsConfigError(text))
            },
            Ok(bytes) => match self {
                TlsLoad::Ca => Ok(TlsProgress::Read(TlsLoad::Cert { ca: bytes })),
                TlsLoad::Cert { ca } => Ok(TlsProgress::Read(TlsLoad::Key { ca, cert: bytes })),
                TlsLoad::Key { ca, cert } => Ok(
                    TlsProgress::Ready(MutualTls::new(ca, cert, bytes)),
                ),
            },
        }
    }
}

/// The channels to the speech services, ready to be opened.
pub struct ApiClients {
    pub stt: Endpoint,
    pub dialog: Endpoint,
    pub tts: Endpoint,
}

/// Whether a URL is a valid one for an encrypted channel.
pub open spec fn url_admitted(url: Seq<char>) -> bool {
    endpoint_for(url) is Some && https(url)
}

/// Whether `e` is the channel for `url` with the given TLS settings.
pub open spec fn opened(url: Seq<char>, settings: TlsSettings, e: Endpoint) -> bool {
    url_admitted(url) && secured_with(endpoint_for(url).unwrap(), settings, e)
}

/// Whether `e` is the error for `url`: it is not a valid one, it is not an encrypted one, or the
/// TLS settings cannot be used for it.
pub open spec fn refused(url: Seq<char>, e: ErrorView) -> bool {
    if endpoint_for(url) is None {
        e == ErrorView::ConnectionError("invalid URI"@)
    } else if !https(url) {
        e == insecure_answer()
    } else {
        e == ErrorView::TlsConfigError("transport error"@)
    }
}

/// Whether the channel for `url` can be given the TLS settings.
pub open spec fn can_open(url: Seq<char>, settings: TlsSettings) -> bool {
    exists|e: Endpoint| #[trigger] opened(url, settings, e)
}

/// The error for `url` with the given TLS settings, if there is one.
pub open spec fn refusal(url: Seq<char>, settings: TlsSettings) -> Option<ErrorView> {
    if endpoint_for(url) is None {
        Some(ErrorView::ConnectionError("invalid URI"@))
    } else if !https(url) {
        Some(insecure_answer())
    } else if !can_open(url, settings) {
        Some(ErrorView::TlsConfigError("transport error"@))
    } else {
        None
    }
}

/// The error for a configuration with the given TLS settings, if there is one.
pub open spec fn connect_error(config: SdkConfig, settings: TlsSettings) -> Option<ErrorView> {
    let stt = refusal(config.stt_gateway_url@, settings);
    let dialog = refusal(config.dialog_service_url@, settings);
    let tts = refusal(config.tts_gateway_url@, settings);
    if !transport_admitted(config) {
        Some(insecure_answer())
    } else if stt is Some {
        stt
    } else if dialog is Some {
        dialog
    } else {
        tts
    }
}

/// Whether `clients` are the channels to the three configured URLs, none of which asks for plain
/// HTTP, with the given TLS settings, which are mutual.
pub open spec fn connected(config: SdkConfig, settings: TlsSettings, clients: ApiClients) -> bool {
    &&& is_mutual(settings)
    &&& transport_admitted(config)
    &&& opened(config.stt_gateway_url@, settings, clients.stt)
    &&& opened(config.dialog_service_url@, settings, clients.dialog)
    &&& opened(config.tts_gateway_url@, settings, clients.tts)
}

/// Whether `e` is the error for a configuration: a URL that asks for plain HTTP comes before
/// everything else, then the first of the URLs that is refused, in the order: recogniser, dialog,
/// speech.
pub open spec fn connect_refused(config: SdkConfig, e: ErrorView) -> bool {
    let stt = config.stt_gateway_url@;
    let dialog = config.dialog_service_url@;
    let tts = config.tts_gateway_url@;
    if !transport_admitted(config) {
        e == insecure_answer()
    } else {
        ||| refused(stt, e)
        ||| url_admitted(stt) && refused(dialog, e)
        ||| url_admitted(stt) && url_admitted(dialog) && refused(tts, e)
    }
}

impl ApiClients {
    /// Refuses a configuration with a URL that asks for plain HTTP. In every other one, the TLS
    /// files are to be read next.
    pub fn begin_connect(config: &SdkConfig) -> (r: Result<TlsLoad, SdkError>)
        ensures
            r is Ok <==> transport_admitted(*config),
            r matches Ok(load) ==> load@ == TlsLoadView::Ca,
            r matches Err(e) ==> e@ == insecure_answer(),
    {
        if starts_with_any_case(config.stt_gateway_url.as_str(), "http://") || starts_with_any_case(
            config.dialog_service_url.as_str(),
            "http://",
        ) || starts_with_any_case(config.tts_gateway_url.as_str(), "http://") {
            return Err(insecure());
        }
        Ok(TlsLoad::Ca)
    }

    /// The channel for a URL, still without TLS settings, where the URL is a valid one for an
    /// encrypted channel.
    pub fn admit_channel(url: &String) -> (r: Result<Endpoint, SdkError>)
        ensures
            r is Ok <==> url_admitted(url@),
            r matches Ok(plain) ==> endpoint_for(url@) == Some(plain),
            r matches Err(e) ==> refused(url@, e@),
    {
        match endpoint_from_shared(url.clone()) {
            Err(text) => Err(SdkError::ConnectionError(text)),
            Ok(plain) => {
                if starts_with_any_case(url.as_str(), "https://") {
                    Ok(plain)
                } else {
                    Err(insecure())
                }
            },
        }
    }

    /// What comes of applying TLS settings to a channel, as an outcome of the SDK.
    pub fn tls_applied(applied: Result<Endpoint, String>) -> (r: Result<Endpoint, SdkError>)
        ensures
            r is Ok <==> applied is Ok,
            r matches Ok(e) ==> applied == Ok::<Endpoint, String>(e),
            r matches Err(e) ==> e@ == ErrorView::TlsConfigError(applied->Err_0@),
    {
        match applied {
            Ok(e) => Ok(e),
            Err(text) => Err(SdkError::TlsConfigError(text)),
        }
    }

    /// The encrypted channel to one service.
    fn open_channel(url: &String, tls: &MutualTls) -> (r: Result<Endpoint, SdkError>)
        ensures
            r is Ok <==> refusal(url@, tls.settings()) is None,
            r matches Ok(e) ==> opened(url@, tls.settings(), e),
            r matches Err(e) ==> refused(url@, e@),
            r matches Err(e) ==> refusal(url@, tls.settings()) == Some(e@),
    {
        match ApiClients::admit_channel(url) {
            Err(e) => Err(e),
            Ok(plain) => {
                let r = ApiClients::tls_applied(endpoint_tls_config(plain, tls_clone(&tls.tls)));
                assert(r matches Ok(e) ==> opened(url@, tls.settings(), e));
                r
            },
        }
    }

    /// The channels to the three services, or the first error among them.
    pub fn from_channels(
        stt: Result<Endpoint, SdkError>,
        dialog: Result<Endpoint, SdkError>,
        tts: Result<Endpoint, SdkError>,
    ) -> (r: Result<ApiClients, SdkError>)
        ensures
            r == (match (stt, dialog, tts) {
                (Err(e), _, _) => Err(e),
                (_, Err(e), _) => Err(e),
                (_, _, Err(e)) => Err(e),
                (Ok(stt), Ok(dialog), Ok(tts)) => Ok(ApiClients { stt, dialog, tts }),
            }),
    {
        match stt {
            Err(e) => Err(e),
            Ok(stt) => match dialog {
                Err(e) => Err(e),
                Ok(dialog) => match tts {
                    Err(e) => Err(e),
                    Ok(tts) => Ok(ApiClients { stt, dialog, tts }),
                },
            },
        }
    }

    /// The channels to the speech services, in the order: recogniser, dialog, speech. The first
    /// one that is refused decides the error.
    pub fn connect(config: &SdkConfig, tls: &MutualTls) -> (r: Result<ApiClients, SdkError>)
        ensures
            r is Ok <==> connect_error(*config, tls.settings()) is None,
            r matches Ok(clients) ==> connected(*config, tls.settings(), clients),
            r matches Err(e) ==> connect_refused(*config, e@),
            r matches Err(e) ==> connect_error(*config, tls.settings()) == Some(e@),
    {
        proof {
            use_type_invariant(tls);
        }
        match ApiClients::begin_connect(config) {
            Err(e) => Err(e),
            Ok(_) => ApiClients::from_channels(
                ApiClients::open_channel(&config.stt_gateway_url, tls),
                ApiClients::open_channel(&config.dialog_service_url, tls),
                ApiClients::open_channel(&config.tts_gateway_url, tls),
            ),
        }
    }
}

/// The error for an address that is not an encrypted one.
fn insecure() -> (r: SdkError)
    ensures
        r@ == insecure_answer(),
{
    SdkError::InvalidArgument(
        "Architectural Violation: Insecure HTTP channels are strictly forbidden. Use https:// and mTLS.".to_string(),
    )
}

/// An HTTPS address does not ask for plain HTTP.
proof fn lemma_https_is_not_plain(url: Seq<char>)
    requires
        https(url),
    ensures
        !plain_http(url),
{
    reveal_strlit("http://");
    reveal_strlit("https://");
    assert(same_letter(url[4], "https://"@[4]));
    if plain_http(url) {
        assert(same_letter(url[4], "http://"@[4]));
    }
}

/// All communication is encrypted for both sides: every channel is that of an HTTPS address, with
/// TLS settings that are mutual applied to it.
pub proof fn lemma_channels_are_mutual_tls(
    config: SdkConfig,
    settings: TlsSettings,
    clients: ApiClients,
)
    requires
        connected(config, settings, clients),
    ensures
        is_mutual(settings),
        forall|url: Seq<char>|
            url == config.stt_gateway_url@ || url == config.dialog_service_url@ || url
                == config.tts_gateway_url@ ==> #[trigger] https(url) && !plain_http(url),
        secured_with(
            endpoint_for(config.stt_gateway_url@).unwrap(),
            settings,
            clients.stt,
        ),
        secured_with(
            endpoint_for(config.dialog_service_url@).unwrap(),
            settings,
            clients.dialog,
        ),
        secured_with(
            endpoint_for(config.tts_gateway_url@).unwrap(),
            settings,
            clients.tts,
        ),
{
    lemma_https_is_not_plain(config.stt_gateway_url@);
    lemma_https_is_not_plain(config.dialog_service_url@);
    lemma_https_is_not_plain(config.tts_gateway_url@);
}

/// A configuration with an address that asks for plain HTTP is never connected, whatever the TLS
/// settings; the answer is always the same.
pub proof fn lemma_plain_http_is_refused(
    config: SdkConfig,
    settings: TlsSettings,
    clients: ApiClients,
    e: ErrorView,
)
    requires
        plain_http(config.stt_gateway_url@) || plain_http(config.dialog_service_url@) || plain_http(
            config.tts_gateway_url@,
        ),
    ensures
        !connected(config, settings, clients),
        connect_refused(config, e) ==> e == insecure_answer(),
{
}

/// What comes of reading the three TLS files one after the other: the first that cannot be read
/// decides the error, and if all can be, what is presented is what they hold.
pub proof fn lemma_tls_files_make_mutual_tls(
    config: SdkConfig,
    ca: Result<Seq<u8>, Seq<char>>,
    cert: Result<Seq<u8>, Seq<char>>,
    key: Result<Seq<u8>, Seq<char>>,
)
    ensures
        loaded(config, ca, cert, key) == (match (ca, cert, key) {
            (Err(reason), _, _) => Err(read_error("CA"@, config.tls_ca_path@, reason)),
            (_, Err(reason), _) => Err(read_error("Cert"@, config.tls_cert_path@, reason)),
            (_, _, Err(reason)) => Err(read_error("Key"@, config.tls_key_path@, reason)),
            (Ok(ca), Ok(cert), Ok(key)) => Ok(mutual_tls(ca, cert, key)),
        }),
{
}

/// What three reads come to, each fed to what the one before gave.
pub open spec fn loaded(
    config: SdkConfig,
    ca: Result<Seq<u8>, Seq<char>>,
    cert: Result<Seq<u8>, Seq<char>>,
    key: Result<Seq<u8>, Seq<char>>,
) -> Result<TlsSettings, ErrorView> {
    match TlsLoadView::Ca.fed(config, ca) {
        Err(e) => Err(e),
        Ok(TlsProgressView::Ready(settings)) => Ok(settings),
        Ok(TlsProgressView::Read(second)) => match second.fed(config, cert) {
            Err(e) => Err(e),
            Ok(TlsProgressView::Ready(settings)) => Ok(settings),
            Ok(TlsProgressView::Read(third)) => match third.fed(config, key) {
                Err(e) => Err(e),
                Ok(TlsProgressView::Ready(settings)) => Ok(settings),
                Ok(TlsProgressView::Read(_)) => arbitrary(),
            },
        },
    }
}

/// The characters of a scheme, small and capital.
proof fn lemma_scheme_characters(c: char)
    ensures
        same_letter(c, 'h') <==> c == 'h' || c == 'H',
        same_letter(c, 't') <==> c == 't' || c == 'T',
        same_letter(c, 'p') <==> c == 'p' || c == 'P',
        same_letter(c, 's') <==> c == 's' || c == 'S',
        same_letter(c, ':') <==> c == ':',
        same_letter(c, '/') <==> c == '/',
{
}

/// A URL asks for plain HTTP exactly where it starts with these seven characters, the letters small
/// or capital.
pub proof fn lemma_plain_http_characters(url: Seq<char>)
    ensures
        plain_http(url) <==> {
            &&& url.len() >= 7
            &&& url[0] == 'h' || url[0] == 'H'
            &&& url[1] == 't' || url[1] == 'T'
            &&& url[2] == 't' || url[2] == 'T'
            &&& url[3] == 'p' || url[3] == 'P'
            &&& url[4] == ':'
            &&& url[5] == '/'
            &&& url[6] == '/'
        },
{
    reveal_strlit("http://");
    if url.len() >= 7 {
        lemma_scheme_characters(url[0]);
        assert(same_letter(url[0], "http://"@[0]) <==> same_letter(url[0], 'h'));
        lemma_scheme_characters(url[1]);
        assert(same_letter(url[1], "http://"@[1]) <==> same_letter(url[1], 't'));
        lemma_scheme_characters(url[2]);
        assert(same_letter(url[2], "http://"@[2]) <==> same_letter(url[2], 't'));
        lemma_scheme_characters(url[3]);
        assert(same_letter(url[3], "http://"@[3]) <==> same_letter(url[3], 'p'));
        lemma_scheme_characters(url[4]);
        assert(same_letter(url[4], "http://"@[4]) <==> same_letter(url[4], ':'));
        lemma_scheme_characters(url[5]);
        assert(same_letter(url[5], "http://"@[5]) <==> same_letter(url[5], '/'));
        lemma_scheme_characters(url[6]);
        assert(same_letter(url[6], "http://"@[6]) <==> same_letter(url[6], '/'));
    }
}

/// A URL asks for HTTPS exactly where it starts with these eight characters, the letters small or
/// capital.
pub proof fn lemma_https_characters(url: Seq<char>)
    ensures
        https(url) <==> {
            &&& url.len() >= 8
            &&& url[0] == 'h' || url[0] == 'H'
            &&& url[1] == 't' || url[1] == 'T'
            &&& url[2] == 't' || url[2] == 'T'
            &&& url[3] == 'p' || url[3] == 'P'
            &&& url[4] == 's' || url[4] == 'S'
            &&& url[5] == ':'
            &&& url[6] == '/'
            &&& url[7] == '/'
        },
{
    reveal_strlit("https://");
    if url.len() >= 8 {
        lemma_scheme_characters(url[0]);
        assert(same_letter(url[0], "https://"@[0]) <==> same_letter(url[0], 'h'));
        lemma_scheme_characters(url[1]);
        assert(same_letter(url[1], "https://"@[1]) <==> same_letter(url[1], 't'));
        lemma_scheme_characters(url[2]);
        assert(same_letter(url[2], "https://"@[2]) <==> same_letter(url[2], 't'));
        lemma_scheme_characters(url[3]);
        assert(same_letter(url[3], "https://"@[3]) <==> same_letter(url[3], 'p'));
        lemma_scheme_characters(url[4]);
        assert(same_letter(url[4], "https://"@[4]) <==> same_letter(url[4], 's'));
        lemma_scheme_characters(url[5]);
        assert(same_letter(url[5], "https://"@[5]) <==> same_letter(url[5], ':'));
        lemma_scheme_characters(url[6]);
        assert(same_letter(url[6], "https://"@[6]) <==> same_letter(url[6], '/'));
        lemma_scheme_characters(url[7]);
        assert(same_letter(url[7], "https://"@[7]) <==> same_letter(url[7], '/'));
    }
}

/// Success is owed: where the three URLs are valid HTTPS ones and the TLS settings can be applied to
/// the channel of each, there is no error, in whatever mode and with whatever else is configured.
pub proof fn lemma_good_configuration_connects(
    config: SdkConfig,
    settings: TlsSettings,
    stt: Endpoint,
    dialog: Endpoint,
    tts: Endpoint,
)
    requires
        endpoint_for(config.stt_gateway_url@) is Some,
        endpoint_for(config.dialog_service_url@) is Some,
        endpoint_for(config.tts_gateway_url@) is Some,
        https(config.stt_gateway_url@),
        https(config.dialog_service_url@),
        https(config.tts_gateway_url@),
        secured_with(endpoint_for(config.stt_gateway_url@).unwrap(), settings, stt),
        secured_with(endpoint_for(config.dialog_service_url@).unwrap(), settings, dialog),
        secured_with(endpoint_for(config.tts_gateway_url@).unwrap(), settings, tts),
    ensures
        connect_error(config, settings) is None,
{
    lemma_https_is_not_plain(config.stt_gateway_url@);
    lemma_https_is_not_plain(config.dialog_service_url@);
    lemma_https_is_not_plain(config.tts_gateway_url@);
    assert(opened(config.stt_gateway_url@, settings, stt));
    assert(opened(config.dialog_service_url@, settings, dialog));
    assert(opened(config.tts_gateway_url@, settings, tts));
}

/// An error has a cause in one of the three URLs: a URL that is not valid, one that is not HTTPS, or
/// a channel to which the TLS settings cannot be applied. No other error comes.
pub proof fn lemma_connect_error_has_a_cause(config: SdkConfig, settings: TlsSettings)
    requires
        connect_error(config, settings) is Some,
    ensures
        exists|url: Seq<char>|
            #![trigger endpoint_for(url)]
            (url == config.stt_gateway_url@ || url == config.dialog_service_url@ || url
                == config.tts_gateway_url@) && match connect_error(config, settings).unwrap() {
                ErrorView::ConnectionError(text) => endpoint_for(url) is None && text
                    == "invalid URI"@,
                ErrorView::InvalidArgument(_) => !https(url),
                ErrorView::TlsConfigError(text) => endpoint_for(url) is Some && https(url)
                    && text == "transport error"@ && forall|e: Endpoint|
                    !secured_with(endpoint_for(url).unwrap(), settings, e),
                _ => false,
            },
{
    let stt = config.stt_gateway_url@;
    let dialog = config.dialog_service_url@;
    let tts = config.tts_gateway_url@;
    let url = if !transport_admitted(config) {
        if plain_http(stt) {
            stt
        } else if plain_http(dialog) {
            dialog
        } else {
            tts
        }
    } else if refusal(stt, settings) is Some {
        stt
    } else if refusal(dialog, settings) is Some {
        dialog
    } else {
        tts
    };
    if https(url) {
        lemma_https_is_not_plain(url);
    }
    if url_admitted(url) {
        assert forall|e: Endpoint| !secured_with(endpoint_for(url).unwrap(), settings, e) by {
            assert(!opened(url, settings, e));
        }
    }
    assert(endpoint_for(url) is None || endpoint_for(url) is Some);
}

/// Whether and with which error a configuration is refused rests on its three URLs and the TLS
/// settings alone: configurations that agree on the URLs fare alike.
pub proof fn lemma_connecting_rests_on_urls_alone(
    one: SdkConfig,
    other: SdkConfig,
    settings: TlsSettings,
)
    requires
        one.stt_gateway_url@ == other.stt_gateway_url@,
        one.dialog_service_url@ == other.dialog_service_url@,
        one.tts_gateway_url@ == other.tts_gateway_url@,
    ensures
        connect_error(one, settings) == connect_error(other, settings),
        transport_admitted(one) == transport_admitted(other),
        forall|clients: ApiClients|
            connected(one, settings, clients) == #[trigger] connected(other, settings, clients),
{
}

/// The recogniser's URL is looked at before the dialog service's, and that before the speech
/// service's: among URLs none of which asks for plain HTTP, the first bad one decides.
pub proof fn lemma_first_bad_url_decides(config: SdkConfig, settings: TlsSettings)
    requires
        !plain_http(config.stt_gateway_url@),
        !plain_http(config.dialog_service_url@),
        !plain_http(config.tts_gateway_url@),
    ensures
        endpoint_for(config.stt_gateway_url@) is None ==> connect_error(config, settings) == Some(
            ErrorView::ConnectionError("invalid URI"@),
        ),
        endpoint_for(config.stt_gateway_url@) is Some && !https(config.stt_gateway_url@)
            ==> connect_error(config, settings) matches Some(ErrorView::InvalidArgument(_)),
        can_open(config.stt_gateway_url@, settings) && endpoint_for(config.dialog_service_url@)
            is None ==> connect_error(config, settings) == Some(
            ErrorView::ConnectionError("invalid URI"@),
        ),
        can_open(config.stt_gateway_url@, settings) && endpoint_for(config.dialog_service_url@)
            is Some && !https(config.dialog_service_url@) ==> connect_error(config, settings) matches
            Some(ErrorView::InvalidArgument(_)),
        can_open(config.stt_gateway_url@, settings) && can_open(
            config.dialog_service_url@,
            settings,
        ) && endpoint_for(config.tts_gateway_url@) is None ==> connect_error(config, settings)
            == Some(ErrorView::ConnectionError("invalid URI"@)),
{
}

/// The channels of a configuration are those of its own URLs, each for its service.
pub proof fn lemma_each_service_has_its_channel(
    config: SdkConfig,
    settings: TlsSettings,
    clients: ApiClients,
)
    ensures
        connected(config, settings, clients) ==> {
            &&& opened(config.stt_gateway_url@, settings, clients.stt)
            &&& opened(config.dialog_service_url@, settings, clients.dialog)
            &&& opened(config.tts_gateway_url@, settings, clients.tts)
            &&& connect_error(config, settings) is None
        },
        forall|url: Seq<char>, e: Endpoint| #[trigger]
            opened(url, settings, e) ==> endpoint_for(url) is Some && https(url) && secured_with(
                endpoint_for(url).unwrap(),
                settings,
                e,
            ),
{
}

/// A URL is admitted exactly where it is valid and asks for HTTPS; a configuration passes to the
/// reading of the TLS files exactly where none of its URLs asks for plain HTTP.
pub proof fn lemma_admission(config: SdkConfig, url: Seq<char>)
    ensures
        url_admitted(url) <==> endpoint_for(url) is Some && https(url),
        transport_admitted(config) <==> !(plain_http(config.stt_gateway_url@) || plain_http(
            config.dialog_service_url@,
        ) || plain_http(config.tts_gateway_url@)),
{
}

/// The error for a URL that is not admitted says whether it is not valid or not HTTPS.
pub proof fn lemma_refused_url_is_told_why(url: Seq<char>, e: ErrorView)
    requires
        refused(url, e),
    ensures
        e is ConnectionError <==> endpoint_for(url) is None,
        e is InvalidArgument <==> endpoint_for(url) is Some && !https(url),
        e is TlsConfigError <==> endpoint_for(url) is Some && https(url),
        e matches ErrorView::ConnectionError(text) ==> text == "invalid URI"@,
        e matches ErrorView::TlsConfigError(text) ==> text == "transport error"@,
{
}

/// The settings for mutual TLS hold the three files as they are, each in its place, and the name of
/// the services.
pub proof fn lemma_mutual_tls_holds_the_files(ca: Seq<u8>, cert: Seq<u8>, key: Seq<u8>)
    ensures
        mutual_tls(ca, cert, key).domain == Some("sentiric.cloud"@),
        mutual_tls(ca, cert, key).authorities.len() == 1,
        mutual_tls(ca, cert, key).authorities[0] == ca,
        mutual_tls(ca, cert, key).identity == Some((cert, key)),
        is_mutual(mutual_tls(ca, cert, key)),
{
}

/// Settings are mutual exactly where the services' name, one authority and an identity are set.
pub proof fn lemma_mutual_settings(settings: TlsSettings)
    ensures
        is_mutual(settings) <==> settings.domain == Some("sentiric.cloud"@)
            && settings.authorities.len() == 1 && settings.identity is Some,
{
}

/// The file that is read next is the configured one: the authority's certificate, then the client's,
/// then the key. Every file that could be read is kept as it is, and what was read before stays.
pub proof fn lemma_files_are_read_in_turn(
    config: SdkConfig,
    ca: Seq<u8>,
    cert: Seq<u8>,
    bytes: Seq<u8>,
)
    ensures
        TlsLoadView::Ca.wanted(config) == config.tls_ca_path@,
        (TlsLoadView::Cert { ca }).wanted(config) == config.tls_cert_path@,
        (TlsLoadView::Key { ca, cert }).wanted(config) == config.tls_key_path@,
        TlsLoadView::Ca.fed(config, Ok(bytes)) == Ok::<TlsProgressView, ErrorView>(
            TlsProgressView::Read(TlsLoadView::Cert { ca: bytes }),
        ),
        (TlsLoadView::Cert { ca }).fed(config, Ok(bytes)) == Ok::<TlsProgressView, ErrorView>(
            TlsProgressView::Read(TlsLoadView::Key { ca, cert: bytes }),
        ),
        (TlsLoadView::Key { ca, cert }).fed(config, Ok(bytes)) == Ok::<TlsProgressView, ErrorView>(
            TlsProgressView::Ready(mutual_tls(ca, cert, bytes)),
        ),
{
}

/// A file that cannot be read stops everything, and the error names the file by its kind and its
/// path, and gives the reason, all as they are.
pub proof fn lemma_unreadable_file_is_named(
    config: SdkConfig,
    ca: Seq<u8>,
    cert: Seq<u8>,
    reason: Seq<char>,
)
    ensures
        TlsLoadView::Ca.fed(config, Err(reason)) == Err::<TlsProgressView, ErrorView>(
            ErrorView::TlsConfigError(
                "CA"@ + " read error ("@ + config.tls_ca_path@ + "): "@ + reason,
            ),
        ),
        (TlsLoadView::Cert { ca }).fed(config, Err(reason)) == Err::<TlsProgressView, ErrorView>(
            ErrorView::TlsConfigError(
                "Cert"@ + " read error ("@ + config.tls_cert_path@ + "): "@ + reason,
            ),
        ),
        (TlsLoadView::Key { ca, cert }).fed(config, Err(reason)) == Err::<TlsProgressView, ErrorView>(
            ErrorView::TlsConfigError(
                "Key"@ + " read error ("@ + config.tls_key_path@ + "): "@ + reason,
            ),
        ),
{
}

/// The model values of a load, of its progress and of what a read gave show what these hold.
pub proof fn lemma_load_views(
    load: TlsLoad,
    progress: TlsProgress,
    fed: Result<TlsProgress, SdkError>,
    read: Result<Vec<u8>, String>,
)
    ensures
        load is Ca ==> load@ == TlsLoadView::Ca,
        load matches TlsLoad::Cert { ca } ==> load@ == (TlsLoadView::Cert { ca: ca@ }),
        load matches TlsLoad::Key { ca, cert } ==> load@ == (TlsLoadView::Key {
            ca: ca@,
            cert: cert@,
        }),
        progress matches TlsProgress::Read(next) ==> progress@ == TlsProgressView::Read(next@),
        progress matches TlsProgress::Ready(tls) ==> progress@ == TlsProgressView::Ready(
            tls.settings(),
        ),
        fed matches Ok(p) ==> progress_view(fed) == Ok::<TlsProgressView, ErrorView>(p@),
        fed matches Err(e) ==> progress_view(fed) == Err::<TlsProgressView, ErrorView>(e@),
        read matches Ok(bytes) ==> read_view(read) == Ok::<Seq<u8>, Seq<char>>(bytes@),
        read matches Err(text) ==> read_view(read) == Err::<Seq<u8>, Seq<char>>(text@),
{
}

}
