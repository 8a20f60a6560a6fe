use std::sync::Arc;
use tokio_rustls::rustls::{ClientConfig, RootCertStore};
use vstd::prelude::*;

verus! {

#[verifier::external_type_specification]
#[verifier::external_body]
pub struct ExClientConfig(ClientConfig);

/// The default host, `127.0.0.1`.
pub open spec fn default_host() -> Seq<char> {
    seq!['1', '2', '7', '.', '0', '.', '0', '.', '1']
}

pub const DEFAULT_PORT: u16 = 5555;

pub const DEFAULT_CONNECT_TIMEOUT_MS: u64 = 2000;

pub const DEFAULT_SOCKET_TIMEOUT_MS: u64 = 3000;

/// How to reach a Riemann server.
#[derive(Clone)]
pub struct RiemannClientOptions {
    host: String,
    port: u16,
    connect_timeout_ms: u64,
    socket_timeout_ms: u64,
    use_udp: bool,
    use_tls: bool,
    tls_config: Option<Arc<ClientConfig>>,
}

/// What a set of options holds.
pub struct OptionsModel {
    pub host: Seq<char>,
    pub port: u16,
    pub connect_timeout_ms: u64,
    pub socket_timeout_ms: u64,
    pub use_udp: bool,
    pub use_tls: bool,
    pub tls_config: Option<Arc<ClientConfig>>,
}

impl View for RiemannClientOptions {
    type V = OptionsModel;

    closed spec fn view(&self) -> OptionsModel {
        OptionsModel {
            host: self.host@,
            port: self.port,
            connect_timeout_ms: self.connect_timeout_ms,
            socket_timeout_ms: self.socket_timeout_ms,
            use_udp: self.use_udp,
            use_tls: self.use_tls,
            tls_config: self.tls_config,
        }
    }
}

/// Options are consistent: with TLS on, UDP is off and a TLS configuration
/// is there.
pub open spec fn options_wf(o: OptionsModel) -> bool {
    o.use_tls ==> !o.use_udp && o.tls_config is Some
}

fn localhost() -> (r: String)
    ensures
        r@ == default_host(),
{
    let r = "127.0.0.1".to_owned();
    proof {
        reveal_strlit("127.0.0.1");
    }
    assert(r@ =~= default_host());
    r
}

impl Default for RiemannClientOptions {
    /// Plain TCP to `127.0.0.1:5555`, connect timeout 2000 ms, reply timeout
    /// 3000 ms.
    fn default() -> (r: RiemannClientOptions)
        ensures
            r@ == (OptionsModel {
                host: default_host(),
                port: DEFAULT_PORT,
                connect_timeout_ms: DEFAULT_CONNECT_TIMEOUT_MS,
                socket_timeout_ms: DEFAULT_SOCKET_TIMEOUT_MS,
                use_udp: false,
                use_tls: false,
                tls_config: None,
            }),
    {
        RiemannClientOptions {
            host: localhost(),
            port: DEFAULT_PORT,
            connect_timeout_ms: DEFAULT_CONNECT_TIMEOUT_MS,
            socket_timeout_ms: DEFAULT_SOCKET_TIMEOUT_MS,
            use_udp: false,
            use_tls: false,
            tls_config: None,
        }
    }
}

impl RiemannClientOptions {
    pub fn host(&self) -> (r: &String)
        ensures
            r@ == self@.host,
    {
        &self.host
    }

    pub fn port(&self) -> (r: &u16)
        ensures
            *r == self@.port,
    {
        &self.port
    }

    pub fn connect_timeout_ms(&self) -> (r: &u64)
        ensures
            *r == self@.connect_timeout_ms,
    {
        &self.connect_timeout_ms
    }

    pub fn socket_timeout_ms(&self) -> (r: &u64)
        ensures
            *r == self@.socket_timeout_ms,
    {
        &self.socket_timeout_ms
    }

    pub fn use_udp(&self) -> (r: &bool)
        ensures
            *r == self@.use_udp,
    {
        &self.use_udp
    }

    pub fn use_tls(&self) -> (r: &bool)
        ensures
            *r == self@.use_tls,
    {
        &self.use_tls
    }

    pub fn tls_config(&self) -> (r: &Option<Arc<ClientConfig>>)
        ensures
            *r == self@.tls_config,
    {
        &self.tls_config
    }
}

/// Relies on rustls' `ClientConfig::builder` with the process-default crypto
/// provider, trusting the Mozilla roots of `webpki_roots::TLS_SERVER_ROOTS`,
/// without client authentication. Nothing is stated of the configuration.
#[verifier::external_body]
fn default_tls_config() -> Arc<ClientConfig> {
    let mut roots = RootCertStore::empty();
    roots.extend(webpki_roots::TLS_SERVER_ROOTS.iter().cloned());
    let config = ClientConfig::builder().with_root_certificates(roots).with_no_client_auth();
    Arc::new(config)
}

/// Collects options one at a time; what is left unset takes its default.
pub struct RiemannClientOptionsBuilder {
    host: Option<String>,
    port: Option<u16>,
    connect_timeout_ms: Option<u64>,
    socket_timeout_ms: Option<u64>,
    use_udp: Option<bool>,
    use_tls: Option<bool>,
    tls_config: Option<Option<Arc<ClientConfig>>>,
}

/// What a builder holds: each option, if it was set.
pub struct OptionsBuilderModel {
    pub host: Option<Seq<char>>,
    pub port: Option<u16>,
    pub connect_timeout_ms: Option<u64>,
    pub socket_timeout_ms: Option<u64>,
    pub use_udp: Option<bool>,
    pub use_tls: Option<bool>,
    pub tls_config: Option<Option<Arc<ClientConfig>>>,
}

impl View for RiemannClientOptionsBuilder {
    type V = OptionsBuilderModel;

    closed spec fn view(&self) -> OptionsBuilderModel {
        OptionsBuilderModel {
            host: match self.host {
                Some(h) => Some(h@),
                None => None,
            },
            port: self.port,
            connect_timeout_ms: self.connect_timeout_ms,
            socket_timeout_ms: self.socket_timeout_ms,
            use_udp: self.use_udp,
            use_tls: self.use_tls,
            tls_config: self.tls_config,
        }
    }
}

/// A builder with nothing set.
pub open spec fn unset_builder() -> OptionsBuilderModel {
    OptionsBuilderModel {
        host: None,
        port: None,
        connect_timeout_ms: None,
        socket_timeout_ms: None,
        use_udp: None,
        use_tls: None,
        tls_config: None,
    }
}

/// Whether a builder asks for TLS.
pub open spec fn builder_tls(b: OptionsBuilderModel) -> bool {
    b.use_tls == Some(true)
}

/// The options a builder makes, but for the TLS configuration. TLS turns UDP
/// off.
pub open spec fn built_options(b: OptionsBuilderModel, o: OptionsModel) -> bool {
    &&& o.host == (match b.host {
        Some(h) => h,
        None => default_host(),
    })
    &&& o.port == (match b.port {
        Some(p) => p,
        None => DEFAULT_PORT,
    })
    &&& o.connect_timeout_ms == (match b.connect_timeout_ms {
        Some(t) => t,
        None => DEFAULT_CONNECT_TIMEOUT_MS,
    })
    &&& o.socket_timeout_ms == (match b.socket_timeout_ms {
        Some(t) => t,
        None => DEFAULT_SOCKET_TIMEOUT_MS,
    })
    &&& o.use_tls == builder_tls(b)
    &&& o.use_udp == (!builder_tls(b) && b.use_udp == Some(true))
}

impl Default for RiemannClientOptionsBuilder {
    fn default() -> (r: RiemannClientOptionsBuilder)
        ensures
            r@ == unset_builder(),
    {
        RiemannClientOptionsBuilder {
            host: None,
            port: None,
            connect_timeout_ms: None,
            socket_timeout_ms: None,
            use_udp: None,
            use_tls: None,
            tls_config: None,
        }
    }
}

impl RiemannClientOptionsBuilder {
    pub fn host(self, host: &str) -> (r: Self)
        ensures
            r@ == (OptionsBuilderModel { host: Some(host@), ..self@ }),
    {
        let mut b = self;
        b.host = Some(host.to_owned());
        b
    }

    pub fn port(self, port: u16) -> (r: Self)
        ensures
            r@ == (OptionsBuilderModel { port: Some(port), ..self@ }),
    {
        let mut b = self;
        b.port = Some(port);
        b
    }

    pub fn connect_timeout_ms(self, ms: u64) -> (r: Self)
        ensures
            r@ == (OptionsBuilderModel { connect_timeout_ms: Some(ms), ..self@ }),
    {
        let mut b = self;
        b.connect_timeout_ms = Some(ms);
        b
    }

    pub fn socket_timeout_ms(self, ms: u64) -> (r: Self)
        ensures
            r@ == (OptionsBuilderModel { socket_timeout_ms: Some(ms), ..self@ }),
    {
        let mut b = self;
        b.socket_timeout_ms = Some(ms);
        b
    }

    pub fn use_udp(self, on: bool) -> (r: Self)
        ensures
            r@ == (OptionsBuilderModel { use_udp: Some(on), ..self@ }),
    {
        let mut b = self;
        b.use_udp = Some(on);
        b
    }

    pub fn use_tls(self, on: bool) -> (r: Self)
        ensures
            r@ == (OptionsBuilderModel { use_tls: Some(on), ..self@ }),
    {
        let mut b = self;
        b.use_tls = Some(on);
        b
    }

    pub fn tls_config(self, config: Option<Arc<ClientConfig>>) -> (r: Self)
        ensures
            r@ == (OptionsBuilderModel { tls_config: Some(config), ..self@ }),
    {
        let mut b = self;
        b.tls_config = Some(config);
        b
    }

    /// Whether TLS was asked for; off unless set.
    pub fn tls_enabled(&self) -> (r: bool)
        ensures
            r == builder_tls(self@),
    {
        match self.use_tls {
            Some(on) => on,
            None => false,
        }
    }

    /// The options, with defaults for what was not set. With TLS on, UDP is
    /// off, and the TLS configuration is the one given or, if none was given
    /// (or `None` was), one that trusts the Mozilla root certificates.
    /// Without TLS the configuration is the one given, if any.
    pub fn build(self) -> (r: RiemannClientOptions)
        ensures
            built_options(self@, r@),
            options_wf(r@),
            self@.tls_config matches Some(Some(c)) ==> r@.tls_config == Some(c),
            builder_tls(self@) ==> r@.tls_config is Some,
            !builder_tls(self@) && !(self@.tls_config matches Some(Some(_))) ==> r@.tls_config
                is None,
    {
        let use_tls = self.tls_enabled();
        let use_udp = if use_tls {
            false
        } else {
            match self.use_udp {
                Some(on) => on,
                None => false,
            }
        };
        let tls_config = match self.tls_config {
            Some(Some(config)) => Some(config),
            _ => if use_tls {
                Some(default_tls_config())
            } else {
                None
            },
        };
        RiemannClientOptions {
            host: match self.host {
                Some(h) => h,
                None => localhost(),
            },
            port: match self.port {
                Some(p) => p,
                None => DEFAULT_PORT,
            },
            connect_timeout_ms: match self.connect_timeout_ms {
                Some(t) => t,
                None => DEFAULT_CONNECT_TIMEOUT_MS,
            },
            socket_timeout_ms: match self.socket_timeout_ms {
                Some(t) => t,
                None => DEFAULT_SOCKET_TIMEOUT_MS,
            },
            use_udp,
            use_tls,
            tls_config,
        }
    }
}

} // verus!
