//! The settings of the HTTP server.
use ntex::http::Method;
use vstd::prelude::*;

verus! {

/// Where static files are served from.
pub struct StaticFileConfig {
    pub path: String,
    pub dir: String,
}

impl Default for StaticFileConfig {
    fn default() -> (r: Self)
        ensures
            r.path@ == "static"@,
            r.dir@ == "./static"@,
    {
        StaticFileConfig { path: String::from_str("static"), dir: String::from_str("./static") }
    }
}

/// How long an idle connection is kept.
#[derive(Debug, Clone, Copy, PartialEq, Eq)]
pub enum KeepAlive {
    /// For this many seconds.
    Timeout(u16),
    /// As the operating system decides.
    Os,
    /// Not at all.
    Disabled,
}

/// The settings with which the server starts.
pub struct ServerConfig {
    pub host: String,
    pub port: u16,
    pub workers: usize,
    pub max_connections: usize,
    pub max_connections_rate: usize,
    /// Seconds within which a client must send its request headers.
    pub client_timeout: u16,
    /// Seconds within which a connection must shut down.
    pub client_disconnect: u16,
    pub keep_alive: KeepAlive,
    pub backlog: i32,
    pub app: String,
    pub static_config: StaticFileConfig,
    /// whether the app bootstrap has started
    pub has_started_bootstrap: bool,
    /// list of allowed CORS origins
    pub allowed_origins: Vec<String>,
    /// list of allowed CORS methods
    pub allowed_methods: Vec<Method>,
}

impl ServerConfig {
    /// The settings for a server on `host` and `port`, everything else at
    /// its default.
    pub fn create(host: &str, port: u16) -> (r: ServerConfig)
        ensures
            r.host@ == host@,
            r.port == port,
            r.workers == 2,
            r.max_connections == 25_000,
            r.max_connections_rate == 256,
            r.client_timeout == 3,
            r.client_disconnect == 5,
            r.keep_alive == KeepAlive::Timeout(5),
            r.backlog == 2048,
            r.app@ == "foxtive"@,
            r.static_config.path@ == "static"@,
            r.static_config.dir@ == "./static"@,
            !r.has_started_bootstrap,
            r.allowed_origins@.len() == 0,
            r.allowed_methods@.len() == 0,
    {
        ServerConfig {
            host: host.to_owned(),
            port,
            workers: 2,
            max_connections: 25_000,
            max_connections_rate: 256,
            client_timeout: 3,
            client_disconnect: 5,
            keep_alive: KeepAlive::Timeout(5),
            backlog: 2048,
            app: String::from_str("foxtive"),
            static_config: StaticFileConfig::default(),
            has_started_bootstrap: false,
            allowed_origins: Vec::new(),
            allowed_methods: Vec::new(),
        }
    }

    /// The default settings with static files served as `config` says.
    pub fn create_with_static(host: &str, port: u16, config: StaticFileConfig) -> (r: ServerConfig)
        ensures
            r.static_config == config,
            r.host@ == host@,
            r.port == port,
    {
        Self::create(host, port).static_config(config)
    }

    /// Sets the application's name.
    pub fn app(self, app: &str) -> (r: Self)
        ensures
            r.app@ == app@,
            r == (ServerConfig { app: r.app, ..self }),
    {
        let mut s = self;
        s.app = app.to_owned();
        s
    }

    /// Sets the number of workers.
    pub fn workers(self, workers: usize) -> (r: Self)
        ensures
            r == (ServerConfig { workers, ..self }),
    {
        let mut s = self;
        s.workers = workers;
        s
    }

    /// Sets the maximum number of pending connections.
    pub fn backlog(self, backlog: i32) -> (r: Self)
        ensures
            r == (ServerConfig { backlog, ..self }),
    {
        let mut s = self;
        s.backlog = backlog;
        s
    }

    /// Sets the keep-alive setting.
    pub fn keep_alive(self, keep_alive: KeepAlive) -> (r: Self)
        ensures
            r == (ServerConfig { keep_alive, ..self }),
    {
        let mut s = self;
        s.keep_alive = keep_alive;
        s
    }

    /// Sets the request read timeout in seconds; 0 disables it.
    pub fn client_timeout(self, timeout: u16) -> (r: Self)
        ensures
            r == (ServerConfig { client_timeout: timeout, ..self }),
    {
        let mut s = self;
        s.client_timeout = timeout;
        s
    }

    /// Sets the disconnect timeout in seconds; 0 disables it.
    pub fn client_disconnect(self, timeout: u16) -> (r: Self)
        ensures
            r == (ServerConfig { client_disconnect: timeout, ..self }),
    {
        let mut s = self;
        s.client_disconnect = timeout;
        s
    }

    /// Sets the maximum number of concurrent connections per worker.
    pub fn max_conn(self, max: usize) -> (r: Self)
        ensures
            r == (ServerConfig { max_connections: max, ..self }),
    {
        let mut s = self;
        s.max_connections = max;
        s
    }

    /// Sets the maximum number of connections being established per worker.
    pub fn max_conn_rate(self, max: usize) -> (r: Self)
        ensures
            r == (ServerConfig { max_connections_rate: max, ..self }),
    {
        let mut s = self;
        s.max_connections_rate = max;
        s
    }

    /// Sets the allowed CORS origins.
    pub fn allowed_origins(self, allowed_origins: Vec<String>) -> (r: Self)
        ensures
            r == (ServerConfig { allowed_origins, ..self }),
    {
        let mut s = self;
        s.allowed_origins = allowed_origins;
        s
    }

    /// Sets the allowed CORS methods.
    pub fn allowed_methods(self, allowed_methods: Vec<Method>) -> (r: Self)
        ensures
            r == (ServerConfig { allowed_methods, ..self }),
    {
        let mut s = self;
        s.allowed_methods = allowed_methods;
        s
    }

    /// Sets where static files are served from.
    pub fn static_config(self, static_config: StaticFileConfig) -> (r: Self)
        ensures
            r == (ServerConfig { static_config, ..self }),
    {
        let mut s = self;
        s.static_config = static_config;
        s
    }

    /// Says whether the bootstrap has already been started elsewhere.
    pub fn has_started_bootstrap(self, has_started_bootstrap: bool) -> (r: Self)
        ensures
            r == (ServerConfig { has_started_bootstrap, ..self }),
    {
        let mut s = self;
        s.has_started_bootstrap = has_started_bootstrap;
        s
    }

    /// Tells whether starting the server has to run the bootstrap first.
    pub fn needs_bootstrap(&self) -> (r: bool)
        ensures
            r == !self.has_started_bootstrap,
    {
        !self.has_started_bootstrap
    }
}

} // verus!
