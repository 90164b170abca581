//! Connection settings for the Wolf API client: which transport to use,
//! where to reach Wolf, and the timeout and retry policy.

use vstd::prelude::*;

use crate::text::owned;

verus! {

pub const DEFAULT_BASE_URL: &'static str = "http://wolf.local";

pub const DEFAULT_UNIX_SOCKET_PATH: &'static str = "/var/run/wolf/wolf.sock";

pub const WOLF_API_BASE_URL_ENV: &'static str = "WOLF_API_BASE_URL";

pub const WOLF_SOCKET_PATH_ENV: &'static str = "WOLF_SOCKET_PATH";

/// Default connect timeout, in milliseconds.
pub const DEFAULT_CONNECT_TIMEOUT: u64 = 2000;

/// Default whole-request timeout, in milliseconds.
pub const DEFAULT_REQUEST_TIMEOUT: u64 = 10000;

/// Default read timeout, in milliseconds.
pub const DEFAULT_READ_TIMEOUT: u64 = 10000;

pub const DEFAULT_MAX_RETRIES: u32 = 2;

/// How the client reaches Wolf.
#[derive(Clone, Copy, Debug, PartialEq, Eq, Structural)]
pub enum ApiTransport {
    UnixSocket,
    Tcp,
}

/// Client settings. Timeouts are held in milliseconds.
#[derive(Clone, Debug)]
pub struct ClientConfig {
    base_url: String,
    unix_socket_path: String,
    transport: ApiTransport,
    connect_timeout: u64,
    request_timeout: u64,
    read_timeout: u64,
    max_retries: u32,
}

/// The settings a [`ClientConfig`] holds, as plain values.
pub struct ClientConfigView {
    pub base_url: Seq<char>,
    pub unix_socket_path: Seq<char>,
    pub transport: ApiTransport,
    pub connect_timeout: u64,
    pub request_timeout: u64,
    pub read_timeout: u64,
    pub max_retries: u32,
}

impl View for ClientConfig {
    type V = ClientConfigView;

    closed spec fn view(&self) -> ClientConfigView {
        ClientConfigView {
            base_url: self.base_url@,
            unix_socket_path: self.unix_socket_path@,
            transport: self.transport,
            connect_timeout: self.connect_timeout,
            request_timeout: self.request_timeout,
            read_timeout: self.read_timeout,
            max_retries: self.max_retries,
        }
    }
}

/// An environment value counts as set when it is present and not empty.
pub open spec fn env_value_set(value: Option<Seq<char>>) -> bool {
    value matches Some(v) && v.len() > 0
}

/// The base URL chosen for the value of `WOLF_API_BASE_URL`.
pub open spec fn base_url_for(value: Option<Seq<char>>) -> Seq<char> {
    if env_value_set(value) {
        value->0
    } else {
        DEFAULT_BASE_URL@
    }
}

/// The transport chosen for the value of `WOLF_API_BASE_URL`.
pub open spec fn transport_for(value: Option<Seq<char>>) -> ApiTransport {
    if env_value_set(value) {
        ApiTransport::Tcp
    } else {
        ApiTransport::UnixSocket
    }
}

/// The socket path chosen for the value of `WOLF_SOCKET_PATH`.
pub open spec fn socket_path_for(value: Option<Seq<char>>) -> Seq<char> {
    match value {
        Some(v) => v,
        None => DEFAULT_UNIX_SOCKET_PATH@,
    }
}

/// The view of an optional string.
pub open spec fn opt_view(value: Option<&str>) -> Option<Seq<char>> {
    match value {
        Some(v) => Some(v@),
        None => None,
    }
}

/// The view of an optional owned string.
pub open spec fn opt_string_view(value: Option<String>) -> Option<Seq<char>> {
    match value {
        Some(v) => Some(v@),
        None => None,
    }
}

/// The socket path: the value of `WOLF_SOCKET_PATH` when present, else the default.
pub fn socket_path_from_env(value: Option<&str>) -> (r: String)
    ensures
        r@ == socket_path_for(opt_view(value)),
{
    match value {
        Some(v) => owned(v),
        None => owned(DEFAULT_UNIX_SOCKET_PATH),
    }
}

/// The base URL: the value of `WOLF_API_BASE_URL` when set and not empty, else the default.
pub fn base_url_from_env(value: Option<&str>) -> (r: String)
    ensures
        r@ == base_url_for(opt_view(value)),
{
    match value {
        Some(v) => {
            if v.is_empty() {
                owned(DEFAULT_BASE_URL)
            } else {
                owned(v)
            }
        },
        None => owned(DEFAULT_BASE_URL),
    }
}

/// TCP when `WOLF_API_BASE_URL` is set and not empty, else the Unix socket.
pub fn transport_from_base_url_env(value: Option<&str>) -> (r: ApiTransport)
    ensures
        r == transport_for(opt_view(value)),
{
    match value {
        Some(v) => {
            if v.is_empty() {
                ApiTransport::UnixSocket
            } else {
                ApiTransport::Tcp
            }
        },
        None => ApiTransport::UnixSocket,
    }
}

/// The transport and the base URL agree: TCP goes to the configured URL, the
/// Unix socket to the default one.
pub proof fn lemma_transport_agrees_with_base_url(value: Option<Seq<char>>)
    ensures
        transport_for(value) == ApiTransport::Tcp ==> base_url_for(value) == value->0,
        transport_for(value) == ApiTransport::UnixSocket ==> base_url_for(value)
            == DEFAULT_BASE_URL@,
{
}

impl ClientConfig {
    /// The configuration for the given values of `WOLF_API_BASE_URL` and
    /// `WOLF_SOCKET_PATH` (`None` where a variable is unset), with the default
    /// timeouts and retry count.
    pub fn new(base_url_env: Option<&str>, socket_path_env: Option<&str>) -> (r: Self)
        ensures
            r@.transport == transport_for(opt_view(base_url_env)),
            r@.base_url == base_url_for(opt_view(base_url_env)),
            r@.unix_socket_path == socket_path_for(opt_view(socket_path_env)),
            r@.connect_timeout == DEFAULT_CONNECT_TIMEOUT,
            r@.request_timeout == DEFAULT_REQUEST_TIMEOUT,
            r@.read_timeout == DEFAULT_READ_TIMEOUT,
            r@.max_retries == DEFAULT_MAX_RETRIES,
    {
        ClientConfig {
            transport: transport_from_base_url_env(base_url_env),
            base_url: base_url_from_env(base_url_env),
            unix_socket_path: socket_path_from_env(socket_path_env),
            connect_timeout: DEFAULT_CONNECT_TIMEOUT,
            request_timeout: DEFAULT_REQUEST_TIMEOUT,
            read_timeout: DEFAULT_READ_TIMEOUT,
            max_retries: DEFAULT_MAX_RETRIES,
        }
    }

    pub fn base_url(self, base_url: &str) -> (r: Self)
        ensures
            r@ == (ClientConfigView { base_url: base_url@, ..self@ }),
    {
        ClientConfig { base_url: owned(base_url), ..self }
    }

    pub fn transport(self, transport: ApiTransport) -> (r: Self)
        ensures
            r@ == (ClientConfigView { transport, ..self@ }),
    {
        ClientConfig { transport, ..self }
    }

    pub fn unix_socket_path(self, path: &str) -> (r: Self)
        ensures
            r@ == (ClientConfigView { unix_socket_path: path@, ..self@ }),
    {
        ClientConfig { unix_socket_path: owned(path), ..self }
    }

    pub fn connect_timeout(self, timeout: u64) -> (r: Self)
        ensures
            r@ == (ClientConfigView { connect_timeout: timeout, ..self@ }),
    {
        ClientConfig { connect_timeout: timeout, ..self }
    }

    pub fn request_timeout(self, timeout: u64) -> (r: Self)
        ensures
            r@ == (ClientConfigView { request_timeout: timeout, ..self@ }),
    {
        ClientConfig { request_timeout: timeout, ..self }
    }

    pub fn read_timeout(self, timeout: u64) -> (r: Self)
        ensures
            r@ == (ClientConfigView { read_timeout: timeout, ..self@ }),
    {
        ClientConfig { read_timeout: timeout, ..self }
    }

    pub fn max_retries(self, retries: u32) -> (r: Self)
        ensures
            r@ == (ClientConfigView { max_retries: retries, ..self@ }),
    {
        ClientConfig { max_retries: retries, ..self }
    }

    pub fn base_url_ref(&self) -> (r: &str)
        ensures
            r@ == self@.base_url,
    {
        self.base_url.as_str()
    }

    pub fn into_base_url(self) -> (r: String)
        ensures
            r@ == self@.base_url,
    {
        self.base_url
    }

    pub fn unix_socket_path_ref(&self) -> (r: &str)
        ensures
            r@ == self@.unix_socket_path,
    {
        self.unix_socket_path.as_str()
    }

    pub fn transport_ref(&self) -> (r: ApiTransport)
        ensures
            r == self@.transport,
    {
        self.transport
    }

    pub fn connect_timeout_ref(&self) -> (r: u64)
        ensures
            r == self@.connect_timeout,
    {
        self.connect_timeout
    }

    pub fn request_timeout_ref(&self) -> (r: u64)
        ensures
            r == self@.request_timeout,
    {
        self.request_timeout
    }

    pub fn read_timeout_ref(&self) -> (r: u64)
        ensures
            r == self@.read_timeout,
    {
        self.read_timeout
    }

    pub fn max_retries_ref(&self) -> (r: u32)
        ensures
            r == self@.max_retries,
    {
        self.max_retries
    }
}

} // verus!
