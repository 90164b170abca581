use wolf_ui::config::{
    base_url_from_env, socket_path_from_env, transport_from_base_url_env, ApiTransport,
    ClientConfig, DEFAULT_BASE_URL, DEFAULT_CONNECT_TIMEOUT, DEFAULT_MAX_RETRIES,
    DEFAULT_READ_TIMEOUT, DEFAULT_REQUEST_TIMEOUT, DEFAULT_UNIX_SOCKET_PATH,
};

#[test]
fn default_config_targets_local_wolf_socket() {
    let config = ClientConfig::new(None, None);

    assert_eq!(config.base_url_ref(), DEFAULT_BASE_URL);
    assert_eq!(config.transport_ref(), ApiTransport::UnixSocket);
    assert_eq!(config.unix_socket_path_ref(), DEFAULT_UNIX_SOCKET_PATH);
    assert_eq!(config.connect_timeout_ref(), DEFAULT_CONNECT_TIMEOUT);
    assert_eq!(config.request_timeout_ref(), DEFAULT_REQUEST_TIMEOUT);
    assert_eq!(config.read_timeout_ref(), DEFAULT_READ_TIMEOUT);
    assert_eq!(config.max_retries_ref(), DEFAULT_MAX_RETRIES);
}

#[test]
fn config_builder_overrides_connection_policy() {
    let config = ClientConfig::new(None, None)
        .base_url("http://wolf.test")
        .transport(ApiTransport::Tcp)
        .unix_socket_path("/tmp/wolf.sock")
        .connect_timeout(250)
        .request_timeout(3000)
        .read_timeout(4000)
        .max_retries(1);

    assert_eq!(config.base_url_ref(), "http://wolf.test");
    assert_eq!(config.transport_ref(), ApiTransport::Tcp);
    assert_eq!(config.unix_socket_path_ref(), "/tmp/wolf.sock");
    assert_eq!(config.connect_timeout_ref(), 250);
    assert_eq!(config.request_timeout_ref(), 3000);
    assert_eq!(config.read_timeout_ref(), 4000);
    assert_eq!(config.max_retries_ref(), 1);
}

#[test]
fn socket_path_uses_env_value_when_present() {
    let path = socket_path_from_env(Some("/tmp/custom-wolf.sock"));

    assert_eq!(path, "/tmp/custom-wolf.sock");
}

#[test]
fn socket_path_falls_back_to_default_when_env_missing() {
    let path = socket_path_from_env(None);

    assert_eq!(path, DEFAULT_UNIX_SOCKET_PATH);
}

#[test]
fn base_url_uses_env_value_when_present() {
    let base_url = base_url_from_env(Some("http://localhost:8080"));

    assert_eq!(base_url, "http://localhost:8080");
}

#[test]
fn base_url_falls_back_to_default_when_env_missing_or_empty() {
    assert_eq!(base_url_from_env(None), DEFAULT_BASE_URL);
    assert_eq!(base_url_from_env(Some("")), DEFAULT_BASE_URL);
}

#[test]
fn tcp_transport_is_selected_when_base_url_env_is_present() {
    assert_eq!(
        transport_from_base_url_env(Some("http://localhost:8080")),
        ApiTransport::Tcp
    );
}

#[test]
fn unix_socket_transport_is_selected_when_base_url_env_is_missing_or_empty() {
    assert_eq!(transport_from_base_url_env(None), ApiTransport::UnixSocket);
    assert_eq!(
        transport_from_base_url_env(Some("")),
        ApiTransport::UnixSocket
    );
}

#[test]
fn config_from_env_values_agrees_on_transport_and_url() {
    let config = ClientConfig::new(Some("http://10.0.0.2:8080"), Some("/run/w.sock"));
    assert_eq!(config.transport_ref(), ApiTransport::Tcp);
    assert_eq!(config.base_url_ref(), "http://10.0.0.2:8080");
    assert_eq!(config.unix_socket_path_ref(), "/run/w.sock");

    let blank = ClientConfig::new(Some(""), None);
    assert_eq!(blank.transport_ref(), ApiTransport::UnixSocket);
    assert_eq!(blank.base_url_ref(), DEFAULT_BASE_URL);
}

#[test]
fn builder_read_after_write_keeps_other_settings() {
    let config = ClientConfig::new(None, None).max_retries(7);
    assert_eq!(config.max_retries_ref(), 7);
    assert_eq!(config.base_url_ref(), DEFAULT_BASE_URL);
    assert_eq!(config.connect_timeout_ref(), DEFAULT_CONNECT_TIMEOUT);
    assert_eq!(config.clone().into_base_url(), DEFAULT_BASE_URL);
}
