use rustmann::tls::{tls_parameters, tls_server_name};
use rustmann::{FailureKind, RiemannClientError, RiemannClientOptions, RiemannClientOptionsBuilder};

#[test]
fn dns_name_and_ip_are_server_names() {
    assert!(tls_server_name("riemann.example.org").is_ok());
    assert!(tls_server_name("127.0.0.1").is_ok());
}

#[test]
fn invalid_host_is_invalid_input() {
    assert!(matches!(
        tls_server_name("not a host name"),
        Err(RiemannClientError::IoError(FailureKind::InvalidInput, _))
    ));
}

#[test]
fn tls_parameters_need_a_config() {
    let o = RiemannClientOptions::default();
    assert!(matches!(
        tls_parameters(&o),
        Err(RiemannClientError::IoError(FailureKind::InvalidInput, _))
    ));
}

#[test]
fn tls_parameters_with_default_config() {
    let o = RiemannClientOptionsBuilder::default()
        .host("localhost")
        .use_tls(true)
        .build();
    let (config, _name) = tls_parameters(&o).unwrap();
    assert!(std::sync::Arc::ptr_eq(&config, o.tls_config().as_ref().unwrap()));
}
