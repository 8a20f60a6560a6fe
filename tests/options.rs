use rustmann::{RiemannClientOptions, RiemannClientOptionsBuilder};

#[test]
fn default_options() {
    let o = RiemannClientOptions::default();
    assert_eq!(o.host(), "127.0.0.1");
    assert_eq!(*o.port(), 5555);
    assert_eq!(*o.connect_timeout_ms(), 2000);
    assert_eq!(*o.socket_timeout_ms(), 3000);
    assert!(!*o.use_udp());
    assert!(!*o.use_tls());
    assert!(o.tls_config().is_none());
}

#[test]
fn builder_defaults_match_default_options() {
    let o = RiemannClientOptionsBuilder::default().build();
    assert_eq!(o.host(), "127.0.0.1");
    assert_eq!(*o.port(), 5555);
    assert_eq!(*o.connect_timeout_ms(), 2000);
    assert_eq!(*o.socket_timeout_ms(), 3000);
    assert!(!*o.use_udp());
    assert!(!*o.use_tls());
}

#[test]
fn builder_sets_each_value() {
    let o = RiemannClientOptionsBuilder::default()
        .host("riemann.example.org")
        .port(5556)
        .connect_timeout_ms(100)
        .socket_timeout_ms(250)
        .use_udp(true)
        .build();
    assert_eq!(o.host(), "riemann.example.org");
    assert_eq!(*o.port(), 5556);
    assert_eq!(*o.connect_timeout_ms(), 100);
    assert_eq!(*o.socket_timeout_ms(), 250);
    assert!(*o.use_udp());
}

#[test]
fn socket_timeout_is_not_taken_from_connect_timeout() {
    let o = RiemannClientOptionsBuilder::default()
        .connect_timeout_ms(100)
        .build();
    assert_eq!(*o.socket_timeout_ms(), 3000);
}

#[test]
fn tls_turns_udp_off_and_brings_a_config() {
    let b = RiemannClientOptionsBuilder::default().use_udp(true).use_tls(true);
    assert!(b.tls_enabled());
    let o = b.build();
    assert!(*o.use_tls());
    assert!(!*o.use_udp());
    assert!(o.tls_config().is_some());
}

#[test]
fn tls_off_by_default() {
    assert!(!RiemannClientOptionsBuilder::default().tls_enabled());
}

#[test]
fn tls_with_config_set_to_none_gets_default_config() {
    let o = RiemannClientOptionsBuilder::default()
        .use_tls(true)
        .tls_config(None)
        .build();
    assert!(*o.use_tls());
    assert!(o.tls_config().is_some());
}

#[test]
fn without_tls_config_set_to_none_stays_none() {
    let o = RiemannClientOptionsBuilder::default().tls_config(None).build();
    assert!(!*o.use_tls());
    assert!(o.tls_config().is_none());
}
