use tango::conf::TangoConfig;
use tango::ports::{RendezvousServerPorts, DEFAULT_MAIN_PORT};

#[test]
fn the_default_configuration() {
    let c = TangoConfig::default();
    assert_eq!(c.version(), 0);
    assert_eq!(c.database_url(), "");
    assert_eq!(c.rendezvous_port(), 21116);
    assert_eq!(c.http_addr(), "");
    assert_eq!(c.admin_default_username(), "admin");
    assert_eq!(c.admin_default_password(), "tango");
}

#[test]
fn a_configuration_holds_what_it_was_given() {
    let c = TangoConfig::new(
        2,
        String::from("postgres://db/tango"),
        30000,
        String::from("0.0.0.0:8080"),
        String::from("root"),
        String::from("secret"),
    );
    assert_eq!(c.version(), 2);
    assert_eq!(c.database_url(), "postgres://db/tango");
    assert_eq!(c.rendezvous_port(), 30000);
    assert_eq!(c.http_addr(), "0.0.0.0:8080");
    assert_eq!(c.admin_default_username(), "root");
    assert_eq!(c.admin_default_password(), "secret");
}

#[test]
fn the_ports_derive_from_the_main_port() {
    let p = RendezvousServerPorts::new(21116);
    assert_eq!(p.main_port, 21116);
    assert_eq!(p.relay_port, 21117);
    assert_eq!(p.ws_port, 21118);
    assert_eq!(p.nat_port, 21115);
    let q = RendezvousServerPorts::new(1);
    assert_eq!(q.nat_port, 0);
    assert_eq!(q.ws_port, 3);
    let r = RendezvousServerPorts::new(i32::MAX - 2);
    assert_eq!(r.ws_port, i32::MAX);
    let s = RendezvousServerPorts::new(i32::MIN + 1);
    assert_eq!(s.nat_port, i32::MIN);
}

#[test]
fn the_default_ports() {
    assert_eq!(DEFAULT_MAIN_PORT, 21116);
    assert_eq!(RendezvousServerPorts::default(), RendezvousServerPorts::new(21116));
}
