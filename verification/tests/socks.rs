//! Who is let in, and where connections go.

use socks5_reticulum_proxy::ids::DestinationHash;
use socks5_reticulum_proxy::socks::{
    strip_rns, AuthMode, Command, ReplyError, Route, Router, Target,
};

fn domain(name: &str) -> Target {
    Target::Domain { name: name.to_string(), port: 80 }
}

fn backend_of(route: Route) -> (String, String, u16) {
    match route {
        Route::Backend { backend, host, port } => (backend, host, port),
        other => panic!("not for a proxy: {:?}", other),
    }
}

fn router(backends: &[&str]) -> Router {
    let mut router = Router::new();
    for backend in backends {
        router.add(backend.to_string());
    }
    router
}

#[test]
fn everybody_is_let_in_without_authentication() {
    assert!(AuthMode::NoAuth.admits(&"anybody".to_string(), &String::new()));
}

#[test]
fn only_the_right_user_and_password_are_let_in() {
    let auth = AuthMode::Password { username: "admin".to_string(), password: "password".to_string() };
    let admits = |user: &str, pass: &str| auth.admits(&user.to_string(), &pass.to_string());
    assert!(admits("admin", "password"));
    assert!(!admits("admin", "passwort"));
    assert!(!admits("Admin", "password"));
    assert!(!admits("", ""));
    assert!(!admits("password", "admin"));
}

#[test]
fn a_name_in_the_reticulum_domain_reaches_its_destination() {
    let hash = DestinationHash { id: 0xffbaa173393b55617485bbcfb248d14c };
    for mut router in [router(&[]), router(&["127.0.0.1:1337"])] {
        for name in ["ffbaa173393b55617485bbcfb248d14c.rns", "FFBAA173393B55617485BBCFB248D14C.rns"] {
            match router.route(Command::TcpConnect, domain(name)) {
                Route::Reticulum(found) => assert_eq!(found, hash),
                other => panic!("not for a destination: {:?}", other),
            }
        }
    }
}

#[test]
fn a_short_name_in_the_reticulum_domain_fails() {
    let mut router = router(&["127.0.0.1:1337"]);
    for name in ["test.rns", ".rns", "a.b.rns", "ffbaa173393b55617485bbcfb248d14.rns"] {
        match router.route(Command::TcpConnect, domain(name)) {
            Route::Fail(error) => assert_eq!(error, ReplyError::AddressTypeNotSupported),
            other => panic!("{}: {:?}", name, other),
        }
    }
}

#[test]
fn long_names_without_a_hash_are_told_apart() {
    assert!(!domain("this-is-a-name-and-no-hash-at-all-really.rns").is_readable());
    assert!(domain("this-is-a-name-and-no-hash-at-all-really.com").is_readable());
    assert!(domain("test.rns").is_readable());
    assert!(domain("ffbaa173393b55617485bbcfb248d14c.rns").is_readable());
    assert!(Target::V4 { octets: [127, 0, 0, 1], port: 80 }.is_readable());
}

#[test]
fn only_the_last_four_characters_make_the_domain() {
    assert_eq!(strip_rns("abc.rns"), Some("abc"));
    assert_eq!(strip_rns("abc.rns.rns"), Some("abc.rns"));
    assert_eq!(strip_rns("é.rns"), Some("é"));
    assert_eq!(strip_rns(".rns"), Some(""));
    assert_eq!(strip_rns("rns"), None);
    assert_eq!(strip_rns("abc.RNS"), None);
    assert_eq!(strip_rns("abc.rns."), None);
    assert_eq!(strip_rns(""), None);
}

#[test]
fn only_connections_are_served() {
    let mut router = router(&["127.0.0.1:1337"]);
    for command in [Command::TcpBind, Command::UdpAssociate] {
        for name in [
            "example.com",
            "ffbaa173393b55617485bbcfb248d14c.rns",
            "this-is-a-name-and-no-hash-at-all-really.rns",
            "admin.internal",
        ] {
            match router.route(command, domain(name)) {
                Route::Reject(error) => assert_eq!(error, ReplyError::CommandNotSupported),
                other => panic!("{}: {:?}", name, other),
            }
        }
    }
}

#[test]
fn without_proxies_the_network_is_unreachable() {
    let mut router = Router::new();
    assert!(matches!(router.route(Command::TcpConnect, domain("example.com")), Route::Unreachable));
    let address = Target::V4 { octets: [10, 0, 0, 1], port: 443 };
    assert!(matches!(router.route(Command::TcpConnect, address), Route::Unreachable));
}

#[test]
fn targets_are_passed_on_as_text() {
    let mut router = router(&["127.0.0.1:1337"]);
    let name = router.route(Command::TcpConnect, Target::Domain { name: "example.com".to_string(), port: 8080 });
    assert_eq!(
        backend_of(name),
        ("127.0.0.1:1337".to_string(), "example.com".to_string(), 8080)
    );
    let v4 = Target::V4 { octets: [192, 168, 0, 255], port: 1 };
    let (_, host, port) = backend_of(router.route(Command::TcpConnect, v4));
    assert_eq!((host.as_str(), port), ("192.168.0.255", 1));
    let mut octets = [0; 16];
    octets[0] = 0x20;
    octets[1] = 0x01;
    octets[15] = 1;
    let (_, host, port) = backend_of(router.route(Command::TcpConnect, Target::V6 { octets, port: 65535 }));
    assert_eq!((host.as_str(), port), ("2001::1", 65535));
}

#[test]
fn proxies_take_turns() {
    let mut router = router(&["a", "b", "c"]);
    let turns: Vec<String> = (0..7)
        .map(|_| backend_of(router.route(Command::TcpConnect, domain("example.com"))).0)
        .collect();
    assert_eq!(turns, vec!["a", "b", "c", "a", "b", "c", "a"]);
}

#[test]
fn only_connections_through_proxies_take_a_turn() {
    let mut router = router(&["a", "b"]);
    assert_eq!(backend_of(router.route(Command::TcpConnect, domain("example.com"))).0, "a");
    router.route(Command::TcpConnect, domain("ffbaa173393b55617485bbcfb248d14c.rns"));
    router.route(Command::TcpConnect, domain("admin.internal"));
    router.route(Command::UdpAssociate, domain("example.com"));
    assert_eq!(backend_of(router.route(Command::TcpConnect, domain("example.com"))).0, "b");
}

#[test]
fn a_proxy_is_listed_once() {
    let mut router = router(&["a", "b", "a"]);
    let turns: Vec<String> = (0..4)
        .map(|_| backend_of(router.route(Command::TcpConnect, domain("example.com"))).0)
        .collect();
    assert_eq!(turns, vec!["a", "b", "a", "b"]);
}

#[test]
fn the_console_adds_proxies() {
    let mut router = Router::new();
    assert!(matches!(router.route(Command::TcpConnect, domain("admin.internal")), Route::Console));
    router.console("ADD 127.0.0.1:1337");
    router.console("ADD  127.0.0.1:1338 \r\n");
    router.console("ADD 127.0.0.1:1337\n");
    let turns: Vec<String> = (0..3)
        .map(|_| backend_of(router.route(Command::TcpConnect, domain("example.com"))).0)
        .collect();
    assert_eq!(turns, vec!["127.0.0.1:1337", "127.0.0.1:1338", "127.0.0.1:1337"]);
}

#[test]
fn other_lines_on_the_console_are_ignored() {
    let mut router = Router::new();
    for line in ["", "ADD", "ADD ", "ADD  \t\n", "add x", "REMOVE x", "ADDx"] {
        router.console(line);
    }
    assert!(matches!(router.route(Command::TcpConnect, domain("example.com")), Route::Unreachable));
}
