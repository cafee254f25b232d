//! Texts: numbers, errors and the lines of the reverse proxy.

use socks5_reticulum_proxy::error::Error;
use socks5_reticulum_proxy::ids::{DestinationHash, LinkId};
use socks5_reticulum_proxy::reverse::{destination_name, prepare, Aspects, MappingConfig};
use socks5_reticulum_proxy::text::decimal;

const DESTINATION: DestinationHash = DestinationHash { id: 0xffbaa173393b55617485bbcfb248d14c };

#[test]
fn numbers_are_written_in_decimal() {
    for n in [0, 9, 10, 99, 100, 1024, 65536, u64::MAX] {
        assert_eq!(decimal(n), n.to_string());
    }
}

#[test]
fn every_error_has_its_text() {
    let cause = || "cause".to_string();
    let link = LinkId { id: 0xab };
    let mut resource = [0; 32];
    resource[0] = 0x12;
    resource[31] = 0xef;
    let resource_text = format!("12{}ef", "0".repeat(60));
    let hash = "ffbaa173393b55617485bbcfb248d14c";
    let link_text = "000000000000000000000000000000ab";
    let cases = vec![
        (
            Error::NoAnnouncement { destination: DESTINATION },
            format!("no announcement received yet for destination {}", hash),
        ),
        (Error::Node { cause: cause() }, "cause".to_string()),
        (
            Error::RefusalUndelivered { destination: DESTINATION },
            format!(
                "error trying to send send error back to connection requestor: no announcement \
                 received yet for destination {}",
                hash
            ),
        ),
        (
            Error::FailureUndelivered { cause: cause() },
            "error when trying to send error back to connection requestor: cause".to_string(),
        ),
        (
            Error::ListenerExists { destination: DESTINATION },
            format!("Listener already exists for destination {}", hash),
        ),
        (
            Error::DuplicateUndelivered { destination: DESTINATION },
            format!(
                "error trying to send error response back to listener requestor: Listener already \
                 exists for destination {}",
                hash
            ),
        ),
        (
            Error::ListenerUndelivered,
            "error trying to send error response back to listener requestor".to_string(),
        ),
        (
            Error::LinkNotAccepted { cause: cause() },
            "error when trying to accept link: cause".to_string(),
        ),
        (
            Error::StreamUndelivered,
            "error trying to send reticulum stream back to connection requestor".to_string(),
        ),
        (Error::LinkClosed, "link closed".to_string()),
        (
            Error::ClosureUndelivered,
            "could not send response back to connection requestor: link closed".to_string(),
        ),
        (
            Error::StreamMissing { link, resource, bytes: 120 },
            format!(
                "link {}: resource {}: dropping 120 received bytes because sender to stream \
                 doesn't exist",
                link_text, resource_text
            ),
        ),
        (
            Error::StreamDropped { link, resource, bytes: 0 },
            format!(
                "link {}: resource {}: dropping 0 received bytes because stream was dropped",
                link_text, resource_text
            ),
        ),
        (Error::ResourceNotSent { cause: cause() }, "sending resource: cause".to_string()),
        (
            Error::NotAnnounced,
            "did not receive an announcement for that address yet".to_string(),
        ),
        (
            Error::InvalidForwardAddress { address: "here".to_string(), cause: cause() },
            "Invalid forward address 'here': cause".to_string(),
        ),
        (
            Error::InvalidIdentity { cause: cause() },
            "Failed to parse identity: cause".to_string(),
        ),
        (
            Error::UnreadableMappings { path: "\"m.json\"".to_string(), cause: cause() },
            "Failed to read mappings file \"m.json\": cause".to_string(),
        ),
        (
            Error::InvalidMappings { cause: cause() },
            "Failed to parse mappings JSON: cause".to_string(),
        ),
        (
            Error::TargetUnreachable { target: "127.0.0.1:8080".to_string(), cause: cause() },
            "Failed to connect to target 127.0.0.1:8080: cause".to_string(),
        ),
    ];
    for (error, text) in cases {
        assert_eq!(error.message(), text);
    }
}

#[test]
fn aspects_are_a_list_or_a_single_one() {
    let list = vec!["a".to_string(), "b".to_string()];
    assert_eq!(Aspects::List(list.clone()).into_list(), list);
    assert_eq!(Aspects::List(vec![]).into_list(), Vec::<String>::new());
    assert_eq!(Aspects::Single("tcp".to_string()).into_list(), vec!["tcp".to_string()]);
}

#[test]
fn a_destination_is_called_by_its_mapping_alone() {
    let name = destination_name(&"test".to_string());
    assert_eq!(name.app_name, "test");
    assert!(name.aspects.is_empty());
}

#[test]
fn a_mapping_gets_the_hash_of_its_destination() {
    let config = MappingConfig {
        aspects: vec!["test".to_string()],
        forward_to: "127.0.0.1:8080".to_string(),
        address_hash: None,
    };
    let prepared = prepare("test".to_string(), config.clone(), DESTINATION);
    assert_eq!(prepared.name, "test");
    assert_eq!(prepared.config.aspects, config.aspects);
    assert_eq!(prepared.config.forward_to, config.forward_to);
    assert_eq!(
        prepared.config.address_hash,
        Some("ffbaa173393b55617485bbcfb248d14c".to_string())
    );
    assert_eq!(prepared.discovery, "test:ffbaa173393b55617485bbcfb248d14c");
}

#[test]
fn the_hash_follows_the_first_colon_of_a_discovery_line() {
    let config = MappingConfig {
        aspects: vec![],
        forward_to: String::new(),
        address_hash: Some("old".to_string()),
    };
    let prepared = prepare("a name".to_string(), config, DESTINATION);
    let (name, hash) = prepared.discovery.split_once(':').unwrap();
    assert_eq!(name, "a name");
    assert_eq!(DestinationHash::new_from_hex_string(hash), Some(DESTINATION));
    assert_eq!(prepared.config.address_hash.as_deref(), Some(hash));
}
