use accord_voice::endpoint::{
    config_dir_or_default, default_config_dir, identity_contents, identity_path, load_secret_key,
    load_or_create_secret_key, node_id, Identity, Platform,
};
use accord_voice::ticket::{
    addressed_node_id, create_ticket, node_details, parse_ticket, ticket_leads_back, NodeDetails,
};
use accord_voice::VoiceError;
use iroh_base::{NodeAddr, RelayUrl, SecretKey};
use std::ops::Deref;
use std::path::{Path, PathBuf};
use std::str::FromStr;

fn node(seed: u8) -> NodeAddr {
    NodeAddr::new(SecretKey::from_bytes(&[seed; 32]).public())
}

#[test]
fn ticket_of_a_bare_node() {
    let addr = node(1);
    let ticket = create_ticket(Some(addr.clone())).ok().unwrap();
    assert!(ticket.starts_with("node"));
    assert!(ticket.chars().all(|c| c.is_ascii_lowercase() || c.is_ascii_digit()));
    assert_eq!(parse_ticket(&ticket), Ok(addr));
}

#[test]
fn ticket_tells_every_way_to_the_node() {
    let relay = RelayUrl::from_str("https://relay.example.org").ok().unwrap();
    let addr = node(2)
        .with_relay_url(relay)
        .with_direct_addresses(["127.0.0.1:4000".parse().unwrap(), "[::1]:5000".parse().unwrap()]);
    let ticket = create_ticket(Some(addr.clone())).ok().unwrap();
    assert_eq!(parse_ticket(&ticket), Ok(addr));
    let other = create_ticket(Some(node(2))).ok().unwrap();
    assert_ne!(ticket, other);
}

fn relay_with_path(text: &str, path: &str) -> RelayUrl {
    let relay = RelayUrl::from_str(text).ok().unwrap();
    let mut url: <RelayUrl as Deref>::Target = relay.into();
    url.set_path(path);
    RelayUrl::from(url)
}

#[test]
fn relay_that_is_no_url_as_text() {
    let addr = node(3).with_relay_url(relay_with_path("x:/a", "//a:b"));
    assert_eq!(node_details(&addr).relay_url, Some("x://a:b".to_string()));
    assert!(!ticket_leads_back(&addr));
    let ticket = create_ticket(Some(addr)).ok().unwrap();
    assert!(matches!(parse_ticket(&ticket), Err(VoiceError::Ticket(_))));
}

#[test]
fn relay_that_is_another_url_as_text() {
    let relay = RelayUrl::from_str("web+demo:/.//p").ok().unwrap();
    let mut url: <RelayUrl as Deref>::Target = relay.into();
    url.path_segments_mut().unwrap().clear();
    let addr = node(3).with_relay_url(RelayUrl::from(url));
    assert!(!ticket_leads_back(&addr));
    let ticket = create_ticket(Some(addr.clone())).ok().unwrap();
    let read = parse_ticket(&ticket).ok().unwrap();
    assert_ne!(node_details(&read).relay_url, node_details(&addr).relay_url);
    assert_eq!(addressed_node_id(&read), addressed_node_id(&addr));
}

#[test]
fn relays_that_are_read_back() {
    assert!(ticket_leads_back(&node(3)));
    for text in ["https://relay.example.org", "http://10.0.0.1:8080/a?b#c", "x:y"] {
        let addr = node(3).with_relay_url(RelayUrl::from_str(text).ok().unwrap());
        assert!(ticket_leads_back(&addr));
        let ticket = create_ticket(Some(addr.clone())).ok().unwrap();
        let read = parse_ticket(&ticket).ok().unwrap();
        assert_eq!(read, addr);
        assert!(ticket_leads_back(&read));
    }
}

#[test]
fn ticket_needs_an_address() {
    assert_eq!(
        create_ticket(None),
        Err(VoiceError::Other("Failed to build node address".to_string()))
    );
}

#[test]
fn bad_tickets_are_refused() {
    assert_eq!(
        parse_ticket("blobabc").err(),
        Some(VoiceError::Ticket("wrong prefix, expected node".to_string()))
    );
    assert!(matches!(
        parse_ticket("node1!").err(),
        Some(VoiceError::Ticket(text)) if text.starts_with("decoding failed: ")
    ));
    assert!(matches!(
        parse_ticket("nodeaa").err(),
        Some(VoiceError::Ticket(text)) if text.starts_with("deserialization failed: ")
    ));
    assert!(parse_ticket("").is_err());
    let padded = format!(" {}", create_ticket(Some(node(1))).ok().unwrap());
    assert!(parse_ticket(&padded).is_err());
}

#[test]
fn identity_file_is_in_the_directory() {
    assert_eq!(identity_path(Path::new("/etc/voice")), PathBuf::from("/etc/voice/identity.key"));
    assert_eq!(identity_path(Path::new("")), PathBuf::from("identity.key"));
}

#[test]
fn configured_directory_goes_first() {
    let configured = Some(PathBuf::from("/a"));
    let base = Some(PathBuf::from("/home/user/.config"));
    let own = Ok(PathBuf::from("/home/user/.config/Accord"));
    let other = Platform::Other;
    assert_eq!(
        config_dir_or_default(configured.clone(), other, base.clone()),
        Ok(PathBuf::from("/a"))
    );
    assert_eq!(config_dir_or_default(configured, other, None), Ok(PathBuf::from("/a")));
    assert_eq!(config_dir_or_default(None, other, base.clone()), own);
    assert_eq!(default_config_dir(other, base), own);
    let unknown = VoiceError::Other("Could not determine config directory".to_string());
    assert_eq!(config_dir_or_default(None, other, None).err(), Some(unknown));
}

#[test]
fn directory_is_named_for_the_platform() {
    let base = Some(PathBuf::from("/Users/user/Library/Application Support"));
    assert_eq!(
        default_config_dir(Platform::MacOs, base),
        Ok(PathBuf::from("/Users/user/Library/Application Support/com.Accord.Accord"))
    );
}

#[test]
fn node_id_is_the_public_key() {
    let key = SecretKey::from_bytes(&[9; 32]);
    assert_eq!(node_id(&key), key.public().to_string());
    assert_eq!(node_id(&key).len(), 64);
    assert_ne!(node_id(&key), node_id(&SecretKey::from_bytes(&[8; 32])));
}

#[test]
fn ticket_names_its_node() {
    let key = SecretKey::from_bytes(&[4; 32]);
    let ticket = create_ticket(Some(NodeAddr::new(key.public()))).ok().unwrap();
    let read = parse_ticket(&ticket).ok().unwrap();
    assert_eq!(addressed_node_id(&read), node_id(&key));
}

#[test]
fn details_of_an_address() {
    let relay = RelayUrl::from_str("https://relay.example.org").ok().unwrap();
    let addr = node(2)
        .with_relay_url(relay)
        .with_direct_addresses(["127.0.0.1:4000".parse().unwrap(), "[::1]:5000".parse().unwrap()]);
    assert_eq!(
        node_details(&addr),
        NodeDetails {
            node_id: addr.node_id.as_bytes().to_vec(),
            relay_url: Some("https://relay.example.org./".to_string()),
            direct_addresses: vec![("127.0.0.1".to_string(), 4000), ("::1".to_string(), 5000)],
        }
    );
    assert_eq!(node_details(&node(2)).relay_url, None);
}

#[test]
fn keys_are_read_from_their_bytes() {
    let bytes: Vec<u8> = (0..32u8).collect();
    let key = load_secret_key(&bytes).ok().unwrap();
    assert_eq!(key.to_bytes().to_vec(), bytes);
    assert_eq!(identity_contents(&key), bytes);
}

#[test]
fn keys_have_their_length() {
    for len in [0usize, 31, 33] {
        assert_eq!(
            load_secret_key(&vec![7; len]).err(),
            Some(VoiceError::Other("Invalid secret key length".to_string()))
        );
        assert!(load_or_create_secret_key(Some(vec![7; len])).is_err());
    }
}

#[test]
fn identity_is_kept_between_runs() {
    let (key, contents) = match load_or_create_secret_key(None) {
        Ok(Identity::New { key, contents }) => (key, contents),
        _ => panic!("a new identity is made"),
    };
    match load_or_create_secret_key(Some(contents)) {
        Ok(Identity::Kept(kept)) => assert_eq!(node_id(&kept), node_id(&key)),
        _ => panic!("the identity is kept"),
    }
}

#[test]
fn new_identities_differ() {
    let fresh = || match load_or_create_secret_key(None) {
        Ok(Identity::New { contents, .. }) => contents,
        _ => panic!("a new identity is made"),
    };
    assert_ne!(fresh(), fresh());
}
