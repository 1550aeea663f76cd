use std::str::FromStr;

use iroh::{EndpointAddr, PublicKey, RelayUrl, SecretKey};
use peersey::address::is_portable;
use peersey::live::link::{decode_ticket, encode_ticket};
use peersey::{BlobFormat, Error, LiveLink, ShareLink};

fn endpoint() -> EndpointAddr {
    EndpointAddr::new(SecretKey::from_bytes(&[7; 32]).public())
}

fn full_endpoint() -> EndpointAddr {
    endpoint()
        .with_ip_addr("127.0.0.1:1234".parse().unwrap())
        .with_ip_addr("[2001:db8::1]:9".parse().unwrap())
        .with_relay_url(RelayUrl::from_str("https://relay.example.com").unwrap())
}

fn scoped_endpoint() -> EndpointAddr {
    endpoint().with_ip_addr("[fe80::1%2]:9".parse().unwrap())
}

fn hex(bytes: &[u8]) -> String {
    hex::encode(bytes)
}

#[test]
fn live_link_round_trips() {
    let link = LiveLink::new(full_endpoint(), [0x5a; 32]);
    let text = link.to_string();
    assert!(text.parse::<LiveLink>().ok().unwrap() == link);
    assert!(link.clone() == link);
}

#[test]
fn live_link_has_this_text() {
    let address = endpoint();
    let link = LiveLink::new(address.clone(), [0x5a; 32]);
    let expected = format!(
        "peersey-live:{}00{}",
        hex(address.id.as_bytes()),
        "5a".repeat(32)
    );
    assert_eq!(link.to_string(), expected);
}

#[test]
fn live_link_reads_what_it_carries() {
    let link = LiveLink::new(full_endpoint(), [9; 32]);
    let read: LiveLink = link.to_string().parse().ok().unwrap();
    assert_eq!(read.token(), [9; 32]);
    assert_eq!(*read.endpoint(), full_endpoint());
}

#[test]
fn live_link_text_drops_scopes_only() {
    let link = LiveLink::new(scoped_endpoint(), [1; 32]);
    let read: LiveLink = link.to_string().parse().ok().unwrap();
    assert!(read != link);
    assert_eq!(
        *read.endpoint(),
        endpoint().with_ip_addr("[fe80::1]:9".parse().unwrap())
    );
    assert_eq!(read.to_string(), link.to_string());
}

/// An address whose relay is `start` with its path set to `path`.
fn edited_endpoint(start: &str, path: &str) -> EndpointAddr {
    let relay = RelayUrl::from_str(start).unwrap();
    let mut url = (*relay).clone();
    url.set_path(path);
    endpoint().with_relay_url(RelayUrl::from(url))
}

#[test]
fn relay_urls_that_read_back_are_portable() {
    assert!(is_portable(&endpoint()));
    assert!(is_portable(&full_endpoint()));
    assert!(is_portable(&scoped_endpoint()));
    assert!(!is_portable(&edited_endpoint("mailto:a", "b ")));
    assert!(!is_portable(&edited_endpoint("foo:/a", "//[")));
    let second = edited_endpoint("mailto:a", "b ")
        .with_relay_url(RelayUrl::from_str("https://relay.example.com").unwrap());
    assert!(!is_portable(&second));
}

#[test]
fn links_do_not_keep_urls_that_are_not_portable() {
    let changed = edited_endpoint("mailto:a", "b ");
    let link = LiveLink::new(changed.clone(), [1; 32]);
    assert!(link.to_string().parse::<LiveLink>().ok().unwrap() != link);
    let link = ShareLink::new(changed, [1; 32], BlobFormat::Raw);
    assert!(link.to_string().parse::<ShareLink>().ok().unwrap() != link);

    let broken = edited_endpoint("foo:/a", "//[");
    let link = LiveLink::new(broken.clone(), [1; 32]);
    assert!(matches!(
        link.to_string().parse::<LiveLink>(),
        Err(Error::InvalidLiveLink)
    ));
    let link = ShareLink::new(broken, [1; 32], BlobFormat::Raw);
    assert!(matches!(
        link.to_string().parse::<ShareLink>(),
        Err(Error::P2p(_))
    ));
}

#[test]
fn live_link_ignores_white_space_around_it() {
    let link = LiveLink::new(endpoint(), [1; 32]);
    let padded = format!(" \n{}\u{2003}", link.to_string());
    assert!(padded.parse::<LiveLink>().ok().unwrap() == link);
}

#[test]
fn live_link_accepts_upper_case_digits() {
    let link = LiveLink::new(endpoint(), [0xcd; 32]);
    let text = link.to_string();
    let upper = format!("peersey-live:{}", text["peersey-live:".len()..].to_uppercase());
    assert!(upper.parse::<LiveLink>().ok().unwrap() == link);
}

#[test]
fn texts_that_are_no_live_links_are_refused() {
    let good = LiveLink::new(endpoint(), [1; 32]).to_string();
    let mut texts = vec![
        String::new(),
        "peersey-live:".to_owned(),
        "peersey-live:0".to_owned(),
        "peersey-live:zz".to_owned(),
        "peersey-live:00".to_owned(),
        format!("x{good}"),
        good.replace("peersey-live:", "Peersey-live:"),
        good.replace("peersey-live:", ""),
    ];
    texts.push(good[..good.len() - 2].to_owned());
    for text in texts {
        assert!(matches!(
            text.parse::<LiveLink>(),
            Err(Error::InvalidLiveLink)
        ));
    }
}

#[test]
fn live_link_debug_is_redacted() {
    let link = LiveLink::new(endpoint(), [0xab; 32]);
    assert_eq!(link.debug_string(), "LiveLink([REDACTED])");
}

#[test]
fn tickets_are_framed_as_hexadecimal() {
    assert_eq!(encode_ticket(&[1, 0xfe]), "peersey-live:01fe");
    assert_eq!(encode_ticket(&[]), "peersey-live:");
    assert_eq!(decode_ticket(" peersey-live:01FE ").unwrap(), vec![1, 0xfe]);
    assert!(matches!(
        decode_ticket("peersey-live:1"),
        Err(Error::InvalidLiveLink)
    ));
    assert!(matches!(
        LiveLink::from_ticket(None),
        Err(Error::InvalidLiveLink)
    ));
}

#[test]
fn links_with_different_tokens_differ() {
    let a = LiveLink::new(endpoint(), [1; 32]);
    let b = LiveLink::new(endpoint(), [2; 32]);
    let c = LiveLink::new(full_endpoint(), [1; 32]);
    assert!(a != b);
    assert!(a != c);
}

const HASH: &str = "0b84d358e4c8be6c38626b2182ff575818ba6bd3f4b90464994be14cb354a072";
const ID: &str = "ae58ff8833241ac82d6ff7611046ed67b5072d142c588d0063e942d9a75502b6";
const TICKET: &str = "blobacxfr74igmsbvsbnn73wcecg5vt3kbzncqwfrdiampuufwnhkublmaaaaafyju2y4tel43bymjvsdax7k5mbrotl2p2lsbdetff6ctftksqhe";

fn known_link() -> ShareLink {
    let mut hash = [0u8; 32];
    hash.copy_from_slice(&hex::decode(HASH).unwrap());
    let id = PublicKey::from_str(ID).unwrap();
    ShareLink::new(EndpointAddr::new(id), hash, BlobFormat::Raw)
}

#[test]
fn share_link_has_this_text() {
    assert_eq!(known_link().to_string(), TICKET);
    assert_eq!(
        known_link().debug_string(),
        format!("ShareLink({TICKET:?})")
    );
}

#[test]
fn share_link_is_read_from_its_text() {
    let link: ShareLink = TICKET.parse().ok().unwrap();
    assert!(link == known_link());
    assert_eq!(link.content_id(), HASH);
    assert_eq!(hex(&link.hash()), HASH);
    assert_eq!(hex(&link.provider_id()), ID);
}

#[test]
fn share_link_round_trips() {
    for format in [BlobFormat::Raw, BlobFormat::HashSeq] {
        let link = ShareLink::new(full_endpoint(), [0x11; 32], format);
        assert!(link.to_string().parse::<ShareLink>().ok().unwrap() == link);
        assert!(link.clone() == link);
    }
    let raw = ShareLink::new(endpoint(), [0x11; 32], BlobFormat::Raw);
    let seq = ShareLink::new(endpoint(), [0x11; 32], BlobFormat::HashSeq);
    assert!(raw != seq);
}

#[test]
fn share_link_text_keeps_one_relay_and_no_scope() {
    let address = scoped_endpoint()
        .with_relay_url(RelayUrl::from_str("https://b.example.com").unwrap())
        .with_relay_url(RelayUrl::from_str("https://a.example.com").unwrap());
    let link = ShareLink::new(address, [0x22; 32], BlobFormat::Raw);
    let read: ShareLink = link.to_string().parse().ok().unwrap();
    assert!(read != link);
    assert_eq!(read.hash(), [0x22; 32]);
    assert_eq!(read.provider_id(), link.provider_id());
    assert!(read.to_string().parse::<ShareLink>().ok().unwrap() == read);
}

#[test]
fn texts_that_are_no_share_links_are_refused() {
    for text in ["", "blob", "blob!", "node2222", "ticket"] {
        assert!(matches!(text.parse::<ShareLink>(), Err(Error::P2p(_))));
    }
    assert!(matches!(
        ShareLink::from_ticket(Err("no".to_owned())),
        Err(Error::P2p(words)) if words == "no"
    ));
    assert!(matches!(
        "nope".parse::<ShareLink>(),
        Err(Error::P2p(words)) if words == "wrong prefix, expected blob"
    ));
}

#[test]
fn links_have_one_text_only_if_they_are_equal() {
    let a = LiveLink::new(endpoint(), [1; 32]);
    let b = LiveLink::new(full_endpoint(), [1; 32]);
    let c = LiveLink::new(endpoint(), [2; 32]);
    assert_eq!(a.to_string(), a.clone().to_string());
    assert_ne!(a.to_string(), b.to_string());
    assert_ne!(a.to_string(), c.to_string());
    let raw = ShareLink::new(endpoint(), [3; 32], BlobFormat::Raw);
    let seq = ShareLink::new(endpoint(), [3; 32], BlobFormat::HashSeq);
    assert_eq!(raw.to_string(), raw.clone().to_string());
    assert_ne!(raw.to_string(), seq.to_string());
}
