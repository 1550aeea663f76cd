//! Addresses of peers on the network.

use iroh::{EndpointAddr, RelayUrl};
use vstd::prelude::*;

verus! {

/// Declares `iroh::EndpointAddr`: a peer's identifier and the network paths to it.
#[verifier::external_type_specification]
#[verifier::external_body]
pub struct ExEndpointAddr(iroh::EndpointAddr);

/// Declares `iroh::PublicKey`, the identifier of a peer.
#[verifier::external_type_specification]
#[verifier::external_body]
pub struct ExPublicKey(iroh::PublicKey);

/// One network path to a peer.
pub enum PathView {
    /// A relay server, by its URL.
    Relay(Seq<char>),
    /// An IPv4 socket.
    Ip4 {
        /// The four bytes of the address.
        ip: Seq<u8>,
        /// The port.
        port: u16,
    },
    /// An IPv6 socket.
    Ip6 {
        /// The sixteen bytes of the address.
        ip: Seq<u8>,
        /// The port.
        port: u16,
        /// The flow information.
        flowinfo: u32,
        /// The scope that a link-local address is meant in.
        scope_id: u32,
    },
    /// An address of some other transport.
    Custom {
        /// The transport.
        transport: u64,
        /// The address in the transport's own terms.
        data: Seq<u8>,
    },
}

/// What an endpoint address holds.
pub struct EndpointView {
    /// The thirty-two bytes of the peer's identifier.
    pub id: Seq<u8>,
    /// The paths to the peer.
    pub paths: Set<PathView>,
}

/// What an endpoint address holds.
pub uninterp spec fn endpoint_view(endpoint: EndpointAddr) -> EndpointView;

/// A path without the flow information and the scope of an IPv6 socket, which
/// mean something only on the machine that wrote them.
pub open spec fn unscoped(path: PathView) -> PathView {
    match path {
        PathView::Ip6 { ip, port, flowinfo, scope_id } => PathView::Ip6 {
            ip,
            port,
            flowinfo: 0,
            scope_id: 0,
        },
        _ => path,
    }
}

/// An endpoint address as a link carries it: every path, unscoped.
pub open spec fn carried(endpoint: EndpointView) -> EndpointView {
    EndpointView { id: endpoint.id, paths: endpoint.paths.map(|path: PathView| unscoped(path)) }
}

/// Whether no IPv6 path of an endpoint address has flow information or a scope.
pub open spec fn is_unscoped(endpoint: EndpointView) -> bool {
    forall|path: PathView| #[trigger]
        endpoint.paths.contains(path) ==> unscoped(path) == path
}

/// The text of the URL that `RelayUrl`'s `FromStr` reads from a text, if it reads one.
pub uninterp spec fn relay_text(text: Seq<char>) -> Option<Seq<char>>;

/// Whether every relay URL of an endpoint address is read back from its own text. One
/// that was parsed and edited since may not be: its text may be that of another URL,
/// or of none.
pub open spec fn relays_read_back(endpoint: EndpointView) -> bool {
    forall|url: Seq<char>| #[trigger]
        endpoint.paths.contains(PathView::Relay(url)) ==> relay_text(url) == Some(url)
}

/// A clone of an endpoint address holds the same identifier and paths.
pub assume_specification[ <EndpointAddr as Clone>::clone ](endpoint: &EndpointAddr) -> (copy:
    EndpointAddr)
    ensures
        endpoint_view(copy) == endpoint_view(*endpoint),
;

/// Reads the field `EndpointAddr::id`, and its bytes by `PublicKey::as_bytes`.
#[verifier::external_body]
pub(crate) fn endpoint_id(endpoint: &EndpointAddr) -> (id: [u8; 32])
    ensures
        id@ == endpoint_view(*endpoint).id,
{
    *endpoint.id.as_bytes()
}

/// Compares endpoint addresses with `EndpointAddr`'s `==`, which holds where the
/// identifiers and the sets of paths are equal.
#[verifier::external_body]
pub(crate) fn same_endpoint(a: &EndpointAddr, b: &EndpointAddr) -> (same: bool)
    ensures
        same == (endpoint_view(*a) == endpoint_view(*b)),
{
    a == b
}

/// Calls `RelayUrl`'s `FromStr`, and its `Display` on the URL that was read.
#[verifier::external_body]
fn read_relay(text: &str) -> (url: Option<String>)
    ensures
        match url {
            Some(url) => relay_text(text@) == Some(url@),
            None => relay_text(text@) is None,
        },
{
    text.parse().ok().map(|url: RelayUrl| url.to_string())
}

/// Calls `EndpointAddr::relay_urls`, and `RelayUrl`'s `Display` on each: the texts of
/// the relay paths, and of nothing else.
#[verifier::external_body]
fn relay_texts(endpoint: &EndpointAddr) -> (texts: Vec<String>)
    ensures
        forall|i: int|
            0 <= i < texts@.len() ==> endpoint_view(*endpoint).paths.contains(
                PathView::Relay((#[trigger] texts@[i])@),
            ),
        forall|url: Seq<char>| #[trigger]
            endpoint_view(*endpoint).paths.contains(PathView::Relay(url)) ==> exists|i: int|
                0 <= i < texts@.len() && (#[trigger] texts@[i])@ == url,
{
    endpoint.relay_urls().map(|url| url.to_string()).collect()
}

/// Tells whether every relay URL of an endpoint address is read back from its own
/// text, as a link needs that is to keep the address.
pub fn is_portable(endpoint: &EndpointAddr) -> (portable: bool)
    ensures
        portable == relays_read_back(endpoint_view(*endpoint)),
{
    let texts: Vec<String> = relay_texts(endpoint);
    let mut i: usize = 0;
    while i < texts.len()
        invariant
            i <= texts@.len(),
            forall|j: int|
                0 <= j < texts@.len() ==> endpoint_view(*endpoint).paths.contains(
                    PathView::Relay((#[trigger] texts@[j])@),
                ),
            forall|j: int|
                0 <= j < i ==> relay_text((#[trigger] texts@[j])@) == Some(texts@[j]@),
        decreases texts@.len() - i,
    {
        assert(endpoint_view(*endpoint).paths.contains(PathView::Relay(texts@[i as int]@)));
        match read_relay(texts[i].as_str()) {
            Some(url) => {
                if url != texts[i] {
                    return false;
                }
            },
            None => {
                return false;
            },
        }
        i += 1;
    }
    true
}

/// An endpoint address without scopes is carried whole.
pub proof fn law_unscoped_is_carried_whole(endpoint: EndpointView)
    ensures
        is_unscoped(endpoint) ==> carried(endpoint) == endpoint,
        is_unscoped(carried(endpoint)),
{
    let paths = carried(endpoint).paths;
    assert forall|path: PathView| #[trigger] paths.contains(path) implies unscoped(path)
        == path by {
        let source = choose|source: PathView|
            endpoint.paths.contains(source) && unscoped(source) == path;
    }
    if is_unscoped(endpoint) {
        assert forall|path: PathView| paths.contains(path) == endpoint.paths.contains(path) by {
            if paths.contains(path) {
                let source = choose|source: PathView|
                    endpoint.paths.contains(source) && unscoped(source) == path;
                assert(endpoint.paths.contains(source));
            }
            if endpoint.paths.contains(path) {
                assert(unscoped(path) == path);
            }
        }
        assert(paths =~= endpoint.paths);
    }
}

/// A link carries the identifier, every relay, IPv4 and other path as it is, and every IPv6
/// path by its address and port; and nothing else.
pub proof fn law_what_is_carried(endpoint: EndpointView, path: PathView)
    ensures
        carried(endpoint).id == endpoint.id,
        !(path is Ip6) ==> (carried(endpoint).paths.contains(path) <==> endpoint.paths.contains(
            path,
        )),
        path matches PathView::Ip6 { ip, port, flowinfo, scope_id } ==> (carried(
            endpoint,
        ).paths.contains(path) <==> flowinfo == 0 && scope_id == 0 && exists|f: u32, s: u32|
            #![auto]
            endpoint.paths.contains(PathView::Ip6 { ip, port, flowinfo: f, scope_id: s })),
{
    let paths = endpoint.paths.map(|path: PathView| unscoped(path));
    if paths.contains(path) {
        let source = choose|source: PathView|
            endpoint.paths.contains(source) && unscoped(source) == path;
        assert(endpoint.paths.contains(source));
        if let PathView::Ip6 { ip, port, flowinfo, scope_id } = source {
            assert(endpoint.paths.contains(PathView::Ip6 { ip, port, flowinfo, scope_id }));
        }
    }
    if !(path is Ip6) && endpoint.paths.contains(path) {
        assert(unscoped(path) == path);
    }
    if let PathView::Ip6 { ip, port, flowinfo, scope_id } = path {
        if flowinfo == 0 && scope_id == 0 && exists|f: u32, s: u32|
            #![auto]
            endpoint.paths.contains(PathView::Ip6 { ip, port, flowinfo: f, scope_id: s }) {
            let (f, s) = choose|f: u32, s: u32|
                #![auto]
                endpoint.paths.contains(PathView::Ip6 { ip, port, flowinfo: f, scope_id: s });
            let source = PathView::Ip6 { ip, port, flowinfo: f, scope_id: s };
            assert(unscoped(source) == path);
            assert(paths.contains(unscoped(source)));
        }
    }
}

/// An address is without scopes if and only if no IPv6 path has flow information or a scope,
/// whatever other paths it has; and its relay URLs read back if and only if each is read
/// from its own text.
pub proof fn law_which_addresses_links_keep(endpoint: EndpointView)
    ensures
        is_unscoped(endpoint) <==> forall|ip: Seq<u8>, port: u16, f: u32, s: u32| #[trigger]
            endpoint.paths.contains(PathView::Ip6 { ip, port, flowinfo: f, scope_id: s }) ==> f == 0
                && s == 0,
        relays_read_back(endpoint) <==> forall|url: Seq<char>| #[trigger]
            endpoint.paths.contains(PathView::Relay(url)) ==> relay_text(url) == Some(url),
{
    if is_unscoped(endpoint) {
        assert forall|ip: Seq<u8>, port: u16, f: u32, s: u32| #[trigger]
            endpoint.paths.contains(
                PathView::Ip6 { ip, port, flowinfo: f, scope_id: s },
            ) implies f == 0 && s == 0 by {
            let path = PathView::Ip6 { ip, port, flowinfo: f, scope_id: s };
            assert(unscoped(path) == path);
        }
    }
    if forall|ip: Seq<u8>, port: u16, f: u32, s: u32| #[trigger]
        endpoint.paths.contains(PathView::Ip6 { ip, port, flowinfo: f, scope_id: s }) ==> f == 0
            && s == 0 {
        assert forall|path: PathView| #[trigger] endpoint.paths.contains(path) implies unscoped(
            path,
        ) == path by {
            if let PathView::Ip6 { ip, port, flowinfo, scope_id } = path {
                assert(endpoint.paths.contains(PathView::Ip6 { ip, port, flowinfo, scope_id }));
            }
        }
    }
}

} // verus!
