//! Links to shared files.

use std::str::FromStr;

use iroh::EndpointAddr;
use iroh_blobs::ticket::BlobTicket;
use vstd::prelude::*;

use crate::address;
use crate::address::{
    carried, endpoint_view, is_unscoped, relays_read_back, unscoped, EndpointView, PathView,
};
use crate::error::Error;
use crate::hexadecimal::hex_lower;
use crate::payload;

verus! {

/// How shared content is to be read.
#[derive(Debug, Clone, Copy, PartialEq, Eq, Structural)]
pub enum BlobFormat {
    /// As it is.
    Raw,
    /// As a sequence of hashes of further content.
    HashSeq,
}

/// Portable link containing a content hash and provider address.
pub struct ShareLink {
    provider: EndpointAddr,
    hash: [u8; 32],
    format: BlobFormat,
}

/// What a share link says.
pub struct ShareView {
    /// The address of the provider.
    pub provider: EndpointView,
    /// The BLAKE3 hash of the content.
    pub hash: Seq<u8>,
    /// How the content is to be read.
    pub format: BlobFormat,
}

impl View for ShareLink {
    type V = ShareView;

    closed spec fn view(&self) -> ShareView {
        ShareView {
            provider: endpoint_view(self.provider),
            hash: self.hash@,
            format: self.format,
        }
    }
}

/// Whether a path is an IP socket.
pub open spec fn is_ip(path: PathView) -> bool {
    path is Ip4 || path is Ip6
}

/// Whether `shared` is what the text of a share link keeps of an endpoint address:
/// the identifier, every IP path unscoped, one relay if there is any, and nothing
/// of other transports.
pub open spec fn is_shared(endpoint: EndpointView, shared: EndpointView) -> bool {
    &&& shared.id == endpoint.id
    &&& forall|path: PathView| #[trigger]
        shared.paths.contains(path) && is_ip(path) ==> carried(endpoint).paths.contains(path)
    &&& forall|path: PathView| #[trigger]
        endpoint.paths.contains(path) && is_ip(path) ==> shared.paths.contains(unscoped(path))
    &&& forall|path: PathView| #[trigger]
        shared.paths.contains(path) && path is Relay ==> endpoint.paths.contains(path)
    &&& forall|a: PathView, b: PathView|
        #![trigger shared.paths.contains(a), shared.paths.contains(b)]
        shared.paths.contains(a) && shared.paths.contains(b) && a is Relay && b is Relay ==> a == b
    &&& forall|path: PathView| #[trigger]
        endpoint.paths.contains(path) && path is Relay ==> exists|kept: PathView| #[trigger]
            shared.paths.contains(kept) && kept is Relay
    &&& forall|path: PathView| #[trigger] shared.paths.contains(path) ==> !(path is Custom)
}

/// Whether the text of a share link keeps the whole of an endpoint address: it has
/// at most one relay, no scopes and no other transports.
pub open spec fn is_shareable(endpoint: EndpointView) -> bool {
    &&& is_unscoped(endpoint)
    &&& forall|a: PathView, b: PathView|
        #![trigger endpoint.paths.contains(a), endpoint.paths.contains(b)]
        endpoint.paths.contains(a) && endpoint.paths.contains(b) && a is Relay && b is Relay ==> a
            == b
    &&& forall|path: PathView| #[trigger] endpoint.paths.contains(path) ==> !(path is Custom)
}

/// Whether a text that was parsed to `parts` keeps a provider, a hash and a format:
/// the last two whole, and of the provider's address what a share link keeps.
pub open spec fn is_kept(
    provider: EndpointView,
    hash: Seq<u8>,
    format: BlobFormat,
    parts: Result<(EndpointView, Seq<u8>, BlobFormat), Seq<char>>,
) -> bool {
    match parts {
        Ok(kept) => is_shared(provider, kept.0) && kept.1 == hash && kept.2 == format,
        Err(_) => false,
    }
}

/// The text that a `BlobTicket` shows as.
pub uninterp spec fn blob_ticket_text(
    provider: EndpointView,
    hash: Seq<u8>,
    format: BlobFormat,
) -> Seq<char>;

/// The provider, the hash and the format of the `BlobTicket` that a text is parsed
/// to, or what the parser says is wrong with the text.
pub uninterp spec fn blob_ticket_parts(value: Seq<char>) -> Result<
    (EndpointView, Seq<u8>, BlobFormat),
    Seq<char>,
>;

/// Calls `BlobTicket`'s `Display` on a ticket made by `BlobTicket::new`. The text is
/// parsed back to the same hash and format, and to what it keeps of the provider's
/// address. A relay URL is kept by its text, so of a provider with a URL that is not
/// read back from its text nothing is said.
#[verifier::external_body]
fn write_ticket(provider: &EndpointAddr, hash: &[u8; 32], format: BlobFormat) -> (value: String)
    ensures
        value@ == blob_ticket_text(endpoint_view(*provider), hash@, format),
        relays_read_back(endpoint_view(*provider)) ==> is_kept(
            endpoint_view(*provider),
            hash@,
            format,
            blob_ticket_parts(value@),
        ),
{
    let format = match format {
        BlobFormat::Raw => iroh_blobs::BlobFormat::Raw,
        BlobFormat::HashSeq => iroh_blobs::BlobFormat::HashSeq,
    };
    BlobTicket::new(provider.clone(), iroh_blobs::Hash::from_bytes(*hash), format).to_string()
}

/// Calls `BlobTicket`'s `FromStr`. The provider's address in a ticket that was parsed
/// has at most one relay, no scopes and no other transports.
#[verifier::external_body]
fn read_ticket(value: &str) -> (ticket: Result<(EndpointAddr, [u8; 32], BlobFormat), String>)
    ensures
        match ticket {
            Ok((provider, hash, format)) => blob_ticket_parts(value@) == Ok::<_, Seq<char>>(
                (endpoint_view(provider), hash@, format),
            ) && is_shareable(endpoint_view(provider)),
            Err(words) => blob_ticket_parts(value@) == Err::<
                (EndpointView, Seq<u8>, BlobFormat),
                _,
            >(words@),
        },
{
    let ticket: BlobTicket = value.parse().map_err(
        |error: <BlobTicket as FromStr>::Err| error.to_string(),
    )?;
    let (provider, hash, format) = ticket.into_parts();
    let format = match format {
        iroh_blobs::BlobFormat::Raw => BlobFormat::Raw,
        iroh_blobs::BlobFormat::HashSeq => BlobFormat::HashSeq,
    };
    Ok((provider, *hash.as_bytes(), format))
}

/// Calls `Display` of an `iroh_blobs::Hash`: two lower-case hexadecimal digits for
/// each byte.
#[verifier::external_body]
fn hash_text(hash: &[u8; 32]) -> (value: String)
    ensures
        value@ == hex_lower(hash@),
{
    iroh_blobs::Hash::from_bytes(*hash).to_string()
}

/// The text of a share link.
pub open spec fn share_text(link: ShareView) -> Seq<char> {
    blob_ticket_text(link.provider, link.hash, link.format)
}

/// What reading a text as a share link comes to.
pub open spec fn is_parsed_share(value: Seq<char>, link: Result<ShareLink, Error>) -> bool {
    match blob_ticket_parts(value) {
        Ok((provider, hash, format)) => link matches Ok(link) && link@ == ShareView {
            provider,
            hash,
            format,
        },
        Err(words) => link matches Err(Error::P2p(said)) && said@ == words,
    }
}

impl ShareLink {
    /// The link to content at a provider.
    pub fn new(provider: EndpointAddr, hash: [u8; 32], format: BlobFormat) -> (link: ShareLink)
        ensures
            link@ == (ShareView { provider: endpoint_view(provider), hash: hash@, format }),
    {
        ShareLink { provider, hash, format }
    }

    /// The link for a ticket that was parsed, or the parser's complaint as an error.
    pub fn from_ticket(ticket: Result<(EndpointAddr, [u8; 32], BlobFormat), String>) -> (link:
        Result<ShareLink, Error>)
        ensures
            match ticket {
                Ok((provider, hash, format)) => link matches Ok(link) && link@ == (ShareView {
                    provider: endpoint_view(provider),
                    hash: hash@,
                    format,
                }),
                Err(words) => link matches Err(Error::P2p(said)) && said@ == words@,
            },
    {
        match ticket {
            Ok((provider, hash, format)) => Ok(ShareLink::new(provider, hash, format)),
            Err(words) => Err(Error::P2p(words)),
        }
    }

    /// BLAKE3 content identifier encoded for display.
    pub fn content_id(&self) -> (id: String)
        ensures
            id@ == hex_lower(self@.hash),
            id@.len() == 64,
    {
        hash_text(&self.hash)
    }

    /// The hash of the content.
    pub fn hash(&self) -> (hash: [u8; 32])
        ensures
            hash@ == self@.hash,
    {
        self.hash
    }

    /// The identifier of the provider.
    pub fn provider_id(&self) -> (id: [u8; 32])
        ensures
            id@ == self@.provider.id,
    {
        address::endpoint_id(&self.provider)
    }

    /// The link as text. Where the provider's relay URLs are read back from their
    /// texts, reading the text gives the link back, but for those of the provider's
    /// paths that the text does not keep.
    pub fn to_string(&self) -> (value: String)
        ensures
            value@ == share_text(self@),
            value@ == blob_ticket_text(self@.provider, self@.hash, self@.format),
            relays_read_back(self@.provider) ==> is_kept(
                self@.provider,
                self@.hash,
                self@.format,
                blob_ticket_parts(value@),
            ),
            forall|read: Result<ShareLink, Error>|
                relays_read_back(self@.provider) && is_shareable(self@.provider)
                    && #[trigger] is_parsed_share(value@, read) ==> read is Ok && read->Ok_0@
                    == self@,
    {
        let value: String = write_ticket(&self.provider, &self.hash, self.format);
        proof {
            let shared = blob_ticket_parts(value@)->Ok_0.0;
            if relays_read_back(self@.provider) && is_shareable(self@.provider) {
                law_shareable_is_kept_whole(self@.provider, shared);
            }
        }
        value
    }

    /// The link that a text is.
    pub fn from_str(value: &str) -> (link: Result<ShareLink, Error>)
        ensures
            is_parsed_share(value@, link),
            link matches Ok(link) ==> is_shareable(link@.provider),
            link is Ok <==> blob_ticket_parts(value@) is Ok,
            link is Ok ==> blob_ticket_parts(value@) == Ok::<_, Seq<char>>(
                (link->Ok_0@.provider, link->Ok_0@.hash, link->Ok_0@.format),
            ),
            link is Err ==> (link->Err_0 matches Error::P2p(said) && blob_ticket_parts(value@)
                == Err::<(EndpointView, Seq<u8>, BlobFormat), _>(said@)),
    {
        ShareLink::from_ticket(read_ticket(value))
    }

    /// How the link shows in logs.
    pub fn debug_string(&self) -> (shown: String)
        ensures
            shown@ == "ShareLink(\""@ + share_text(self@) + "\")"@,
    {
        let mut shown: String = "ShareLink(\"".to_owned();
        shown.append(self.to_string().as_str());
        shown.append("\")");
        shown
    }
}

impl FromStr for ShareLink {
    type Err = Error;

    fn from_str(value: &str) -> (link: Result<ShareLink, Error>)
        ensures
            is_parsed_share(value@, link),
            link matches Ok(link) ==> is_shareable(link@.provider),
            link is Ok <==> blob_ticket_parts(value@) is Ok,
            link is Ok ==> blob_ticket_parts(value@) == Ok::<_, Seq<char>>(
                (link->Ok_0@.provider, link->Ok_0@.hash, link->Ok_0@.format),
            ),
            link is Err ==> (link->Err_0 matches Error::P2p(said) && blob_ticket_parts(value@)
                == Err::<(EndpointView, Seq<u8>, BlobFormat), _>(said@)),
    {
        ShareLink::from_str(value)
    }
}

impl Clone for ShareLink {
    fn clone(&self) -> (copy: ShareLink)
        ensures
            copy@ == self@,
    {
        ShareLink { provider: self.provider.clone(), hash: self.hash, format: self.format }
    }
}

impl PartialEq for ShareLink {
    fn eq(&self, other: &ShareLink) -> (same: bool) {
        address::same_endpoint(&self.provider, &other.provider) && payload::same_bytes(
            &self.hash,
            &other.hash,
        ) && self.format == other.format
    }
}

impl vstd::std_specs::cmp::PartialEqSpecImpl for ShareLink {
    open spec fn obeys_eq_spec() -> bool {
        true
    }

    open spec fn eq_spec(&self, other: &ShareLink) -> bool {
        self@ == other@
    }
}

impl Eq for ShareLink {

}

/// Share links that are read back from their texts have the same text only if they are
/// equal.
pub proof fn law_text_tells_share_links_apart(a: ShareView, b: ShareView)
    ensures
        blob_ticket_parts(share_text(a)) == Ok::<_, Seq<char>>((a.provider, a.hash, a.format))
            && blob_ticket_parts(share_text(b)) == Ok::<_, Seq<char>>(
            (b.provider, b.hash, b.format),
        ) ==> (share_text(a) == share_text(b) <==> a == b),
{
}

/// The text of a share link keeps the whole of an address that has at most one
/// relay, no scopes and no other transports.
pub proof fn law_shareable_is_kept_whole(endpoint: EndpointView, shared: EndpointView)
    requires
        is_shareable(endpoint),
        is_shared(endpoint, shared),
    ensures
        shared == endpoint,
{
    address::law_unscoped_is_carried_whole(endpoint);
    assert forall|path: PathView| shared.paths.contains(path) == endpoint.paths.contains(path) by {
        if endpoint.paths.contains(path) {
            if path is Relay {
                let kept = choose|kept: PathView| #[trigger]
                    shared.paths.contains(kept) && kept is Relay;
                assert(endpoint.paths.contains(kept));
                assert(kept == path);
            }
        }
    }
    assert(shared.paths =~= endpoint.paths);
}

/// A text is a share link if and only if it is parsed as a ticket, and it is then the link
/// with that ticket's provider, hash and format; else the error is the parser's words.
pub proof fn law_which_texts_are_share_links(value: Seq<char>, link: Result<ShareLink, Error>)
    requires
        is_parsed_share(value, link),
    ensures
        link is Ok <==> blob_ticket_parts(value) is Ok,
        link is Ok ==> blob_ticket_parts(value) == Ok::<_, Seq<char>>(
            (link->Ok_0@.provider, link->Ok_0@.hash, link->Ok_0@.format),
        ),
        link is Err ==> (link->Err_0 matches Error::P2p(said) && blob_ticket_parts(value) == Err::<
            (EndpointView, Seq<u8>, BlobFormat),
            _,
        >(said@)),
{
}

/// The text of a share link is that of its provider, hash and format, and no more.
pub proof fn law_text_of_a_share_link(link: ShareView)
    ensures
        share_text(link) == blob_ticket_text(link.provider, link.hash, link.format),
{
}

/// What the text of a share link keeps names the same provider, content and format. It has
/// every IP path of the provider, unscoped, one of its relays if it has any, and no other
/// path.
pub proof fn law_what_a_share_link_keeps(
    provider: EndpointView,
    hash: Seq<u8>,
    format: BlobFormat,
    parts: Result<(EndpointView, Seq<u8>, BlobFormat), Seq<char>>,
    path: PathView,
)
    requires
        is_kept(provider, hash, format, parts),
    ensures
        parts is Ok,
        parts->Ok_0.1 == hash,
        parts->Ok_0.2 == format,
        parts->Ok_0.0.id == provider.id,
        path is Ip4 || path is Ip6 ==> (parts->Ok_0.0.paths.contains(path) <==> carried(
            provider,
        ).paths.contains(path)),
        path is Relay && parts->Ok_0.0.paths.contains(path) ==> provider.paths.contains(path),
        path is Relay && provider.paths.contains(path) ==> exists|kept: PathView| #[trigger]
            parts->Ok_0.0.paths.contains(kept) && kept is Relay,
        path is Custom ==> !parts->Ok_0.0.paths.contains(path),
{
    let shared = parts->Ok_0.0;
    if (path is Ip4 || path is Ip6) && carried(provider).paths.contains(path) {
        let source = choose|source: PathView|
            provider.paths.contains(source) && unscoped(source) == path;
        assert(provider.paths.contains(source) && is_ip(source));
        assert(shared.paths.contains(unscoped(source)));
    }
}

/// A provider's address is shared whole if and only if it has at most one relay, no scopes
/// and no other transports, whatever IP paths it has.
pub proof fn law_which_addresses_are_shareable(endpoint: EndpointView)
    ensures
        is_shareable(endpoint) <==> {
            &&& is_unscoped(endpoint)
            &&& forall|a: Seq<char>, b: Seq<char>|
                #![trigger endpoint.paths.contains(PathView::Relay(a)), endpoint.paths.contains(PathView::Relay(b))]
                endpoint.paths.contains(PathView::Relay(a)) && endpoint.paths.contains(
                    PathView::Relay(b),
                ) ==> a == b
            &&& forall|transport: u64, data: Seq<u8>|
                !#[trigger] endpoint.paths.contains(PathView::Custom { transport, data })
        },
{
    let plain = {
        &&& is_unscoped(endpoint)
        &&& forall|a: Seq<char>, b: Seq<char>|
            #![trigger endpoint.paths.contains(PathView::Relay(a)), endpoint.paths.contains(PathView::Relay(b))]
            endpoint.paths.contains(PathView::Relay(a)) && endpoint.paths.contains(
                PathView::Relay(b),
            ) ==> a == b
        &&& forall|transport: u64, data: Seq<u8>|
            !#[trigger] endpoint.paths.contains(PathView::Custom { transport, data })
    };
    if plain {
        assert forall|a: PathView, b: PathView|
            #![trigger endpoint.paths.contains(a), endpoint.paths.contains(b)]
            endpoint.paths.contains(a) && endpoint.paths.contains(b) && a is Relay
                && b is Relay implies a == b by {
            assert(endpoint.paths.contains(PathView::Relay(a->Relay_0)));
            assert(endpoint.paths.contains(PathView::Relay(b->Relay_0)));
        }
        assert forall|path: PathView| #[trigger] endpoint.paths.contains(path) implies !(
        path is Custom) by {
            if let PathView::Custom { transport, data } = path {
                assert(endpoint.paths.contains(PathView::Custom { transport, data }));
            }
        }
    }
    if is_shareable(endpoint) {
        assert forall|a: Seq<char>, b: Seq<char>|
            #![trigger endpoint.paths.contains(PathView::Relay(a)), endpoint.paths.contains(PathView::Relay(b))]
            endpoint.paths.contains(PathView::Relay(a)) && endpoint.paths.contains(
                PathView::Relay(b),
            ) implies a == b by {
            assert(PathView::Relay(a) == PathView::Relay(b));
        }
    }
}

/// Share links are equal if and only if they name the same address, content and format.
pub proof fn law_equal_share_links_say_the_same(a: ShareLink, b: ShareLink)
    ensures
        vstd::std_specs::cmp::PartialEqSpec::eq_spec(&a, &b) <==> a@.provider == b@.provider
            && a@.hash == b@.hash && a@.format == b@.format,
        a@.hash.len() == 32,
{
}

} // verus!
