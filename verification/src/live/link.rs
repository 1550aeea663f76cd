//! Capability links for watching a live stream.

use std::str::FromStr;

use iroh::EndpointAddr;
use vstd::prelude::*;
use vstd::utf8::encode_utf8;

use crate::address;
use crate::address::{carried, endpoint_view, is_unscoped, relays_read_back, EndpointView};
use crate::error::Error;
use crate::hexadecimal;
use crate::hexadecimal::{hex_bytes, hex_lower, is_hex};
use crate::payload;
use crate::text;
use crate::text::{has_prefix, is_blank, trimmed};

verus! {

/// What a live link begins with.
pub const LINK_PREFIX: &'static str = "peersey-live:";

/// Portable capability link for watching a live stream.
///
/// Anyone holding this link can watch the stream while its publisher is
/// online. Treat it as a secret when the stream is private.
pub struct LiveLink(LiveTicket);

/// What a link carries: whom to ask, and the token that opens the stream.
struct LiveTicket {
    endpoint: EndpointAddr,
    token: [u8; 32],
}

/// What a live link says.
pub struct LinkView {
    /// The publisher's address.
    pub endpoint: EndpointView,
    /// The stream's token.
    pub token: Seq<u8>,
}

impl View for LiveLink {
    type V = LinkView;

    closed spec fn view(&self) -> LinkView {
        LinkView { endpoint: endpoint_view(self.0.endpoint), token: self.0.token@ }
    }
}

/// The bytes that `postcard::to_stdvec` gives for an endpoint address and a token.
pub uninterp spec fn ticket_bytes(endpoint: EndpointView, token: Seq<u8>) -> Seq<u8>;

/// The endpoint address and the token that `postcard::from_bytes` finds in bytes.
pub uninterp spec fn ticket_parts(bytes: Seq<u8>) -> Option<(EndpointView, Seq<u8>)>;

/// Calls `postcard::to_stdvec` on an endpoint address and a token. The bytes read
/// back as the same token and the same address without scopes: the encoding of an
/// IPv6 socket has its address and port only. The encoding of a relay URL is its
/// text, so of an address with a URL that is not read back from its text nothing is
/// said.
#[verifier::external_body]
fn write_ticket(endpoint: &EndpointAddr, token: &[u8; 32]) -> (bytes: Vec<u8>)
    ensures
        bytes@ == ticket_bytes(endpoint_view(*endpoint), token@),
        relays_read_back(endpoint_view(*endpoint)) ==> ticket_parts(bytes@) == Some(
            (carried(endpoint_view(*endpoint)), token@),
        ),
{
    postcard::to_stdvec(&(endpoint, token)).expect("addresses and tokens have an encoding")
}

/// Calls `postcard::from_bytes` for an endpoint address and a token. An IPv6
/// socket is read without flow information and without a scope.
#[verifier::external_body]
fn read_ticket(bytes: &[u8]) -> (ticket: Option<(EndpointAddr, [u8; 32])>)
    ensures
        match ticket {
            Some((endpoint, token)) => ticket_parts(bytes@) == Some(
                (endpoint_view(endpoint), token@),
            ) && is_unscoped(endpoint_view(endpoint)),
            None => ticket_parts(bytes@) is None,
        },
{
    postcard::from_bytes(bytes).ok()
}

/// The text of the link that carries an encoded ticket.
pub open spec fn ticket_text(ticket: Seq<u8>) -> Seq<char> {
    LINK_PREFIX@ + hex_lower(ticket)
}

/// The text of a link.
pub open spec fn link_text(link: LinkView) -> Seq<char> {
    ticket_text(ticket_bytes(link.endpoint, link.token))
}

/// What follows the prefix in a text that is trimmed.
pub open spec fn after_prefix(text: Seq<char>) -> Seq<char> {
    trimmed(text).skip(LINK_PREFIX@.len() as int)
}

/// Whether a text, white space around it aside, is the prefix and a hexadecimal
/// ticket.
pub open spec fn has_ticket(text: Seq<char>) -> bool {
    has_prefix(trimmed(text), LINK_PREFIX@) && is_hex(encode_utf8(after_prefix(text)))
}

/// The encoded ticket in the text of a link.
pub open spec fn ticket_in(text: Seq<char>) -> Seq<u8> {
    hex_bytes(encode_utf8(after_prefix(text)))
}

/// The link that a text is.
pub open spec fn link_of(text: Seq<char>) -> Option<LinkView> {
    if has_ticket(text) {
        match ticket_parts(ticket_in(text)) {
            Some((endpoint, token)) => Some(LinkView { endpoint, token }),
            None => None,
        }
    } else {
        None
    }
}

/// Text of the link that carries an encoded ticket.
pub fn encode_ticket(ticket: &[u8]) -> (value: String)
    ensures
        value@ == ticket_text(ticket@),
        value@ == "peersey-live:"@ + hex_lower(ticket@),
        has_ticket(value@),
        ticket_in(value@) == ticket@,
{
    let mut value: String = LINK_PREFIX.to_owned();
    value.append(hexadecimal::encode(ticket).as_str());
    proof {
        law_ticket_text_round_trip(ticket@);
    }
    value
}

/// Encoded ticket in the text of a link; white space around the text is ignored.
pub fn decode_ticket(value: &str) -> (ticket: Result<Vec<u8>, Error>)
    ensures
        match ticket {
            Ok(ticket) => has_ticket(value@) && ticket@ == ticket_in(value@),
            Err(error) => !has_ticket(value@) && error is InvalidLiveLink,
        },
{
    let inner: &str = value.trim();
    let encoded: &str = match text::strip_prefix(inner, LINK_PREFIX) {
        Some(encoded) => encoded,
        None => {
            return Err(Error::InvalidLiveLink);
        },
    };
    proof {
        assert(inner@.take(LINK_PREFIX@.len() as int) =~= LINK_PREFIX@);
        assert(after_prefix(value@) =~= encoded@);
    }
    match hexadecimal::decode(encoded.as_bytes()) {
        Ok(bytes) => Ok(bytes),
        Err(_) => Err(Error::InvalidLiveLink),
    }
}

impl LiveLink {
    /// The link to a stream: the publisher's address and the stream's token.
    pub fn new(endpoint: EndpointAddr, token: [u8; 32]) -> (link: LiveLink)
        ensures
            link@ == (LinkView { endpoint: endpoint_view(endpoint), token: token@ }),
    {
        LiveLink(LiveTicket { endpoint, token })
    }

    /// The link for a ticket that was read, if one was.
    pub fn from_ticket(ticket: Option<(EndpointAddr, [u8; 32])>) -> (link: Result<LiveLink, Error>)
        ensures
            match ticket {
                Some((endpoint, token)) => link matches Ok(link) && link@ == (LinkView {
                    endpoint: endpoint_view(endpoint),
                    token: token@,
                }),
                None => link matches Err(error) && error is InvalidLiveLink,
            },
    {
        match ticket {
            Some((endpoint, token)) => Ok(LiveLink::new(endpoint, token)),
            None => Err(Error::InvalidLiveLink),
        }
    }

    /// Whom to ask for the stream.
    pub fn endpoint(&self) -> (endpoint: &EndpointAddr)
        ensures
            endpoint_view(*endpoint) == self@.endpoint,
    {
        &self.0.endpoint
    }

    /// The token that opens the stream.
    pub fn token(&self) -> (token: [u8; 32])
        ensures
            token@ == self@.token,
    {
        self.0.token
    }

    /// The link as text. Where the publisher's relay URLs are read back from their
    /// texts, reading the text gives the link back, but for the scopes of the
    /// publisher's IPv6 paths.
    pub fn to_string(&self) -> (value: String)
        ensures
            value@ == link_text(self@),
            value@ == "peersey-live:"@ + hex_lower(ticket_bytes(self@.endpoint, self@.token)),
            relays_read_back(self@.endpoint) ==> link_of(value@) == Some(
                LinkView { endpoint: carried(self@.endpoint), token: self@.token },
            ),
            relays_read_back(self@.endpoint) && is_unscoped(self@.endpoint) ==> link_of(value@)
                == Some(self@),
    {
        proof {
            address::law_unscoped_is_carried_whole(self@.endpoint);
        }
        encode_ticket(write_ticket(&self.0.endpoint, &self.0.token).as_slice())
    }

    /// The link that a text is; white space around the text is ignored.
    pub fn from_str(value: &str) -> (link: Result<LiveLink, Error>)
        ensures
            match link {
                Ok(link) => link_of(value@) == Some(link@) && is_unscoped(link@.endpoint),
                Err(error) => link_of(value@) is None && error is InvalidLiveLink,
            },
            link is Ok <==> has_ticket(value@) && ticket_parts(ticket_in(value@)) is Some,
            link is Ok ==> ticket_parts(ticket_in(value@)) == Some(
                (link->Ok_0@.endpoint, link->Ok_0@.token),
            ),
    {
        match decode_ticket(value) {
            Ok(bytes) => LiveLink::from_ticket(read_ticket(bytes.as_slice())),
            Err(error) => Err(error),
        }
    }

    /// How the link shows in logs: without its secret.
    pub fn debug_string(&self) -> (shown: String)
        ensures
            shown@ == "LiveLink([REDACTED])"@,
    {
        "LiveLink([REDACTED])".to_owned()
    }
}

impl FromStr for LiveLink {
    type Err = Error;

    fn from_str(value: &str) -> (link: Result<LiveLink, Error>)
        ensures
            match link {
                Ok(link) => link_of(value@) == Some(link@) && is_unscoped(link@.endpoint),
                Err(error) => link_of(value@) is None && error is InvalidLiveLink,
            },
            link is Ok <==> has_ticket(value@) && ticket_parts(ticket_in(value@)) is Some,
            link is Ok ==> ticket_parts(ticket_in(value@)) == Some(
                (link->Ok_0@.endpoint, link->Ok_0@.token),
            ),
    {
        LiveLink::from_str(value)
    }
}

impl Clone for LiveLink {
    fn clone(&self) -> (copy: LiveLink)
        ensures
            copy@ == self@,
    {
        LiveLink(LiveTicket { endpoint: self.0.endpoint.clone(), token: self.0.token })
    }
}

impl PartialEq for LiveLink {
    fn eq(&self, other: &LiveLink) -> (same: bool) {
        address::same_endpoint(&self.0.endpoint, &other.0.endpoint) && payload::same_bytes(
            &self.0.token,
            &other.0.token,
        )
    }
}

impl vstd::std_specs::cmp::PartialEqSpecImpl for LiveLink {
    open spec fn obeys_eq_spec() -> bool {
        true
    }

    open spec fn eq_spec(&self, other: &LiveLink) -> bool {
        self@ == other@
    }
}

impl Eq for LiveLink {

}

/// The text of a link holds the ticket that it was made for.
pub proof fn law_ticket_text_round_trip(ticket: Seq<u8>)
    ensures
        has_ticket(ticket_text(ticket)),
        ticket_in(ticket_text(ticket)) == ticket,
{
    let value = ticket_text(ticket);
    let digits = hex_lower(ticket);
    reveal_strlit("peersey-live:");
    hexadecimal::lemma_hex_round_trip(ticket);
    assert(value.first() == 'p');
    assert(!text::is_white_space(value.last())) by {
        if ticket.len() > 0 {
            assert(value.last() == digits.last());
        } else {
            assert(value.last() == ':');
        }
    }
    text::lemma_trimmed_fixed(value);
    assert(value.take(LINK_PREFIX@.len() as int) =~= LINK_PREFIX@);
    assert(after_prefix(value) =~= digits);
}

/// Links that are read back from their texts have the same text only if they are equal.
pub proof fn law_text_tells_links_apart(a: LinkView, b: LinkView)
    ensures
        link_of(link_text(a)) == Some(a) && link_of(link_text(b)) == Some(b) ==> (link_text(a)
            == link_text(b) <==> a == b),
{
}

/// White space around the text of a link is ignored.
pub proof fn law_link_ignores_padding(before: Seq<char>, value: Seq<char>, after: Seq<char>)
    requires
        is_blank(before),
        is_blank(after),
    ensures
        link_of(before + value + after) == link_of(value),
{
    text::lemma_trimmed_ignores_padding(before, value, after);
}

/// Which texts hold a ticket: those that are, white space around them aside, the prefix and
/// an even number of hexadecimal digits in either case, however many. The ticket is what the
/// digits stand for.
pub proof fn law_which_texts_hold_a_ticket(value: Seq<char>)
    ensures
        has_ticket(value) <==> {
            &&& trimmed(value).len() >= 13
            &&& trimmed(value).take(13) == "peersey-live:"@
            &&& (trimmed(value).len() - 13) % 2 == 0
            &&& forall|i: int|
                13 <= i < trimmed(value).len() ==> {
                    ||| '0' <= #[trigger] trimmed(value)[i] <= '9'
                    ||| 'a' <= trimmed(value)[i] <= 'f'
                    ||| 'A' <= trimmed(value)[i] <= 'F'
                }
        },
        has_ticket(value) ==> ticket_in(value) == hex_bytes(encode_utf8(trimmed(value).skip(13))),
{
    reveal_strlit("peersey-live:");
    let inner = trimmed(value);
    if inner.len() >= 13 {
        let digits = inner.skip(13);
        assert(after_prefix(value) =~= digits);
        hexadecimal::law_which_texts_are_hex(digits);
        assert forall|i: int| 13 <= i < inner.len() implies #[trigger] inner[i] == digits[i - 13] by {
        }
        assert forall|i: int| 0 <= i < digits.len() implies #[trigger] digits[i] == inner[i + 13] by {
        }
    }
}

/// A text is a link if and only if it holds a ticket that can be read, and it is then the
/// link of that ticket.
pub proof fn law_which_texts_are_links(value: Seq<char>)
    ensures
        link_of(value) is Some <==> has_ticket(value) && ticket_parts(ticket_in(value)) is Some,
        link_of(value) matches Some(link) ==> ticket_parts(ticket_in(value)) == Some(
            (link.endpoint, link.token),
        ),
{
}

/// A link is the prefix and the lower-case digits of its ticket, however long.
pub proof fn law_text_of_a_link(link: LinkView, ticket: Seq<u8>)
    ensures
        ticket_text(ticket) == "peersey-live:"@ + hex_lower(ticket),
        link_text(link) == "peersey-live:"@ + hex_lower(ticket_bytes(link.endpoint, link.token)),
{
}

/// Links are equal if and only if they name the same address and token.
pub proof fn law_equal_links_say_the_same(a: LiveLink, b: LiveLink)
    ensures
        vstd::std_specs::cmp::PartialEqSpec::eq_spec(&a, &b) <==> a@.endpoint == b@.endpoint
            && a@.token == b@.token,
        a@.token.len() == 32,
{
}

} // verus!
