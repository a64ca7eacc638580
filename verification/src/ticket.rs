//! Tickets: the text that one user hands to another so that they can call.
use iroh_base::ticket::Error as TicketError;
use iroh_base::ticket::NodeTicket;
use iroh_base::{NodeAddr, RelayUrl};
use std::ops::Deref;
use std::str::FromStr;
use vstd::prelude::*;
use vstd::string::*;

use crate::error::{ErrorView, VoiceError};
use crate::text::{hex, hex_text, opt_text, white_space};

verus! {

/// The address of a node: its identity and the ways to reach it.
#[verifier::external_type_specification]
#[verifier::external_body]
pub struct ExNodeAddr(iroh_base::NodeAddr);

/// The reason a text is no ticket.
#[verifier::external_type_specification]
#[verifier::external_body]
pub struct ExTicketError(iroh_base::ticket::Error);

/// What an address says of a node.
pub struct Reachability {
    /// The public key that identifies the node.
    pub node_id: Seq<u8>,
    /// The relay server, if the node has one.
    pub relay_url: Option<Seq<char>>,
    /// The addresses the node may be reached at, as IP address and port.
    pub direct_addresses: Set<(Seq<char>, u16)>,
}

/// What an address says of a node, in plain values.
#[derive(Debug, PartialEq, Eq)]
pub struct NodeDetails {
    pub node_id: Vec<u8>,
    pub relay_url: Option<String>,
    pub direct_addresses: Vec<(String, u16)>,
}

impl View for NodeDetails {
    type V = Reachability;

    open spec fn view(&self) -> Reachability {
        Reachability {
            node_id: self.node_id@,
            relay_url: opt_text(self.relay_url),
            direct_addresses: self.direct_addresses@.map_values(
                |address: (String, u16)| (address.0@, address.1),
            ).to_set(),
        }
    }
}

/// What an address holds.
pub uninterp spec fn reachability(addr: NodeAddr) -> Reachability;

/// What `NodeTicket::from_str` makes of a text.
pub uninterp spec fn parsed_ticket(text: Seq<char>) -> Result<NodeAddr, TicketError>;

/// The text that a ticket error is shown with.
pub uninterp spec fn ticket_error_text(error: TicketError) -> Seq<char>;

/// The text of the ticket for an address.
pub uninterp spec fn ticket_text(addr: NodeAddr) -> Seq<char>;

/// The fields of `NodeAddr`: the bytes of the key, and the texts of the relay server and of the IP
/// addresses with their ports.
#[verifier::external_body]
fn details(addr: &NodeAddr) -> (r: NodeDetails)
    ensures
        r@ == reachability(*addr),
{
    NodeDetails {
        node_id: addr.node_id.as_bytes().to_vec(),
        relay_url: addr.relay_url.as_ref().map(|url| url.to_string()),
        direct_addresses: addr.direct_addresses().map(|a| (a.ip().to_string(), a.port())).collect(),
    }
}

/// `NodeTicket::from_str`: reads a ticket, which holds the address of a node.
#[verifier::external_body]
fn read_ticket(text: &str) -> (r: Result<NodeAddr, TicketError>)
    ensures
        r == parsed_ticket(text@),
{
    match NodeTicket::from_str(text) {
        Ok(ticket) => Ok(ticket.node_addr().clone()),
        Err(error) => Err(error),
    }
}

/// `ToString` of `iroh_base::ticket::Error`: the text the error is shown with.
#[verifier::external_body]
fn show_ticket_error(error: &TicketError) -> (r: String)
    ensures
        r@ == ticket_error_text(*error),
{
    error.to_string()
}

/// The text of the URL that a text is read as, if it is read as one.
pub uninterp spec fn url_text(text: Seq<char>) -> Option<Seq<char>>;

/// `Url::parse`, of the type of URL that a `RelayUrl` wraps: the URL that a text is read as, by its
/// text, which `Url::as_str` gives.
#[verifier::external_body]
fn read_url(text: &str) -> (r: Option<String>)
    ensures
        opt_text(r) == url_text(text@),
{
    match <<RelayUrl as Deref>::Target>::parse(text) {
        Ok(url) => Some(url.as_str().to_string()),
        Err(_) => None,
    }
}

/// What is read back of what an address says: a relay server is read back as the URL that its text
/// is read as, and nothing is read back where it is not read as one; all else is read back as it
/// is.
pub open spec fn read_back(said: Reachability) -> Option<Reachability> {
    match said.relay_url {
        Some(text) => match url_text(text) {
            Some(read) => Some(Reachability { relay_url: Some(read), ..said }),
            None => None,
        },
        None => Some(said),
    }
}

/// The relay server is read back as it is, if there is one. A URL that was put together from parts
/// may have a text that is read as another URL, or as none.
pub open spec fn relay_reads_back(said: Reachability) -> bool {
    said.relay_url matches Some(text) ==> url_text(text) == Some(text)
}

/// `ToString` of `NodeTicket`: the ticket for an address. It can be read exactly where the text of
/// the relay server, if there is one, is read as a URL, and then it tells the same node, the relay
/// server that its text is read as, and the same IP addresses and ports; scope and flow of an IPv6
/// address are not part of a ticket. A ticket consists of lower case ASCII letters and digits, of
/// which there are some.
#[verifier::external_body]
fn write_ticket(addr: NodeAddr) -> (r: String)
    ensures
        r@ == ticket_text(addr),
        parsed_ticket(r@) is Ok <==> read_back(reachability(addr)) is Some,
        parsed_ticket(r@) is Ok ==> Some(reachability(parsed_ticket(r@)->Ok_0)) == read_back(
            reachability(addr),
        ),
        r@.len() > 0,
        forall|i: int|
            0 <= i < r@.len() ==> 'a' <= #[trigger] r@[i] <= 'z' || '0' <= r@[i] <= '9',
{
    NodeTicket::from(addr).to_string()
}

/// What reading a ticket comes to: the address, or the text of the error.
pub open spec fn ticket_outcome(text: Seq<char>) -> Result<NodeAddr, Seq<char>> {
    match parsed_ticket(text) {
        Ok(addr) => Ok(addr),
        Err(error) => Err(ticket_error_text(error)),
    }
}

/// The text is the ticket for an address: what can be read back of the address is read from it, and
/// there is no white space in it.
pub open spec fn made_for(text: Seq<char>, addr: NodeAddr) -> bool {
    &&& text == ticket_text(addr)
    &&& ticket_outcome(text) is Ok <==> read_back(reachability(addr)) is Some
    &&& ticket_outcome(text) is Ok ==> Some(reachability(ticket_outcome(text)->Ok_0)) == read_back(
        reachability(addr),
    )
    &&& text.len() > 0
    &&& forall|i: int| 0 <= i < text.len() ==> !white_space(#[trigger] text[i])
}

/// The text is a ticket that leads to the node: it can be read, it tells the ways to reach the
/// node, and there is no white space in it.
pub open spec fn leads_to(text: Seq<char>, addr: NodeAddr) -> bool {
    &&& ticket_outcome(text) is Ok
    &&& reachability(ticket_outcome(text)->Ok_0) == reachability(addr)
    &&& text.len() > 0
    &&& forall|i: int| 0 <= i < text.len() ==> !white_space(#[trigger] text[i])
}

/// Makes the ticket for the address of this node, which is absent where the node has none.
pub fn create_ticket(node_addr: Option<NodeAddr>) -> (r: Result<String, VoiceError>)
    ensures
        match node_addr {
            Some(addr) => {
                &&& r is Ok
                &&& made_for(r->Ok_0@, addr)
                &&& relay_reads_back(reachability(addr)) ==> leads_to(r->Ok_0@, addr)
            },
            None => r matches Err(error) && error@ == ErrorView::Other(
                "Failed to build node address"@,
            ),
        },
{
    match node_addr {
        Some(addr) => Ok(write_ticket(addr)),
        None => Err(VoiceError::Other("Failed to build node address".to_owned())),
    }
}

/// Whether the ticket for an address leads back to it: whether its relay server, if it has one, is
/// read back as it is.
pub fn ticket_leads_back(addr: &NodeAddr) -> (r: bool)
    ensures
        r == relay_reads_back(reachability(*addr)),
{
    let known: NodeDetails = details(addr);
    match known.relay_url {
        Some(text) => match read_url(text.as_str()) {
            Some(read) => read == text,
            None => false,
        },
        None => true,
    }
}

/// What an address says of a node.
pub fn node_details(addr: &NodeAddr) -> (r: NodeDetails)
    ensures
        r@ == reachability(*addr),
{
    details(addr)
}

/// The identity that an address names, as it is shown.
pub fn addressed_node_id(addr: &NodeAddr) -> (r: String)
    ensures
        r@ == hex(reachability(*addr).node_id),
{
    let known: NodeDetails = details(addr);
    hex_text(&known.node_id)
}

/// Reads the address out of a ticket.
pub fn parse_ticket(input: &str) -> (r: Result<NodeAddr, VoiceError>)
    ensures
        match ticket_outcome(input@) {
            Ok(addr) => r == Ok::<NodeAddr, VoiceError>(addr),
            Err(text) => r matches Err(error) && error@ == ErrorView::Ticket(text),
        },
{
    match read_ticket(input) {
        Ok(addr) => Ok(addr),
        Err(error) => Err(VoiceError::Ticket(show_ticket_error(&error))),
    }
}

/// A ticket leads back to the address it was made for exactly where the relay server of the
/// address, if it has one, is read back as it is.
pub proof fn ticket_leads_back_to_its_address(text: Seq<char>, addr: NodeAddr)
    requires
        made_for(text, addr),
    ensures
        leads_to(text, addr) <==> relay_reads_back(reachability(addr)),
{
}

/// A ticket that leads to a node can be read, and what is read reaches that node.
pub proof fn leading_ticket_can_be_read(text: Seq<char>, addr: NodeAddr)
    requires
        leads_to(text, addr),
    ensures
        parsed_ticket(text) is Ok,
        reachability(parsed_ticket(text)->Ok_0).node_id == reachability(addr).node_id,
        reachability(parsed_ticket(text)->Ok_0).relay_url == reachability(addr).relay_url,
        reachability(parsed_ticket(text)->Ok_0).direct_addresses == reachability(
            addr,
        ).direct_addresses,
{
}

/// What reading a ticket comes to is what was read, or the words of the error.
pub proof fn reading_comes_to_what_was_read(text: Seq<char>)
    ensures
        parsed_ticket(text) matches Ok(addr) ==> ticket_outcome(text) == Ok::<NodeAddr, Seq<char>>(
            addr,
        ),
        parsed_ticket(text) matches Err(error) ==> ticket_outcome(text) == Err::<
            NodeAddr,
            Seq<char>,
        >(ticket_error_text(error)),
{
}

/// The ticket of a node without a relay server leads to it; one with a relay server leads to it
/// exactly where the text of the server is read as itself.
pub proof fn ticket_leads_where_the_relay_is_read(text: Seq<char>, addr: NodeAddr)
    requires
        made_for(text, addr),
    ensures
        text == ticket_text(addr),
        reachability(addr).relay_url is None ==> leads_to(text, addr),
        reachability(addr).relay_url matches Some(relay) ==> (leads_to(text, addr) <==> url_text(
            relay,
        ) == Some(relay)),
        parsed_ticket(text) is Ok ==> reachability(parsed_ticket(text)->Ok_0).node_id
            == reachability(addr).node_id && reachability(
            parsed_ticket(text)->Ok_0,
        ).direct_addresses == reachability(addr).direct_addresses,
{
}

}
