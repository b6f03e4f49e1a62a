//! The address of a cluster node as the membership records it, and the URLs of its
//! endpoints.
use url::ParseError;
use url::Url;
use vstd::prelude::*;
use vstd::string::*;

use crate::cfg::peer::{host_port, host_port_text, peer_text, PeerAddr, PeerAddrView};

verus! {

#[verifier::external_type_specification]
#[verifier::external_body]
pub struct ExUrlParseError(ParseError);

/// The serialization of the URL that `url::Url::parse` makes of a text; `None` where it
/// refuses the text.
pub uninterp spec fn parsed_url(input: Seq<char>) -> Option<Seq<char>>;

/// `url::Url::parse`, handing back the URL's serialization (`Url::as_str`). How URLs are
/// parsed and normalized is the crate's (the WHATWG URL standard) and is not restated.
#[verifier::external_body]
fn parse_url(input: &str) -> (r: Result<String, ParseError>)
    ensures
        match r {
            Ok(u) => parsed_url(input@) == Some(u@),
            Err(_) => parsed_url(input@) is None,
        },
{
    Url::parse(input).map(|u| u.as_str().to_string())
}

/// Where a node can be reached.
#[derive(Clone, Debug, PartialEq, Eq)]
pub enum Node {
    NoAddress,
    /// An IP address and port, held as the standard library writes it.
    SingleHomed(String),
    HostnameAndPort { hostname: String, port: u16 },
}

pub enum NodeView {
    NoAddress,
    SingleHomed(Seq<char>),
    HostnameAndPort { hostname: Seq<char>, port: u16 },
}

impl View for Node {
    type V = NodeView;

    open spec fn view(&self) -> NodeView {
        match self {
            Node::NoAddress => NodeView::NoAddress,
            Node::SingleHomed(s) => NodeView::SingleHomed(s@),
            Node::HostnameAndPort { hostname, port } => NodeView::HostnameAndPort { hostname: hostname@, port: *port },
        }
    }
}

/// The address a node is reached at, as written; none for a node without an address.
pub open spec fn node_base(n: NodeView) -> Option<Seq<char>> {
    match n {
        NodeView::NoAddress => None,
        NodeView::SingleHomed(s) => Some(s),
        NodeView::HostnameAndPort { hostname, port } => Some(host_port_text(hostname, port)),
    }
}

/// Why no URL could be made for a node.
#[derive(Clone, Copy, Debug, PartialEq, Eq, Structural)]
pub enum NodeUrlError {
    /// The node has no address.
    NoAddress,
    /// The address and path do not make a URL.
    InvalidUrl,
}

/// Why a node has no peer address.
#[derive(Clone, Copy, Debug, PartialEq, Eq, Structural)]
pub enum NoPeerAddress {
    Unaddressed,
}

impl Node {
    /// The node reached at a peer address.
    pub fn from_peer_addr(p: PeerAddr) -> (n: Node)
        ensures
            n@ == (match p@ {
                PeerAddrView::SocketAddr(s) => NodeView::SingleHomed(s),
                PeerAddrView::HostnameAndPort { hostname, port } => NodeView::HostnameAndPort { hostname, port },
            }),
    {
        match p {
            PeerAddr::SocketAddr(s) => Node::SingleHomed(s),
            PeerAddr::HostnameAndPort { hostname, port } => Node::HostnameAndPort { hostname, port },
        }
    }

    /// The node's peer address; a node without an address has none.
    pub fn to_peer_addr(self) -> (r: Result<PeerAddr, NoPeerAddress>)
        ensures
            match self@ {
                NodeView::NoAddress => r == Err::<PeerAddr, NoPeerAddress>(NoPeerAddress::Unaddressed),
                NodeView::SingleHomed(s) => r matches Ok(p) && p@ == PeerAddrView::SocketAddr(s),
                NodeView::HostnameAndPort { hostname, port } => r matches Ok(p) && p@
                    == (PeerAddrView::HostnameAndPort { hostname, port }),
            },
    {
        match self {
            Node::NoAddress => Err(NoPeerAddress::Unaddressed),
            Node::SingleHomed(s) => Ok(PeerAddr::SocketAddr(s)),
            Node::HostnameAndPort { hostname, port } => Ok(PeerAddr::HostnameAndPort { hostname, port }),
        }
    }

    /// The names the node answers to: its address, if it has one.
    pub fn names(&self) -> (v: Vec<String>)
        ensures
            v@.map_values(|s: String| s@) == (match node_base(self@) {
                Some(b) => seq![b],
                None => Seq::empty(),
            }),
    {
        let mut v: Vec<String> = Vec::new();
        match self {
            Node::NoAddress => {},
            Node::SingleHomed(s) => v.push(s.clone()),
            Node::HostnameAndPort { hostname, port } => v.push(host_port(hostname.as_str(), *port)),
        }
        assert(v@.map_values(|s: String| s@) =~= (match node_base(self@) {
            Some(b) => seq![b],
            None => Seq::<Seq<char>>::empty(),
        }));
        v
    }

    /// The URL of one of the node's endpoints: `http://<address>/<path>`, as the URL parser
    /// writes it.
    pub fn url_for(&self, path: &str) -> (r: Result<String, NodeUrlError>)
        ensures
            match node_base(self@) {
                None => r == Err::<String, NodeUrlError>(NodeUrlError::NoAddress),
                Some(b) => match parsed_url("http://"@ + b + "/"@ + path@) {
                    Some(u) => r matches Ok(got) && got@ == u,
                    None => r == Err::<String, NodeUrlError>(NodeUrlError::InvalidUrl),
                },
            },
    {
        let base = match self {
            Node::NoAddress => return Err(NodeUrlError::NoAddress),
            Node::SingleHomed(s) => s.clone(),
            Node::HostnameAndPort { hostname, port } => host_port(hostname.as_str(), *port),
        };
        let text = String::from_str("http://").concat(base.as_str()).concat("/").concat(path);
        match parse_url(text.as_str()) {
            Ok(u) => Ok(u),
            Err(_) => Err(NodeUrlError::InvalidUrl),
        }
    }
}

impl PeerAddr {
    /// The base URL of the peer, `http://<address>`, as the URL parser writes it. The
    /// address must make a URL (addresses read from configuration were checked when read).
    pub fn as_base_url(&self) -> (u: String)
        requires
            parsed_url("http://"@ + peer_text(self@)) is Some,
        ensures
            parsed_url("http://"@ + peer_text(self@)) == Some(u@),
    {
        let text = String::from_str("http://").concat(self.to_string().as_str());
        match parse_url(text.as_str()) {
            Ok(u) => u,
            Err(_) => String::new(),
        }
    }

    /// The base URL of the peer where its address makes a URL; `None` otherwise.
    pub fn base_url(&self) -> (r: Option<String>)
        ensures
            match parsed_url("http://"@ + peer_text(self@)) {
                Some(u) => r matches Some(got) && got@ == u,
                None => r is None,
            },
    {
        let text = String::from_str("http://").concat(self.to_string().as_str());
        match parse_url(text.as_str()) {
            Ok(_) => Some(self.as_base_url()),
            Err(_) => None,
        }
    }
}

} // verus!
