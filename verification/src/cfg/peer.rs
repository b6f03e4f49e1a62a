//! Addresses of cluster peers: a socket address, or a hostname and a port.
use vstd::prelude::*;
use vstd::string::*;

use crate::text::{
    chars_of, decimal, is_digit, lemma_decimal_digits, parse_unsigned, parse_unsigned_bounded, string_of, sub_chars,
    u64_to_decimal,
};

verus! {

/// Whether `addr::parse_domain_name` accepts the text as a domain name.
pub uninterp spec fn domain_name_valid(host: Seq<char>) -> bool;

/// `addr::parse_domain_name`, reduced to whether it accepts the text. Which names it
/// accepts is the crate's (its rules and the public suffix list) and is not restated.
#[verifier::external_body]
fn is_domain_name(host: &str) -> (b: bool)
    ensures
        b == domain_name_valid(host@),
{
    addr::parse_domain_name(host).is_ok()
}

/// The text that the standard library writes back for the socket address it reads from a
/// text (`SocketAddr::from_str`, then `Display`); `None` where the text is no socket
/// address.
pub uninterp spec fn socket_addr_text(s: Seq<char>) -> Option<Seq<char>>;

/// `core::net::SocketAddr::from_str` (the type that `std::net` re-exports), handed back as
/// the address's text. Which texts are socket addresses, and how they are written back, is
/// the standard library's and is named here, not restated.
#[verifier::external_body]
fn read_socket_addr(s: &str) -> (r: Option<String>)
    ensures
        match r {
            Some(t) => socket_addr_text(s@) == Some(t@),
            None => socket_addr_text(s@) is None,
        },
{
    s.parse::<core::net::SocketAddr>().ok().map(|a| a.to_string())
}

/// The address of a peer.
#[derive(Clone, Debug, PartialEq, Eq)]
pub enum PeerAddr {
    /// An IP address and port, held as the standard library writes it.
    SocketAddr(String),
    HostnameAndPort { hostname: String, port: u16 },
}

pub enum PeerAddrView {
    SocketAddr(Seq<char>),
    HostnameAndPort { hostname: Seq<char>, port: u16 },
}

impl View for PeerAddr {
    type V = PeerAddrView;

    open spec fn view(&self) -> PeerAddrView {
        match self {
            PeerAddr::SocketAddr(s) => PeerAddrView::SocketAddr(s@),
            PeerAddr::HostnameAndPort { hostname, port } => PeerAddrView::HostnameAndPort { hostname: hostname@, port: *port },
        }
    }
}

/// `host:port`.
pub open spec fn host_port_text(hostname: Seq<char>, port: u16) -> Seq<char> {
    hostname + ":"@ + decimal(port as nat)
}

/// How an address is written: a socket address as the standard library writes it, else
/// `host:port`.
pub open spec fn peer_text(p: PeerAddrView) -> Seq<char> {
    match p {
        PeerAddrView::SocketAddr(s) => s,
        PeerAddrView::HostnameAndPort { hostname, port } => host_port_text(hostname, port),
    }
}

/// Why a text is not a peer address.
#[derive(Clone, Copy, Debug, PartialEq, Eq, Structural)]
pub enum PeerAddrError {
    /// Neither a socket address nor `host:port`.
    Unparseable,
    /// The part before the last `:` is not a domain name.
    InvalidHostname,
    /// The part after the last `:` is not a port number.
    InvalidPort,
}

/// The position of the last `:`, or -1.
pub open spec fn last_colon(s: Seq<char>) -> int
    decreases s.len(),
{
    if s.len() == 0 {
        -1
    } else if s.last() == ':' {
        s.len() - 1
    } else {
        last_colon(s.drop_last())
    }
}

/// A peer address: the socket address where the text is one, else `host:port` split at
/// the last `:`, with a valid domain name and a port number.
pub open spec fn peer_addr_spec(s: Seq<char>, socket_addr: Option<Seq<char>>) -> Result<PeerAddrView, PeerAddrError> {
    match socket_addr {
        Some(t) => Ok(PeerAddrView::SocketAddr(t)),
        None => {
            let i = last_colon(s);
            if i < 0 {
                Err(PeerAddrError::Unparseable)
            } else if !domain_name_valid(s.subrange(0, i)) {
                Err(PeerAddrError::InvalidHostname)
            } else {
                match parse_unsigned(s.subrange(i + 1, s.len() as int), u16::MAX as nat) {
                    Some(p) => Ok(PeerAddrView::HostnameAndPort { hostname: s.subrange(0, i), port: p as u16 }),
                    None => Err(PeerAddrError::InvalidPort),
                }
            }
        },
    }
}

proof fn lemma_last_colon_bounds(s: Seq<char>)
    ensures
        -1 <= last_colon(s) < s.len(),
        last_colon(s) >= 0 ==> s[last_colon(s)] == ':',
    decreases s.len(),
{
    if s.len() > 0 && s.last() != ':' {
        lemma_last_colon_bounds(s.drop_last());
    }
}

proof fn lemma_last_colon_after(x: Seq<char>, y: Seq<char>)
    requires
        x.len() > 0,
        x.last() == ':',
        forall|i: int| 0 <= i < y.len() ==> y[i] != ':',
    ensures
        last_colon(x + y) == x.len() - 1,
    decreases y.len(),
{
    if y.len() == 0 {
        assert(x + y =~= x);
    } else {
        assert((x + y).drop_last() =~= x + y.drop_last());
        assert((x + y).last() == y[y.len() - 1]);
        lemma_last_colon_after(x, y.drop_last());
    }
}

/// Writing an address and reading it back gives the same address: `host:port` is read as
/// that host and port wherever the host is a valid domain name without a `:` and the text
/// does not read as a socket address.
pub proof fn lemma_peer_addr_round_trip(hostname: Seq<char>, port: u16)
    requires
        domain_name_valid(hostname),
        forall|i: int| 0 <= i < hostname.len() ==> hostname[i] != ':',
        socket_addr_text(host_port_text(hostname, port)) is None,
    ensures
        peer_addr_spec(
            peer_text(PeerAddrView::HostnameAndPort { hostname, port }),
            socket_addr_text(peer_text(PeerAddrView::HostnameAndPort { hostname, port })),
        ) == Ok::<PeerAddrView, PeerAddrError>(PeerAddrView::HostnameAndPort { hostname, port }),
{
    reveal_strlit(":");
    let d = decimal(port as nat);
    lemma_decimal_digits(port as nat);
    let x = hostname + ":"@;
    assert(x.last() == ':');
    assert forall|i: int| 0 <= i < d.len() implies d[i] != ':' by {
        assert(is_digit(d[i]));
    }
    lemma_last_colon_after(x, d);
    let s = hostname + ":"@ + d;
    assert(s =~= x + d);
    assert(s.subrange(0, hostname.len() as int) =~= hostname);
    assert(s.subrange(hostname.len() as int + 1, s.len() as int) =~= d);
}

/// A socket address written as the standard library writes it is read back as that
/// socket address.
pub proof fn lemma_socket_addr_round_trip(text: Seq<char>)
    requires
        socket_addr_text(text) == Some(text),
    ensures
        peer_addr_spec(peer_text(PeerAddrView::SocketAddr(text)), socket_addr_text(peer_text(PeerAddrView::SocketAddr(text))))
            == Ok::<PeerAddrView, PeerAddrError>(PeerAddrView::SocketAddr(text)),
{
}

fn find_last_colon(cs: &Vec<char>) -> (r: Option<usize>)
    ensures
        match r {
            Some(i) => last_colon(cs@) == i as int,
            None => last_colon(cs@) == -1,
        },
{
    let mut end: usize = cs.len();
    assert(cs@.subrange(0, end as int) =~= cs@);
    while end > 0
        invariant
            end <= cs@.len(),
            last_colon(cs@) == last_colon(cs@.subrange(0, end as int)),
        decreases end,
    {
        let ghost pre = cs@.subrange(0, end as int);
        if cs[end - 1] == ':' {
            return Some(end - 1);
        }
        assert(pre.drop_last() =~= cs@.subrange(0, end - 1));
        end = end - 1;
    }
    None
}

impl PeerAddr {
    /// Reads a peer address: a socket address where the standard library reads the text as
    /// one, else `host:port` split at the last `:`.
    pub fn from_str(s: &str) -> (r: Result<PeerAddr, PeerAddrError>)
        ensures
            match peer_addr_spec(s@, socket_addr_text(s@)) {
                Ok(v) => r matches Ok(p) && p@ == v,
                Err(e) => r == Err::<PeerAddr, PeerAddrError>(e),
            },
    {
        if let Some(t) = read_socket_addr(s) {
            return Ok(PeerAddr::SocketAddr(t));
        }
        let cs = chars_of(s);
        proof {
            lemma_last_colon_bounds(cs@);
        }
        let i = match find_last_colon(&cs) {
            Some(i) => i,
            None => return Err(PeerAddrError::Unparseable),
        };
        let host = string_of(sub_chars(&cs, 0, i).as_slice());
        if !is_domain_name(host.as_str()) {
            return Err(PeerAddrError::InvalidHostname);
        }
        let port_chars = sub_chars(&cs, i + 1, cs.len());
        match parse_unsigned_bounded(port_chars.as_slice(), 65535) {
            Some(p) => Ok(PeerAddr::HostnameAndPort { hostname: host, port: p as u16 }),
            None => Err(PeerAddrError::InvalidPort),
        }
    }

    /// The address as it is written: the socket address, or `host:port`.
    pub fn to_string(&self) -> (t: String)
        ensures
            t@ == peer_text(self@),
    {
        match self {
            PeerAddr::SocketAddr(s) => s.clone(),
            PeerAddr::HostnameAndPort { hostname, port } => host_port(hostname.as_str(), *port),
        }
    }
}

/// `host:port`.
pub fn host_port(hostname: &str, port: u16) -> (t: String)
    ensures
        t@ == host_port_text(hostname@, port),
{
    let digits = u64_to_decimal(port as u64);
    String::from_str(hostname).concat(":").concat(digits.as_str())
}

} // verus!
