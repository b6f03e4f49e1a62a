use diom::cfg::peer::{host_port, PeerAddr, PeerAddrError};
use diom::cluster::node::{Node, NodeUrlError};

#[test]
fn test_peer_addr_parsing() {
    let v4 = PeerAddr::from_str("127.0.0.2:8624").unwrap();
    assert_eq!(v4, PeerAddr::SocketAddr("127.0.0.2:8624".to_string()));
    let v6 = PeerAddr::from_str("[::1001:2%1234]:8624").unwrap();
    assert_eq!(v6, PeerAddr::SocketAddr("[::1001:2%1234]:8624".to_string()));
    assert_eq!(
        PeerAddr::from_str("foobar:8624").expect("should parse"),
        PeerAddr::HostnameAndPort { hostname: "foobar".to_owned(), port: 8624 }
    );
    PeerAddr::from_str("  illegal-hostname:1").expect_err("should fail to parse");
    PeerAddr::from_str("no-port-provided").expect_err("should fail to parse");
    PeerAddr::from_str("port-out-of-bounds:65537").expect_err("should fail to parse");
}

#[test]
fn peer_addr_errors() {
    assert_eq!(PeerAddr::from_str("no-port-provided"), Err(PeerAddrError::Unparseable));
    assert_eq!(PeerAddr::from_str("  illegal-hostname:1"), Err(PeerAddrError::InvalidHostname));
    assert_eq!(PeerAddr::from_str("port-out-of-bounds:65537"), Err(PeerAddrError::InvalidPort));
    assert_eq!(PeerAddr::from_str("host:"), Err(PeerAddrError::InvalidPort));
    assert_eq!(PeerAddr::from_str("foobar"), Err(PeerAddrError::Unparseable));
    assert_eq!(
        PeerAddr::from_str("10.0.0.1:80").unwrap(),
        PeerAddr::SocketAddr("10.0.0.1:80".to_string())
    );
    assert_eq!(
        PeerAddr::from_str("a.example.com:1:2"),
        Err(PeerAddrError::InvalidHostname)
    );
    assert_eq!(
        PeerAddr::from_str("node-1.example.com:+80"),
        Ok(PeerAddr::HostnameAndPort { hostname: "node-1.example.com".to_owned(), port: 80 })
    );
}

#[test]
fn peer_addr_text() {
    let p = PeerAddr::HostnameAndPort { hostname: "foo".to_owned(), port: 8052 };
    assert_eq!(p.to_string(), "foo:8052");
    assert_eq!(PeerAddr::SocketAddr("[::2]:8051".to_string()).to_string(), "[::2]:8051");
    assert_eq!(host_port("db", 0), "db:0");
}

#[test]
fn node_names_and_urls() {
    let n = Node::HostnameAndPort { hostname: "node-a".to_string(), port: 8624 };
    assert_eq!(n.names(), vec!["node-a:8624".to_string()]);
    assert_eq!(n.url_for("repl/raft/vote"), Ok("http://node-a:8624/repl/raft/vote".to_string()));
    let s = Node::SingleHomed("127.0.0.1:9000".to_string());
    assert_eq!(s.url_for("health"), Ok("http://127.0.0.1:9000/health".to_string()));
    assert_eq!(Node::NoAddress.names(), Vec::<String>::new());
    assert_eq!(Node::NoAddress.url_for("x"), Err(NodeUrlError::NoAddress));
    let bad = Node::HostnameAndPort { hostname: "bad host".to_string(), port: 1 };
    assert_eq!(bad.url_for("x"), Err(NodeUrlError::InvalidUrl));
}

#[test]
fn node_and_peer_addr_convert() {
    let p = PeerAddr::HostnameAndPort { hostname: "foo".to_owned(), port: 1 };
    let n = Node::from_peer_addr(p.clone());
    assert_eq!(n, Node::HostnameAndPort { hostname: "foo".to_owned(), port: 1 });
    assert_eq!(n.to_peer_addr().ok(), Some(p));
    assert!(Node::NoAddress.to_peer_addr().is_err());
}

#[test]
fn test_peer_addr_serde() {
    // An address is written as text and read back from it.
    let addrs = [
        PeerAddr::SocketAddr("127.0.0.2:8624".to_string()),
        PeerAddr::SocketAddr("[::2]:8051".to_string()),
        PeerAddr::HostnameAndPort { hostname: "foo".to_owned(), port: 8052 },
    ];
    for addr in addrs {
        let serialized = addr.to_string();
        assert_ne!(&serialized, "");
        let deserialized = PeerAddr::from_str(&serialized).expect("should deserialize");
        assert_eq!(deserialized, addr);
    }
}

#[test]
fn host_and_port_round_trip() {
    for host in ["foo", "node-1.example.com", "a.b"] {
        for port in [0u16, 1, 8052, 65535] {
            let p = PeerAddr::HostnameAndPort { hostname: host.to_owned(), port };
            assert_eq!(PeerAddr::from_str(&p.to_string()), Ok(p));
        }
    }
}

#[test]
fn peer_base_url() {
    let p = PeerAddr::HostnameAndPort { hostname: "node-a".to_owned(), port: 8624 };
    assert_eq!(p.as_base_url(), "http://node-a:8624/");
    assert_eq!(p.base_url(), Some("http://node-a:8624/".to_string()));
    let bad = PeerAddr::HostnameAndPort { hostname: "bad host".to_owned(), port: 1 };
    assert_eq!(bad.base_url(), None);
}
