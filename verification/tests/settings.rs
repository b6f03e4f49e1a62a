use diom::cfg::settings::OpenTelemetryProtocol;
use diom::cluster::discovery::{discovery_start, initial_members, DiscoveryStart, MemberSource};

#[test]
fn protocol_names() {
    for s in ["grpc", "Grpc", "GRPC"] {
        assert!(matches!(OpenTelemetryProtocol::parse(s), Some(OpenTelemetryProtocol::Grpc)));
    }
    for s in ["http", "Http", "HTTP"] {
        assert!(matches!(OpenTelemetryProtocol::parse(s), Some(OpenTelemetryProtocol::Http)));
    }
    assert!(OpenTelemetryProtocol::parse("grpc|Grpc|GRPC").is_none());
    assert!(OpenTelemetryProtocol::parse("hTTp").is_none());
}

#[test]
fn discovery_begins_alone_without_seeds() {
    assert_eq!(discovery_start(0), DiscoveryStart::InitializeAlone);
    assert_eq!(discovery_start(2), DiscoveryStart::PollSeeds);
}

#[test]
fn founding_members_of_a_new_cluster() {
    assert_eq!(initial_members(false, 1, &vec![2, 3]), None);
    assert_eq!(initial_members(true, 1, &vec![]), Some(vec![(1, MemberSource::ThisNode)]));
    assert_eq!(
        initial_members(true, 1, &vec![2, 3, 2]),
        Some(vec![(1, MemberSource::ThisNode), (2, MemberSource::Seed(2)), (3, MemberSource::Seed(1))])
    );
}
