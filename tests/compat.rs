use cfd_maker::compat::{
    ConnectionCloseReason, ConnectionStatus, MakerCompatibility, PeerCloseReason, PeerConnectionStatus,
    PeerInfo, Version,
};

fn failed(actual: Version, proposed: Version) -> PeerConnectionStatus {
    PeerConnectionStatus::Offline {
        reason: Some(PeerCloseReason::VersionNegotiationFailed { actual_version: actual, proposed_version: proposed }),
    }
}

#[test]
fn online_status() {
    let s = ConnectionStatus::from_peer_status(&PeerConnectionStatus::Online);
    assert_eq!(s, ConnectionStatus { online: true, connection_close_reason: None });
    let s = ConnectionStatus::from_peer_status(&PeerConnectionStatus::Offline { reason: None });
    assert_eq!(s, ConnectionStatus { online: false, connection_close_reason: None });
}

#[test]
fn outdated_side() {
    let older = ConnectionStatus::from_peer_status(&failed(Version::new(0, 4, 9), Version::new(0, 5, 0)));
    assert_eq!(older.connection_close_reason, Some(ConnectionCloseReason::MakerVersionOutdated));
    let newer = ConnectionStatus::from_peer_status(&failed(Version::new(1, 0, 0), Version::new(0, 9, 9)));
    assert_eq!(newer.connection_close_reason, Some(ConnectionCloseReason::TakerVersionOutdated));
    let same = ConnectionStatus::from_peer_status(&failed(Version::new(1, 2, 3), Version::new(1, 2, 3)));
    assert_eq!(same.connection_close_reason, Some(ConnectionCloseReason::TakerVersionOutdated));
    assert!(!same.online);
    assert!(Version::new(1, 2, 3).is_older_than(&Version::new(1, 2, 4)));
}

#[test]
fn compatibility_lists_missing_protocols() {
    let required: Vec<String> = vec!["/a/1".to_string(), "/b/1".to_string(), "/c/1".to_string()];
    let info = PeerInfo { protocols: vec!["/c/1".to_string(), "/a/1".to_string()] };
    let c = MakerCompatibility::new(&Some(info), &required);
    assert_eq!(c.unsupported_protocols, Some(vec!["/b/1".to_string()]));
    let full = PeerInfo { protocols: required.clone() };
    assert_eq!(MakerCompatibility::new(&Some(full), &required).unsupported_protocols, Some(vec![]));
    assert_eq!(MakerCompatibility::new(&None, &required).unsupported_protocols, None);
    let repeated: Vec<String> = vec!["/b/1".to_string(), "/a/1".to_string(), "/b/1".to_string()];
    let info = PeerInfo { protocols: vec!["/a/1".to_string()] };
    assert_eq!(MakerCompatibility::new(&Some(info), &repeated).unsupported_protocols, Some(vec!["/b/1".to_string()]));
}
