//! Peer connection status and protocol compatibility, as reported to observers.
use vstd::prelude::*;

verus! {

/// A semantic version, compared by major, then minor, then patch.
#[derive(Clone, Copy, Debug, PartialEq, Eq, Structural)]
pub struct Version {
    pub major: u64,
    pub minor: u64,
    pub patch: u64,
}

/// `a` is strictly older than `b` in lexicographic (major, minor, patch) order.
pub open spec fn older_than(a: Version, b: Version) -> bool {
    a.major < b.major || (a.major == b.major && (a.minor < b.minor || (a.minor == b.minor
        && a.patch < b.patch)))
}

impl Version {
    pub fn new(major: u64, minor: u64, patch: u64) -> (r: Version)
        ensures
            r.major == major,
            r.minor == minor,
            r.patch == patch,
    {
        Version { major, minor, patch }
    }

    pub fn is_older_than(&self, other: &Version) -> (r: bool)
        ensures
            r == older_than(*self, *other),
    {
        if self.major != other.major {
            self.major < other.major
        } else if self.minor != other.minor {
            self.minor < other.minor
        } else {
            self.patch < other.patch
        }
    }
}

/// Why the transport closed a connection to the maker.
#[derive(Clone, Copy, Debug, PartialEq, Eq, Structural)]
pub enum PeerCloseReason {
    VersionNegotiationFailed { actual_version: Version, proposed_version: Version },
}

/// The transport's view of the connection to the maker.
#[derive(Clone, Copy, Debug, PartialEq, Eq, Structural)]
pub enum PeerConnectionStatus {
    Online,
    Offline { reason: Option<PeerCloseReason> },
}

/// Which side has to upgrade after a failed version negotiation.
#[derive(Clone, Copy, Debug, PartialEq, Eq, Structural)]
pub enum ConnectionCloseReason {
    MakerVersionOutdated,
    TakerVersionOutdated,
}

/// The connection status record published to observers.
#[derive(Clone, Copy, Debug, PartialEq, Eq, Structural)]
pub struct ConnectionStatus {
    pub online: bool,
    pub connection_close_reason: Option<ConnectionCloseReason>,
}

/// The maker (whose version is `actual_version`) is outdated exactly when it is older than
/// the version the taker proposed; otherwise the taker is.
pub open spec fn close_reason_of(r: PeerCloseReason) -> ConnectionCloseReason {
    match r {
        PeerCloseReason::VersionNegotiationFailed { actual_version, proposed_version } => {
            if older_than(actual_version, proposed_version) {
                ConnectionCloseReason::MakerVersionOutdated
            } else {
                ConnectionCloseReason::TakerVersionOutdated
            }
        },
    }
}

pub open spec fn status_of(s: PeerConnectionStatus) -> ConnectionStatus {
    match s {
        PeerConnectionStatus::Online => ConnectionStatus { online: true, connection_close_reason: None },
        PeerConnectionStatus::Offline { reason } => ConnectionStatus {
            online: false,
            connection_close_reason: match reason {
                Some(r) => Some(close_reason_of(r)),
                None => None,
            },
        },
    }
}

impl ConnectionStatus {
    pub fn from_peer_status(s: &PeerConnectionStatus) -> (r: ConnectionStatus)
        ensures
            r == status_of(*s),
    {
        match s {
            PeerConnectionStatus::Online => ConnectionStatus {
                online: true,
                connection_close_reason: None,
            },
            PeerConnectionStatus::Offline { reason } => {
                let connection_close_reason = match reason {
                    Some(PeerCloseReason::VersionNegotiationFailed {
                        actual_version,
                        proposed_version,
                    }) => {
                        if actual_version.is_older_than(proposed_version) {
                            Some(ConnectionCloseReason::MakerVersionOutdated)
                        } else {
                            Some(ConnectionCloseReason::TakerVersionOutdated)
                        }
                    },
                    None => None,
                };
                ConnectionStatus { online: false, connection_close_reason }
            },
        }
    }
}

/// What the identify protocol learned about the maker: the protocols it listens on.
#[derive(Clone, Debug)]
pub struct PeerInfo {
    pub protocols: Vec<String>,
}

/// The protocols of `required` that `offered` does not hold, each once, in the order of
/// their first appearance in `required`.
pub open spec fn missing_protocols(offered: Seq<Seq<char>>, required: Seq<Seq<char>>) -> Seq<
    Seq<char>,
>
    decreases required.len(),
{
    if required.len() == 0 {
        Seq::empty()
    } else {
        let m = missing_protocols(offered, required.drop_last());
        let p = required.last();
        if !offered.contains(p) && !m.contains(p) {
            m.push(p)
        } else {
            m
        }
    }
}

/// No protocol is reported twice.
pub proof fn lemma_missing_protocols_distinct(offered: Seq<Seq<char>>, required: Seq<Seq<char>>)
    ensures
        missing_protocols(offered, required).no_duplicates(),
    decreases required.len(),
{
    if required.len() > 0 {
        lemma_missing_protocols_distinct(offered, required.drop_last());
        let m = missing_protocols(offered, required.drop_last());
        let p = required.last();
        if !offered.contains(p) && !m.contains(p) {
            assert forall|i: int, j: int|
                0 <= i < m.push(p).len() && 0 <= j < m.push(p).len() && i != j implies m.push(p)[i]
                != m.push(p)[j] by {
                if i < m.len() && j < m.len() {
                } else if i == m.len() {
                    assert(m.push(p)[j] == m[j]);
                } else {
                    assert(m.push(p)[i] == m[i]);
                }
            }
        }
    }
}

pub open spec fn views_of(v: Seq<String>) -> Seq<Seq<char>> {
    v.map_values(|s: String| s@)
}

/// Protocols that the taker requires of the maker, and whether the maker offers them.
#[derive(Clone, Debug)]
pub struct MakerCompatibility {
    /// Protocols that the maker does not support but the taker requires; `None` while
    /// nothing is known of the maker.
    pub unsupported_protocols: Option<Vec<String>>,
}

fn offers(offered: &Vec<String>, p: &String) -> (r: bool)
    ensures
        r == views_of(offered@).contains(p@),
{
    let mut i: usize = 0;
    while i < offered.len()
        invariant
            0 <= i <= offered.len(),
            forall|j: int| 0 <= j < i ==> offered@[j]@ != p@,
        decreases offered.len() - i,
    {
        if offered[i] == *p {
            assert(views_of(offered@)[i as int] == p@);
            return true;
        }
        i += 1;
    }
    proof {
        if views_of(offered@).contains(p@) {
            let k = choose|k: int| 0 <= k < views_of(offered@).len() && views_of(offered@)[k] == p@;
            assert(offered@[k]@ == p@);
        }
    }
    false
}

impl MakerCompatibility {
    /// Compares the maker's protocols with those in `required`. Without peer info nothing is
    /// known, so nothing is reported unsupported.
    pub fn new(peer_info: &Option<PeerInfo>, required: &Vec<String>) -> (r: MakerCompatibility)
        ensures
            peer_info.is_none() ==> r.unsupported_protocols.is_none(),
            peer_info.is_some() ==> r.unsupported_protocols.is_some() && views_of(
                r.unsupported_protocols.unwrap()@,
            ) == missing_protocols(views_of(peer_info.unwrap().protocols@), views_of(required@)),
            r.unsupported_protocols.is_some() ==> views_of(r.unsupported_protocols.unwrap()@).no_duplicates(),
    {
        match peer_info {
            None => MakerCompatibility { unsupported_protocols: None },
            Some(info) => {
                let mut missing: Vec<String> = Vec::new();
                let mut i: usize = 0;
                while i < required.len()
                    invariant
                        0 <= i <= required.len(),
                        views_of(missing@) == missing_protocols(
                            views_of(info.protocols@),
                            views_of(required@).take(i as int),
                        ),
                    decreases required.len() - i,
                {
                    let p = &required[i];
                    let offered = offers(&info.protocols, p);
                    let listed = offers(&missing, p);
                    let ghost before = missing@;
                    if !offered && !listed {
                        missing.push(p.clone());
                    }
                    proof {
                        let req = views_of(required@);
                        assert(req.take(i as int + 1).drop_last() =~= req.take(i as int));
                        assert(req.take(i as int + 1).last() == p@);
                        if !offered && !listed {
                            assert(views_of(missing@) =~= views_of(before).push(p@));
                        }
                    }
                    i += 1;
                }
                assert(views_of(required@).take(required.len() as int) == views_of(required@));
                proof {
                    lemma_missing_protocols_distinct(views_of(info.protocols@), views_of(required@));
                }
                MakerCompatibility { unsupported_protocols: Some(missing) }
            },
        }
    }
}

} // verus!
