//! The event observer's translation step: each engine event becomes at
//! most one observability record.  Known variants give exactly one
//! record; an unrecognized variant is ignored so that future engine
//! versions cannot break the observer.

use vstd::prelude::*;

verus! {

/// An engine event, reduced to the plain values the observer reads.
/// `Unknown` stands for any variant this supervisor does not recognize.
#[derive(Debug, PartialEq, Eq)]
pub enum DiscoveryEvent {
    /// The node's advertised socket address changed; carries its text.
    SocketUpdated { address: String },
    /// A peer was discovered; carries its node identifier.
    Discovered { node_id: String },
    /// A peer entered the routing table by its record alone; carries
    /// the record text.
    UnverifiableEnr { record: String },
    /// A verified peer entered the routing table; carries its node
    /// identifier.
    NodeInserted { node_id: String },
    /// A session was established; carries the peer's record text and
    /// its socket address text.
    SessionEstablished { record: String, address: String },
    /// An inbound talk request arrived; carries the requester's node
    /// identifier.
    TalkRequest { node_id: String },
    Unknown,
}

/// The ghost value of an event: each payload as its character sequence.
pub enum EventV {
    SocketUpdated(Seq<char>),
    Discovered(Seq<char>),
    UnverifiableEnr(Seq<char>),
    NodeInserted(Seq<char>),
    SessionEstablished(Seq<char>, Seq<char>),
    TalkRequest(Seq<char>),
    Unknown,
}

impl View for DiscoveryEvent {
    type V = EventV;

    open spec fn view(&self) -> EventV {
        match *self {
            DiscoveryEvent::SocketUpdated { address } => EventV::SocketUpdated(address@),
            DiscoveryEvent::Discovered { node_id } => EventV::Discovered(node_id@),
            DiscoveryEvent::UnverifiableEnr { record } => EventV::UnverifiableEnr(record@),
            DiscoveryEvent::NodeInserted { node_id } => EventV::NodeInserted(node_id@),
            DiscoveryEvent::SessionEstablished { record, address } => EventV::SessionEstablished(
                record@,
                address@,
            ),
            DiscoveryEvent::TalkRequest { node_id } => EventV::TalkRequest(node_id@),
            DiscoveryEvent::Unknown => EventV::Unknown,
        }
    }
}

/// Which kind of event an observability record reports.
#[derive(Clone, Copy, Debug, PartialEq, Eq)]
pub enum EventKind {
    SocketUpdated,
    Discovered,
    UnverifiableEnr,
    NodeInserted,
    SessionEstablished,
    TalkRequest,
}

/// One observability record: the kind of event, its subject (an address,
/// a node identifier or a record text), and, for a session, the peer's
/// address besides.
#[derive(Debug, PartialEq, Eq)]
pub struct Observation {
    pub kind: EventKind,
    pub detail: String,
    pub address: Option<String>,
}

/// The ghost value of an observability record.
pub struct ObsV {
    pub kind: EventKind,
    pub detail: Seq<char>,
    pub address: Option<Seq<char>>,
}

impl View for Observation {
    type V = ObsV;

    open spec fn view(&self) -> ObsV {
        ObsV {
            kind: self.kind,
            detail: self.detail@,
            address: match self.address {
                Some(a) => Some(a@),
                None => None,
            },
        }
    }
}

/// The record a single event translates to: exactly one for each known
/// variant, none for an unknown one.
pub open spec fn observe_spec(ev: EventV) -> Option<ObsV> {
    match ev {
        EventV::SocketUpdated(address) => Some(
            ObsV { kind: EventKind::SocketUpdated, detail: address, address: None },
        ),
        EventV::Discovered(node_id) => Some(
            ObsV { kind: EventKind::Discovered, detail: node_id, address: None },
        ),
        EventV::UnverifiableEnr(record) => Some(
            ObsV { kind: EventKind::UnverifiableEnr, detail: record, address: None },
        ),
        EventV::NodeInserted(node_id) => Some(
            ObsV { kind: EventKind::NodeInserted, detail: node_id, address: None },
        ),
        EventV::SessionEstablished(record, address) => Some(
            ObsV {
                kind: EventKind::SessionEstablished,
                detail: record,
                address: Some(address),
            },
        ),
        EventV::TalkRequest(node_id) => Some(
            ObsV { kind: EventKind::TalkRequest, detail: node_id, address: None },
        ),
        EventV::Unknown => None,
    }
}

/// Translate one event.  A known variant gives exactly one record; an
/// unknown variant gives none and is otherwise without effect.
pub fn observe(ev: DiscoveryEvent) -> (r: Option<Observation>)
    ensures
        r matches Some(o) ==> observe_spec(ev@) == Some(o@),
        r is Some <==> observe_spec(ev@) is Some,
        r is Some <==> !(ev@ is Unknown),
{
    match ev {
        DiscoveryEvent::SocketUpdated { address } => Some(
            Observation { kind: EventKind::SocketUpdated, detail: address, address: None },
        ),
        DiscoveryEvent::Discovered { node_id } => Some(
            Observation { kind: EventKind::Discovered, detail: node_id, address: None },
        ),
        DiscoveryEvent::UnverifiableEnr { record } => Some(
            Observation { kind: EventKind::UnverifiableEnr, detail: record, address: None },
        ),
        DiscoveryEvent::NodeInserted { node_id } => Some(
            Observation { kind: EventKind::NodeInserted, detail: node_id, address: None },
        ),
        DiscoveryEvent::SessionEstablished { record, address } => Some(
            Observation {
                kind: EventKind::SessionEstablished,
                detail: record,
                address: Some(address),
            },
        ),
        DiscoveryEvent::TalkRequest { node_id } => Some(
            Observation { kind: EventKind::TalkRequest, detail: node_id, address: None },
        ),
        DiscoveryEvent::Unknown => None,
    }
}

/// The records an event sequence translates to, in order.
pub open spec fn observations_of(evs: Seq<EventV>) -> Seq<ObsV>
    decreases evs.len(),
{
    if evs.len() == 0 {
        Seq::empty()
    } else {
        observations_of(evs.drop_last()) + match observe_spec(evs.last()) {
            Some(o) => seq![o],
            None => Seq::empty(),
        }
    }
}

/// The ghost values of a sequence of events.
pub open spec fn event_views(s: Seq<DiscoveryEvent>) -> Seq<EventV> {
    s.map_values(|e: DiscoveryEvent| e@)
}

/// The ghost values of a sequence of records.
pub open spec fn obs_views(s: Seq<Observation>) -> Seq<ObsV> {
    s.map_values(|o: Observation| o@)
}

proof fn lemma_event_views_index(s: Seq<DiscoveryEvent>, i: int)
    requires
        0 <= i < s.len(),
    ensures
        event_views(s)[i] == s[i]@,
{
}

proof fn lemma_obs_views_index(s: Seq<Observation>, i: int)
    requires
        0 <= i < s.len(),
    ensures
        obs_views(s)[i] == s[i]@,
{
}

/// Translate a whole event sequence: one record per known event, none
/// for unknown ones, in the events' order.
pub fn observe_all(events: Vec<DiscoveryEvent>) -> (r: Vec<Observation>)
    ensures
        obs_views(r@) == observations_of(event_views(events@)),
{
    let ghost all: Seq<EventV> = event_views(events@);
    let mut remaining = events;
    let mut out: Vec<Observation> = Vec::new();
    while remaining.len() != 0
        invariant
            remaining@.len() <= all.len(),
            event_views(remaining@) =~= all.skip(all.len() - remaining@.len()),
            obs_views(out@) =~= observations_of(all.take(all.len() - remaining@.len())),
        decreases remaining@.len(),
    {
        let ghost k = all.len() - remaining@.len();
        let ghost prev = remaining@;
        let ev = remaining.remove(0);
        proof {
            lemma_event_views_index(prev, 0);
            assert(event_views(prev)[0] == all.skip(k)[0]);
            assert(ev@ == all[k]);
            assert forall|j: int| 0 <= j < remaining@.len() implies #[trigger] event_views(
                remaining@,
            )[j] == all.skip(k + 1)[j] by {
                lemma_event_views_index(remaining@, j);
                lemma_event_views_index(prev, j + 1);
                assert(remaining@[j] == prev[j + 1]);
                assert(event_views(prev)[j + 1] == all.skip(k)[j + 1]);
                assert(all.skip(k)[j + 1] == all[k + 1 + j]);
                assert(all.skip(k + 1)[j] == all[k + 1 + j]);
            }
            assert(event_views(remaining@) =~= all.skip(k + 1));
            assert(all.take(k + 1).drop_last() =~= all.take(k));
            assert(all.take(k + 1).last() == all[k]);
        }
        match observe(ev) {
            Some(o) => {
                let ghost prev_out = out@;
                let ghost ov = o@;
                out.push(o);
                proof {
                    assert(observe_spec(all[k]) == Some(ov));
                    assert(observations_of(all.take(k + 1)) == observations_of(all.take(k))
                        + seq![ov]);
                    assert forall|j: int| 0 <= j < out@.len() implies #[trigger] obs_views(
                        out@,
                    )[j] == observations_of(all.take(k + 1))[j] by {
                        lemma_obs_views_index(out@, j);
                        if j < prev_out.len() {
                            lemma_obs_views_index(prev_out, j);
                        }
                    }
                    assert(obs_views(out@).len() == observations_of(all.take(k + 1)).len());
                    assert(obs_views(out@) =~= observations_of(all.take(k + 1)));
                }
            },
            None => {
                proof {
                    assert(observe_spec(all[k]) is None);
                    assert(observations_of(all.take(k + 1)) == observations_of(all.take(k))
                        + Seq::<ObsV>::empty());
                    assert(observations_of(all.take(k + 1)) =~= observations_of(all.take(k)));
                }
            },
        }
    }
    proof {
        assert(all.take(all.len() as int) =~= all);
    }
    out
}

} // verus!
