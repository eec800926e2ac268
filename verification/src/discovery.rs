use crate::activation::DiscoveryMode;
use crate::role::Role;
use vstd::prelude::*;

verus! {

/// An event of the network, as far as this crate tells them apart. What a
/// discovery event carries is of no concern here and is handed on as it is.
#[derive(Debug, PartialEq, Eq)]
pub enum NetworkEvent<D> {
    /// An event of the discovery protocol.
    Dht(D),
    NotificationStreamOpened,
    NotificationStreamClosed,
    NotificationsReceived,
}

/// The discovery event inside a network event, if it is one.
pub open spec fn dht_of<D>(event: NetworkEvent<D>) -> Option<D> {
    match event {
        NetworkEvent::Dht(inner) => Some(inner),
        _ => None,
    }
}

/// The discovery events among the network events, in their order.
pub open spec fn dht_events_of<D>(events: Seq<NetworkEvent<D>>) -> Seq<D>
    decreases events.len(),
{
    if events.len() == 0 {
        Seq::empty()
    } else {
        let earlier = dht_events_of(events.drop_last());
        match dht_of(events.last()) {
            Some(inner) => earlier.push(inner),
            None => earlier,
        }
    }
}

/// Picks the discovery event out of a network event. Authority discovery
/// sees the network through this filter and through nothing else.
pub fn dht_event<D>(event: NetworkEvent<D>) -> (inner: Option<D>)
    ensures
        inner == dht_of(event),
{
    match event {
        NetworkEvent::Dht(inner) => Some(inner),
        _ => None,
    }
}

/// The subsequence of discovery events in a run of network events.
pub fn dht_events<D>(events: Vec<NetworkEvent<D>>) -> (found: Vec<D>)
    ensures
        found@ == dht_events_of(events@),
{
    let mut found: Vec<D> = Vec::new();
    for event in iter: events.into_iter()
        invariant
            iter.seq() == events@,
            found@ == dht_events_of(events@.take(iter.index() as int)),
    {
        assert(events@.take(iter.index() + 1).drop_last() =~= events@.take(iter.index() as int));
        match dht_event(event) {
            Some(inner) => {
                found.push(inner);
            },
            None => {},
        }
    }
    assert(events@.take(events@.len() as int) =~= events@);
    found
}

/// Every discovery event is kept and nothing else is let through.
pub proof fn filter_keeps_exactly_the_dht_events<D>(events: Seq<NetworkEvent<D>>)
    ensures
        dht_events_of(events).len() <= events.len(),
        forall|i: int|
            0 <= i < events.len() && (#[trigger] events[i]) is Dht ==> dht_events_of(
                events,
            ).contains(events[i]->Dht_0),
        forall|k: int|
            0 <= k < dht_events_of(events).len() ==> events.contains(
                NetworkEvent::Dht(#[trigger] dht_events_of(events)[k]),
            ),
    decreases events.len(),
{
    if events.len() > 0 {
        let earlier = events.drop_last();
        filter_keeps_exactly_the_dht_events(earlier);
        let kept = dht_events_of(earlier);
        let all = dht_events_of(events);
        assert forall|i: int| 0 <= i < events.len() && (#[trigger] events[i]) is Dht implies all.contains(
            events[i]->Dht_0,
        ) by {
            if i < earlier.len() {
                assert(earlier[i] == events[i]);
                let k = choose|k: int| 0 <= k < kept.len() && kept[k] == events[i]->Dht_0;
                assert(all[k] == events[i]->Dht_0);
            } else {
                assert(all[all.len() - 1] == events[i]->Dht_0);
            }
        }
        assert forall|k: int| 0 <= k < all.len() implies events.contains(
            NetworkEvent::Dht(#[trigger] all[k]),
        ) by {
            if k < kept.len() {
                assert(all[k] == kept[k]);
                let i = choose|i: int|
                    0 <= i < earlier.len() && earlier[i] == NetworkEvent::Dht(kept[k]);
                assert(events[i] == NetworkEvent::Dht(all[k]));
            } else {
                assert(events[events.len() - 1] == NetworkEvent::Dht(all[k]));
            }
        }
    }
}

/// How authority discovery runs on a node.
#[derive(Debug, PartialEq, Eq)]
pub struct Discovery {
    pub mode: DiscoveryMode,
    /// The sentry nodes whose addresses are published for the authority.
    pub sentries: Vec<String>,
    /// Whether discovery is given the key storage to sign its records.
    pub keystore: bool,
}

impl Discovery {
    /// Whether a role runs discovery at all.
    pub open spec fn runs_for(role: Role) -> bool {
        role.network_authority()
    }

    /// The discovery of a role: an authority publishes for its sentries and
    /// signs with the local keys; a sentry forwards only and holds no keys;
    /// no other role runs discovery.
    pub fn for_role(role: Role) -> (discovery: Option<Discovery>)
        ensures
            discovery is Some <==> Discovery::runs_for(role),
            discovery matches Some(d) ==> {
                &&& d.mode == if role.authority() {
                    DiscoveryMode::Authority
                } else {
                    DiscoveryMode::Sentry
                }
                &&& d.sentries@ == role.sentries()
                &&& d.keystore == role.authority()
            },
    {
        match role {
            Role::Authority { sentry_nodes } => Some(
                Discovery { mode: DiscoveryMode::Authority, sentries: sentry_nodes, keystore: true },
            ),
            Role::Sentry => Some(
                Discovery { mode: DiscoveryMode::Sentry, sentries: Vec::new(), keystore: false },
            ),
            _ => None,
        }
    }
}

} // verus!
