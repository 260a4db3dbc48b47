//! The event bus registry: which connections each user has, so that an event
//! for a user reaches every one of their sessions.
use vstd::prelude::*;

verus! {

/// The kinds of pushed event.
#[derive(Debug, Clone, Copy, PartialEq, Eq, Structural)]
pub enum EventKind {
    VillageUpdated,
    ResourcesUpdated,
    BuildingComplete,
    ArmyArrived,
    AttackIncoming,
    TroopTrainingComplete,
    TroopsStarved,
    TradeOrderExpired,
    Connected,
}

impl EventKind {
    pub open spec fn spec_tag(self) -> Seq<char> {
        match self {
            EventKind::VillageUpdated => "village_updated"@,
            EventKind::ResourcesUpdated => "resources_updated"@,
            EventKind::BuildingComplete => "building_complete"@,
            EventKind::ArmyArrived => "army_arrived"@,
            EventKind::AttackIncoming => "attack_incoming"@,
            EventKind::TroopTrainingComplete => "troop_training_complete"@,
            EventKind::TroopsStarved => "troops_starved"@,
            EventKind::TradeOrderExpired => "trade_order_expired"@,
            EventKind::Connected => "connected"@,
        }
    }

    /// The `type` tag under which the event is serialized.
    pub fn tag(&self) -> (r: &'static str)
        ensures
            r@ == self.spec_tag(),
    {
        match self {
            EventKind::VillageUpdated => "village_updated",
            EventKind::ResourcesUpdated => "resources_updated",
            EventKind::BuildingComplete => "building_complete",
            EventKind::ArmyArrived => "army_arrived",
            EventKind::AttackIncoming => "attack_incoming",
            EventKind::TroopTrainingComplete => "troop_training_complete",
            EventKind::TroopsStarved => "troops_starved",
            EventKind::TradeOrderExpired => "trade_order_expired",
            EventKind::Connected => "connected",
        }
    }
}

/// A session registered for a user.
#[derive(Debug, Clone, Copy, PartialEq, Eq, Structural)]
pub struct Subscription {
    pub user_id: u128,
    pub connection_id: u64,
}

/// The connections of `user` among `subs`, in registration order.
pub open spec fn connections_of(subs: Seq<Subscription>, user: u128) -> Seq<u64>
    decreases subs.len(),
{
    if subs.len() == 0 {
        seq![]
    } else {
        let rest = connections_of(subs.drop_last(), user);
        if subs.last().user_id == user {
            rest.push(subs.last().connection_id)
        } else {
            rest
        }
    }
}

/// Registered sessions, each with a connection id of its own.
pub struct EventBus {
    pub subscriptions: Vec<Subscription>,
    pub next_connection: u64,
}

impl EventBus {
    /// Every connection id is below the next one to be handed out, so ids are unique.
    pub open spec fn wf(&self) -> bool {
        forall|i: int| 0 <= i < self.subscriptions@.len() ==> #[trigger] self.subscriptions@[i].connection_id
            < self.next_connection
    }

    /// A bus with no session.
    pub fn new() -> (r: Self)
        ensures
            r.wf(),
            r.subscriptions@.len() == 0,
    {
        EventBus { subscriptions: Vec::new(), next_connection: 0 }
    }

    /// Registers a new session of `user` and returns its connection id; a
    /// user may have several sessions at once.
    pub fn register(&mut self, user: u128) -> (r: u64)
        requires
            old(self).wf(),
            old(self).next_connection < u64::MAX,
        ensures
            final(self).wf(),
            r == old(self).next_connection,
            final(self).subscriptions@ == old(self).subscriptions@.push(
                Subscription { user_id: user, connection_id: r },
            ),
    {
        let id = self.next_connection;
        self.subscriptions.push(Subscription { user_id: user, connection_id: id });
        self.next_connection = id + 1;
        id
    }

    /// Removes the session `connection` of `user`; other sessions stay, in order.
    pub fn unregister(&mut self, user: u128, connection: u64)
        requires
            old(self).wf(),
        ensures
            final(self).wf(),
            final(self).next_connection == old(self).next_connection,
            final(self).subscriptions@ == old(self).subscriptions@.filter(
                |s: Subscription| !(s.user_id == user && s.connection_id == connection),
            ),
    {
        let mut kept: Vec<Subscription> = Vec::new();
        let mut i: usize = 0;
        let ghost pred = |s: Subscription| !(s.user_id == user && s.connection_id == connection);
        while i < self.subscriptions.len()
            invariant
                i <= self.subscriptions@.len(),
                self.subscriptions@ == old(self).subscriptions@,
                pred == (|s: Subscription| !(s.user_id == user && s.connection_id == connection)),
                kept@ == self.subscriptions@.take(i as int).filter(pred),
                forall|k: int| 0 <= k < kept@.len() ==> #[trigger] kept@[k].connection_id
                    < self.next_connection,
                old(self).wf(),
                self.next_connection == old(self).next_connection,
            decreases self.subscriptions@.len() - i,
        {
            let s = self.subscriptions[i];
            proof {
                let t = self.subscriptions@.take(i + 1);
                assert(t.drop_last() =~= self.subscriptions@.take(i as int));
                assert(t.last() == s);
                assert(t =~= self.subscriptions@.take(i as int).push(s));
                self.subscriptions@.take(i as int).lemma_filter_push(s, pred);
                assert(s.connection_id < self.next_connection);
            }
            if !(s.user_id == user && s.connection_id == connection) {
                kept.push(s);
            }
            i = i + 1;
        }
        proof {
            assert(self.subscriptions@.take(self.subscriptions@.len() as int) =~= self.subscriptions@);
        }
        self.subscriptions = kept;
    }

    /// The connections that an event for `user` goes to.
    pub fn connections_for(&self, user: u128) -> (r: Vec<u64>)
        ensures
            r@ == connections_of(self.subscriptions@, user),
    {
        let mut r: Vec<u64> = Vec::new();
        let mut i: usize = 0;
        while i < self.subscriptions.len()
            invariant
                i <= self.subscriptions@.len(),
                r@ == connections_of(self.subscriptions@.take(i as int), user),
            decreases self.subscriptions@.len() - i,
        {
            let s = self.subscriptions[i];
            proof {
                assert(self.subscriptions@.take(i + 1).drop_last() =~= self.subscriptions@.take(i as int));
                assert(self.subscriptions@.take(i + 1).last() == s);
            }
            if s.user_id == user {
                r.push(s.connection_id);
            }
            i = i + 1;
        }
        proof {
            assert(self.subscriptions@.take(self.subscriptions@.len() as int) =~= self.subscriptions@);
        }
        r
    }

    /// Every registered connection, for a server-wide event.
    pub fn all_connections(&self) -> (r: Vec<u64>)
        ensures
            r@ == self.subscriptions@.map_values(|s: Subscription| s.connection_id),
    {
        let mut r: Vec<u64> = Vec::new();
        let mut i: usize = 0;
        while i < self.subscriptions.len()
            invariant
                i <= self.subscriptions@.len(),
                r@ == self.subscriptions@.take(i as int).map_values(|s: Subscription| s.connection_id),
            decreases self.subscriptions@.len() - i,
        {
            r.push(self.subscriptions[i].connection_id);
            proof {
                assert(r@ =~= self.subscriptions@.take(i + 1).map_values(|s: Subscription| s.connection_id));
            }
            i = i + 1;
        }
        proof {
            assert(self.subscriptions@.take(self.subscriptions@.len() as int) =~= self.subscriptions@);
        }
        r
    }
}

} // verus!
