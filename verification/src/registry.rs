//! The registry of connected users: for each user that has connected, the
//! sending end of a broadcast channel that every live connection of that
//! user listens on.
//!
//! The map is a `dashmap::DashMap` and the channels are tokio's broadcast
//! channels. Both are opaque here. A channel is spoken of by its identity
//! alone: which channel a sending end sends on ([`sender_channel`]) and
//! which one a receiving end listens on ([`receiver_channel`]); nothing is
//! said of what a channel holds. The map is spoken of through
//! [`endpoints_of`], the channel of each user that has an entry. The
//! contracts of their functions below are taken on trust.
//!
//! The registry is changed through `&mut self`. With the map's own methods a
//! caller that still holds a reference into the map may wait forever when it
//! removes an entry; the exclusive borrow rules that out.

use std::sync::Arc;

use dashmap::mapref::one::Ref;
use dashmap::DashMap;
use tokio::sync::broadcast::error::{SendError, TryRecvError};
use tokio::sync::broadcast::{Receiver, Sender};
use vstd::prelude::*;

use crate::notif::{translate, AppEvent, Notification, NotificationView, TranslateError};

verus! {

broadcast use vstd::std_specs::hash::group_hash_axioms;

/// `dashmap::DashMap`, a map that may be shared between threads.
#[verifier::external_type_specification]
#[verifier::external_body]
#[verifier::reject_recursive_types(K)]
#[verifier::reject_recursive_types(V)]
#[verifier::reject_recursive_types(S)]
pub struct ExDashMap<K, V, S>(DashMap<K, V, S>);

/// `dashmap::mapref::one::Ref`, a reference to one entry of a map. While it
/// lives, the entry's part of the map is locked for reading.
#[verifier::external_type_specification]
#[verifier::external_body]
#[verifier::reject_recursive_types(K)]
#[verifier::reject_recursive_types(V)]
pub struct ExRef<'a, K, V>(Ref<'a, K, V>);

/// `tokio::sync::broadcast::Sender`, the sending end of a channel.
#[verifier::external_type_specification]
#[verifier::external_body]
#[verifier::reject_recursive_types(T)]
pub struct ExSender<T>(Sender<T>);

/// `tokio::sync::broadcast::Receiver`, one receiving end of a channel.
#[verifier::external_type_specification]
#[verifier::external_body]
#[verifier::reject_recursive_types(T)]
pub struct ExReceiver<T>(Receiver<T>);

/// `tokio::sync::broadcast::error::SendError`, which hands back a value
/// that nobody could receive.
#[verifier::external_type_specification]
#[verifier::external_body]
#[verifier::reject_recursive_types(T)]
pub struct ExSendError<T>(SendError<T>);

/// The channel that a sending end sends on.
pub uninterp spec fn sender_channel(sender: Sender<Arc<AppEvent>>) -> int;

/// The channel that a receiving end listens on.
pub uninterp spec fn receiver_channel(receiver: Receiver<Arc<AppEvent>>) -> int;

/// The channel of the sending end that a reference into the map points to.
pub uninterp spec fn entry_channel(entry: Ref<u64, Sender<Arc<AppEvent>>>) -> int;

/// What the map holds: for each user that has an entry, the channel of the
/// sending end that is stored for the user.
pub uninterp spec fn endpoints_of(map: DashMap<u64, Sender<Arc<AppEvent>>>) -> Map<u64, int>;

/// `DashMap::new`. Trusted: the new map has no entry.
#[verifier::external_body]
fn map_new() -> (map: DashMap<u64, Sender<Arc<AppEvent>>>)
    ensures
        endpoints_of(map).dom() == Set::<u64>::empty(),
{
    DashMap::new()
}

/// `DashMap::len`. Trusted: it returns the number of entries.
#[verifier::external_body]
fn map_len(map: &DashMap<u64, Sender<Arc<AppEvent>>>) -> (count: usize)
    ensures
        count == endpoints_of(*map).dom().len(),
{
    map.len()
}

/// `DashMap::get`. Trusted: it yields a reference exactly when the user has
/// an entry, and the reference points to the sending end that is stored for
/// that user.
#[verifier::external_body]
fn map_get<'a>(map: &'a DashMap<u64, Sender<Arc<AppEvent>>>, user_id: u64) -> (entry: Option<
    Ref<'a, u64, Sender<Arc<AppEvent>>>,
>)
    ensures
        match entry {
            Some(found) => endpoints_of(*map).contains_key(user_id) && entry_channel(found)
                == endpoints_of(*map)[user_id],
            None => !endpoints_of(*map).contains_key(user_id),
        },
{
    map.get(&user_id)
}

/// `DashMap::insert`. Trusted: afterwards the sending end is stored for the
/// user, and the other users are as before; the call does not unwind.
#[verifier::external_body]
fn map_insert(
    map: &mut DashMap<u64, Sender<Arc<AppEvent>>>,
    user_id: u64,
    sender: Sender<Arc<AppEvent>>,
)
    ensures
        endpoints_of(*final(map)) == endpoints_of(*old(map)).insert(
            user_id,
            sender_channel(sender),
        ),
    no_unwind
{
    map.insert(user_id, sender);
}

/// `DashMap::remove`. Trusted: afterwards the user has no entry, and the
/// other users are as before; the call does not unwind.
#[verifier::external_body]
fn map_remove(map: &mut DashMap<u64, Sender<Arc<AppEvent>>>, user_id: u64)
    ensures
        endpoints_of(*final(map)) == endpoints_of(*old(map)).remove(user_id),
    no_unwind
{
    map.remove(&user_id);
}

/// `Ref::value`. Trusted: it yields the sending end that the reference
/// points to.
#[verifier::external_body]
fn entry_sender<'a, 'b>(entry: &'b Ref<'a, u64, Sender<Arc<AppEvent>>>) -> (sender: &'b Sender<
    Arc<AppEvent>,
>)
    ensures
        sender_channel(*sender) == entry_channel(*entry),
{
    entry.value()
}

/// `tokio::sync::broadcast::channel`. Trusted: it returns for every
/// capacity from 1 to half of `usize::MAX`, and the receiving end listens
/// on the channel of the sending end.
#[verifier::external_body]
fn open_channel(capacity: usize) -> (ends: (Sender<Arc<AppEvent>>, Receiver<Arc<AppEvent>>))
    requires
        0 < capacity <= usize::MAX / 2,
    ensures
        receiver_channel(ends.1) == sender_channel(ends.0),
{
    tokio::sync::broadcast::channel(capacity)
}

/// `Sender::subscribe`. Trusted: the new receiving end listens on the
/// channel of the sending end. The call returns unless the channel has a
/// quarter of `usize::MAX` receiving ends already, more than a process can
/// hold.
#[verifier::external_body]
fn subscribe_to(sender: &Sender<Arc<AppEvent>>) -> (receiver: Receiver<Arc<AppEvent>>)
    ensures
        receiver_channel(receiver) == sender_channel(*sender),
{
    sender.subscribe()
}

/// `Sender::send`. Trusted: on success it returns the number of receiving
/// ends that are alive, which is at least one.
pub assume_specification<T>[ Sender::<T>::send ](sender: &Sender<T>, value: T) -> (sent: Result<
    usize,
    SendError<T>,
>)
    ensures
        sent matches Ok(n) ==> n >= 1,
;

/// `Arc::clone`. Trusted: the new handle points to the same event.
#[verifier::external_body]
fn share(event: &Arc<AppEvent>) -> (shared: Arc<AppEvent>)
    ensures
        shared == *event,
{
    Arc::clone(event)
}

/// What a subscription yields when it is asked for its next event.
#[derive(Debug)]
pub enum Polled {
    /// The next event.
    Event(Arc<AppEvent>),
    /// Nothing waits.
    Empty,
    /// The channel has no sending end any more.
    Closed,
    /// The subscription fell behind and this many events were dropped for
    /// it, oldest first.
    Lagged(u64),
}

/// `Receiver::try_recv`. Which result comes depends on what was sent on the
/// channel. Trusted: the receiving end goes on listening on its channel, and
/// it is reported as fallen behind only when at least one event was dropped
/// for it.
#[verifier::external_body]
fn try_receive(receiver: &mut Receiver<Arc<AppEvent>>) -> (polled: Polled)
    ensures
        receiver_channel(*final(receiver)) == receiver_channel(*old(receiver)),
        polled matches Polled::Lagged(skipped) ==> skipped >= 1,
{
    match receiver.try_recv() {
        Ok(event) => Polled::Event(event),
        Err(TryRecvError::Empty) => Polled::Empty,
        Err(TryRecvError::Closed) => Polled::Closed,
        Err(TryRecvError::Lagged(skipped)) => Polled::Lagged(skipped),
    }
}

/// The number of events that a channel keeps for a connection that is slow
/// to read. When more wait, the oldest are dropped.
pub const CHANNEL_CAPACITY: usize = 16;

/// The receiving end that one live connection of a user listens on.
pub struct Subscription {
    user_id: u64,
    receiver: Receiver<Arc<AppEvent>>,
}

impl Subscription {
    /// The user whose events the subscription receives.
    pub closed spec fn owner(&self) -> u64 {
        self.user_id
    }

    /// The user whose events the subscription receives.
    pub fn user_id(&self) -> (user_id: u64)
        ensures
            user_id == self.owner(),
    {
        self.user_id
    }

    /// The receiving end that the subscription holds.
    pub closed spec fn receiving_end(&self) -> Receiver<Arc<AppEvent>> {
        self.receiver
    }

    /// The channel that the subscription listens on.
    pub closed spec fn listens_on(&self) -> int {
        receiver_channel(self.receiver)
    }

    /// Takes the next event that waits, without waiting for one. The
    /// subscription stays its owner's and on its channel; when it is
    /// reported as fallen behind, at least one event was dropped for it.
    pub fn poll(&mut self) -> (polled: Polled)
        ensures
            final(self).owner() == old(self).owner(),
            final(self).listens_on() == old(self).listens_on(),
            polled matches Polled::Lagged(skipped) ==> skipped >= 1,
    {
        try_receive(&mut self.receiver)
    }

    /// Gives up the receiving end that the subscription holds, for a caller
    /// that waits on it.
    pub fn into_receiver(self) -> (receiver: Receiver<Arc<AppEvent>>)
        ensures
            receiver == self.receiving_end(),
            receiver_channel(receiver) == self.listens_on(),
    {
        self.receiver
    }
}

/// What became of an event that was published to one user.
#[derive(Debug, Clone, Copy, PartialEq, Eq, Structural)]
pub enum Delivery {
    /// The user has no entry: nothing was sent.
    NotConnected,
    /// The event was sent to this many live connections.
    Delivered(usize),
    /// The user's entry had no live connection left and was removed.
    Reclaimed,
}

/// What to make of an attempt to send on a user's channel, given the number
/// of connections that the channel reported, if it reported any.
pub fn delivery_of(receivers: Option<usize>) -> (delivery: Delivery)
    ensures
        delivery == match receivers {
            Some(n) => Delivery::Delivered(n),
            None => Delivery::Reclaimed,
        },
{
    match receivers {
        Some(n) => Delivery::Delivered(n),
        None => Delivery::Reclaimed,
    }
}

/// Whether two sets of users agree on every user outside `touched`.
pub open spec fn same_outside(a: Set<u64>, b: Set<u64>, touched: Set<u64>) -> bool {
    forall|user_id: u64| !touched.contains(user_id) ==> #[trigger] a.contains(user_id) == b.contains(user_id)
}

/// How the users that an event concerns were served.
#[derive(Debug, Clone, Copy, PartialEq, Eq, Structural)]
pub struct Report {
    /// Users to whom the event was sent.
    pub delivered: usize,
    /// Users whose entry had no live connection left and was removed.
    pub reclaimed: usize,
    /// Users without an entry.
    pub not_connected: usize,
}

/// What publishing an event to the users in `concerned` does to the users
/// that have an entry, `before` and `after`, and what it reports: no entry
/// is made, entries of users that are not concerned stay, every concerned
/// user is counted once, those without an entry as not connected, and the
/// entries that are gone are those counted as reclaimed.
pub open spec fn fanned_out(
    before: Set<u64>,
    after: Set<u64>,
    concerned: Set<u64>,
    report: Report,
) -> bool {
    &&& after.subset_of(before)
    &&& same_outside(after, before, concerned)
    &&& report.delivered + report.reclaimed + report.not_connected == concerned.len()
    &&& report.not_connected == concerned.difference(before).len()
    &&& report.reclaimed == before.difference(after).len()
}

/// An event that concerns nobody is sent to nobody and leaves every entry
/// in place.
pub proof fn law_nobody_concerned_nothing_published(
    before: Set<u64>,
    after: Set<u64>,
    report: Report,
)
    requires
        fanned_out(before, after, Set::empty(), report),
    ensures
        after == before,
        report == (Report { delivered: 0, reclaimed: 0, not_connected: 0 }),
{
    assert(after =~= before);
}

/// What one more connection of a user does to the channels of the users
/// that have an entry, `before` and `after`, where the new subscription
/// listens on `channel`: a user who has an entry keeps it and the
/// subscription joins its channel; a user who has none gets one, whose
/// channel is the subscription's. The other users are as before.
pub open spec fn subscribed(
    before: Map<u64, int>,
    after: Map<u64, int>,
    user_id: u64,
    channel: int,
) -> bool {
    &&& after.contains_key(user_id)
    &&& after[user_id] == channel
    &&& after == if before.contains_key(user_id) {
        before
    } else {
        before.insert(user_id, channel)
    }
}

/// Whether every user that has an entry `after` had it `before`, on the
/// same channel.
pub open spec fn kept(before: Map<u64, int>, after: Map<u64, int>) -> bool {
    after == before.restrict(after.dom())
}

/// Two connections of one user, one made after the other, listen on the
/// same channel, and the second leaves the entries as the first left them.
pub proof fn law_connections_share_channel(
    before: Map<u64, int>,
    between: Map<u64, int>,
    after: Map<u64, int>,
    user_id: u64,
    first: int,
    second: int,
)
    requires
        subscribed(before, between, user_id, first),
        subscribed(between, after, user_id, second),
    ensures
        first == second,
        after == between,
{
}

/// A later connection of a user joins the channel of an earlier one as long
/// as the user's entry was kept in between.
pub proof fn law_later_connection_joins_kept_channel(
    before: Map<u64, int>,
    connected: Map<u64, int>,
    published: Map<u64, int>,
    after: Map<u64, int>,
    user_id: u64,
    first: int,
    second: int,
)
    requires
        subscribed(before, connected, user_id, first),
        kept(connected, published),
        published.contains_key(user_id),
        subscribed(published, after, user_id, second),
    ensures
        first == second,
{
}

/// The registry of connected users.
pub struct Registry {
    users: DashMap<u64, Sender<Arc<AppEvent>>>,
}

impl Registry {
    /// The channel of each user that has an entry.
    pub closed spec fn endpoints(&self) -> Map<u64, int> {
        endpoints_of(self.users)
    }

    /// The users that have an entry.
    pub open spec fn users(&self) -> Set<u64> {
        self.endpoints().dom()
    }

    /// The channel of a user's entry.
    pub open spec fn endpoint_of(&self, user_id: u64) -> int {
        self.endpoints()[user_id]
    }

    /// A registry has finitely many entries.
    #[verifier::type_invariant]
    spec fn well_formed(self) -> bool {
        endpoints_of(self.users).dom().finite()
    }

    /// A registry without entries.
    pub fn new() -> (registry: Self)
        ensures
            registry.endpoints() == Map::<u64, int>::empty(),
            registry.users() == Set::<u64>::empty(),
    {
        let registry = Registry { users: map_new() };
        assert(registry.endpoints() =~= Map::<u64, int>::empty());
        registry
    }

    /// The number of users that have an entry.
    pub fn len(&self) -> (len: usize)
        ensures
            self.users().finite(),
            len == self.users().len(),
    {
        proof {
            use_type_invariant(self);
        }
        map_len(&self.users)
    }

    /// Whether the user has an entry.
    pub fn contains(&self, user_id: u64) -> (found: bool)
        ensures
            found == self.users().contains(user_id),
    {
        map_get(&self.users, user_id).is_some()
    }

    /// Subscribes a new connection of the user. The first connection of a
    /// user creates the user's entry, with a new channel; later ones listen
    /// on the channel of the entry that is there. Either way the
    /// subscription listens on the channel of the user's entry, and the
    /// entries of other users are as before.
    pub fn get_or_create(&mut self, user_id: u64) -> (subscription: Subscription)
        ensures
            subscription.owner() == user_id,
            subscription.listens_on() == final(self).endpoint_of(user_id),
            subscribed(
                old(self).endpoints(),
                final(self).endpoints(),
                user_id,
                subscription.listens_on(),
            ),
            final(self).users() == old(self).users().insert(user_id),
    {
        proof {
            use_type_invariant(&*self);
        }
        let existing = match map_get(&self.users, user_id) {
            Some(entry) => Some(subscribe_to(entry_sender(&entry))),
            None => None,
        };
        match existing {
            Some(receiver) => {
                assert(self.users().insert(user_id) =~= self.users());
                Subscription { user_id, receiver }
            },
            None => {
                let (sender, receiver) = open_channel(CHANNEL_CAPACITY);
                map_insert(&mut self.users, user_id, sender);
                assert(self.users() =~= old(self).users().insert(user_id));
                Subscription { user_id, receiver }
            },
        }
    }

    /// Publishes an event to one user, on the channel of the user's entry.
    /// A user without an entry is passed over. An entry whose channel
    /// reports no live connection is removed; no entry is removed in any
    /// other way, and every entry that stays keeps its channel.
    pub fn publish(&mut self, user_id: u64, event: &Arc<AppEvent>) -> (delivery: Delivery)
        ensures
            match delivery {
                Delivery::NotConnected => {
                    &&& !old(self).users().contains(user_id)
                    &&& final(self).endpoints() == old(self).endpoints()
                },
                Delivery::Delivered(n) => {
                    &&& old(self).users().contains(user_id)
                    &&& final(self).endpoints() == old(self).endpoints()
                    &&& n >= 1
                },
                Delivery::Reclaimed => {
                    &&& old(self).users().contains(user_id)
                    &&& final(self).endpoints() == old(self).endpoints().remove(user_id)
                    &&& final(self).users() == old(self).users().remove(user_id)
                },
            },
    {
        proof {
            use_type_invariant(&*self);
        }
        let sent = match map_get(&self.users, user_id) {
            Some(entry) => Some(entry_sender(&entry).send(share(event)).ok()),
            None => None,
        };
        match sent {
            None => Delivery::NotConnected,
            Some(receivers) => {
                let delivery = delivery_of(receivers);
                if let Delivery::Reclaimed = delivery {
                    map_remove(&mut self.users, user_id);
                    assert(self.users() =~= old(self).users().remove(user_id));
                }
                delivery
            },
        }
    }

    /// Publishes the event of a notification to every user that it
    /// concerns, and reports how they were served. Entries of other users
    /// are left alone.
    pub fn publish_all(&mut self, notification: &Notification) -> (report: Report)
        ensures
            fanned_out(old(self).users(), final(self).users(), notification@.user_ids, report),
            kept(old(self).endpoints(), final(self).endpoints()),
    {
        proof {
            use_type_invariant(&*self);
        }
        let ghost before = self.users();
        let ghost channels = self.endpoints();
        assert(kept(channels, self.endpoints())) by {
            assert(self.endpoints() =~= channels.restrict(self.endpoints().dom()));
        }
        let total = notification.user_ids.len();
        let mut report = Report { delivered: 0, reclaimed: 0, not_connected: 0 };
        let ghost mut served: Set<u64> = Set::empty();
        assert(before.difference(self.users()) =~= Set::<u64>::empty());
        assert(served.difference(before) =~= Set::<u64>::empty());
        for user_id in it: notification.user_ids.iter()
            invariant
                total == notification.user_ids@.len(),
                it.seq().len() == notification.user_ids@.len(),
                it.seq().unref().to_set() == notification.user_ids@,
                it.seq().unref().no_duplicates(),
                served == it.seq().unref().take(it.index() as int).to_set(),
                it.index() == it.seq().len() ==> served == notification.user_ids@,
                served.finite(),
                before.finite(),
                self.users().subset_of(before),
                same_outside(self.users(), before, served),
                kept(channels, self.endpoints()),
                report.delivered + report.reclaimed + report.not_connected == it.index(),
                report.not_connected == served.difference(before).len(),
                report.reclaimed == before.difference(self.users()).len(),
        {
            let ghost order = it.seq().unref();
            let ghost k = it.index() as int;
            let ghost users = self.users();
            let ghost current = self.endpoints();
            proof {
                let prev = order.take(k);
                let next = order.take(k + 1);
                assert(order[k] == *user_id);
                if k + 1 == order.len() {
                    assert(next =~= order);
                }
                assert(!served.contains(*user_id)) by {
                    if prev.contains(*user_id) {
                        let j = choose|j: int| 0 <= j < prev.len() && #[trigger] prev[j] == *user_id;
                        assert(order[j] == order[k]);
                    }
                }
                assert(next.to_set() =~= served.insert(*user_id)) by {
                    assert forall|u: u64| next.contains(u) implies served.insert(*user_id).contains(
                        u,
                    ) by {
                        let j = choose|j: int| 0 <= j < next.len() && #[trigger] next[j] == u;
                        if j < k {
                            assert(prev[j] == u);
                        }
                    }
                    assert forall|u: u64| served.insert(*user_id).contains(u) implies next.contains(
                        u,
                    ) by {
                        if u == *user_id {
                            assert(next[k] == u);
                        } else {
                            let j = choose|j: int| 0 <= j < prev.len() && #[trigger] prev[j] == u;
                            assert(next[j] == u);
                        }
                    }
                }
            }
            match self.publish(*user_id, &notification.event) {
                Delivery::NotConnected => {
                    proof {
                        assert(served.insert(*user_id).difference(before) =~= served.difference(
                            before,
                        ).insert(*user_id));
                    }
                    report.not_connected = report.not_connected + 1;
                },
                Delivery::Delivered(_) => {
                    proof {
                        assert(served.insert(*user_id).difference(before) =~= served.difference(
                            before,
                        ));
                    }
                    report.delivered = report.delivered + 1;
                },
                Delivery::Reclaimed => {
                    proof {
                        assert(served.insert(*user_id).difference(before) =~= served.difference(
                            before,
                        ));
                        assert(before.difference(self.users()) =~= before.difference(users).insert(
                            *user_id,
                        ));
                        assert(self.endpoints() =~= channels.restrict(self.endpoints().dom()));
                    }
                    report.reclaimed = report.reclaimed + 1;
                },
            }
            proof {
                served = served.insert(*user_id);
            }
        }
        report
    }

    /// Handles one record of the store: translates it and publishes the
    /// event to the users that it concerns. A record that cannot be
    /// translated changes nothing.
    pub fn dispatch(&mut self, channel: &str, payload: &str) -> (served: Result<
        Report,
        TranslateError,
    >)
        ensures
            match served {
                Ok(report) => {
                    &&& translate(channel@, payload@) matches Ok(n)
                    &&& fanned_out(old(self).users(), final(self).users(), n.user_ids, report)
                    &&& kept(old(self).endpoints(), final(self).endpoints())
                },
                Err(e) => {
                    &&& translate(channel@, payload@) == Err::<NotificationView, TranslateError>(e)
                    &&& final(self).endpoints() == old(self).endpoints()
                },
            },
    {
        match Notification::load(channel, payload) {
            Ok(notification) => Ok(self.publish_all(&notification)),
            Err(e) => Err(e),
        }
    }
}

} // verus!
