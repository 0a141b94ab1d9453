use vstd::prelude::*;
use vstd::string::*;
use crate::message::Message;
use crate::command::{not_connected, not_connected_text};
use crate::text::join_seq;
use crate::channel::{
    broadcast_channel, broadcast_outcome, broadcast_send, lemma_broadcast_outcome, broadcast_subscribe, mpsc_channel,
    SendError,
};
use std::sync::Arc;
use tokio::sync::broadcast;
use tokio::sync::mpsc;

verus! {

/// The names in `entries`, in order.
pub open spec fn entry_names<T>(entries: Seq<(String, T)>) -> Seq<Seq<char>> {
    entries.map_values(|e: (String, T)| e.0@)
}

/// No name occurs twice in `entries`.
pub open spec fn unique_names<T>(entries: Seq<(String, T)>) -> bool {
    forall|i: int, j: int|
        0 <= i < entries.len() && 0 <= j < entries.len() && i != j ==> #[trigger] entries[i].0@
            != #[trigger] entries[j].0@
}

/// The map from each name to the value registered under it.
pub open spec fn entry_map<T>(entries: Seq<(String, T)>) -> Map<Seq<char>, T> {
    Map::new(
        |k: Seq<char>| exists|i: int| 0 <= i < entries.len() && entries[i].0@ == k,
        |k: Seq<char>|
            entries[choose|i: int| 0 <= i < entries.len() && entries[i].0@ == k].1,
    )
}

pub proof fn lemma_entry_map_at<T>(entries: Seq<(String, T)>, i: int)
    requires
        unique_names(entries),
        0 <= i < entries.len(),
    ensures
        entry_map(entries).contains_key(entries[i].0@),
        entry_map(entries)[entries[i].0@] == entries[i].1,
{
    let k = entries[i].0@;
    assert(exists|j: int| 0 <= j < entries.len() && entries[j].0@ == k);
    let j = choose|j: int| 0 <= j < entries.len() && entries[j].0@ == k;
    assert(j == i);
}


/// `entry_map(entries)` is `m` when both have the same names and every
/// entry's value is what `m` holds for its name.
pub proof fn lemma_entry_map_ext<T>(entries: Seq<(String, T)>, m: Map<Seq<char>, T>)
    requires
        unique_names(entries),
        forall|k: Seq<char>|
            m.contains_key(k) <==> exists|i: int| 0 <= i < entries.len() && entries[i].0@ == k,
        forall|i: int| 0 <= i < entries.len() ==> m[#[trigger] entries[i].0@] == entries[i].1,
    ensures
        entry_map(entries) == m,
{
    assert forall|k: Seq<char>| #[trigger] entry_map(entries).contains_key(k) implies entry_map(
        entries,
    )[k] == m[k] by {
        let i = choose|i: int| 0 <= i < entries.len() && entries[i].0@ == k;
        lemma_entry_map_at(entries, i);
    }
    assert(entry_map(entries) =~= m);
}

/// Removing the entry at `i` removes its name from the map.
pub proof fn lemma_entry_map_remove<T>(entries: Seq<(String, T)>, i: int)
    requires
        unique_names(entries),
        0 <= i < entries.len(),
    ensures
        unique_names(entries.remove(i)),
        entry_map(entries.remove(i)) == entry_map(entries).remove(entries[i].0@),
        forall|a: int| 0 <= a < entries.remove(i).len() ==> #[trigger] entries.remove(i)[a].0@
            != entries[i].0@,
{
    let r = entries.remove(i);
    let p = entries[i].0@;
    let m = entry_map(entries).remove(p);
    assert forall|a: int| 0 <= a < r.len() implies r[a] == entries[if a < i {
        a
    } else {
        a + 1
    }] by {}
    assert forall|a: int, b: int| 0 <= a < r.len() && 0 <= b < r.len() && a != b implies #[trigger] r[a].0@
        != #[trigger] r[b].0@ by {
        let a0 = if a < i { a } else { a + 1 };
        let b0 = if b < i { b } else { b + 1 };
        assert(r[a] == entries[a0] && r[b] == entries[b0]);
    }
    assert forall|a: int| 0 <= a < r.len() implies #[trigger] r[a].0@ != p by {
        let a0 = if a < i { a } else { a + 1 };
        assert(r[a] == entries[a0]);
    }
    assert forall|k: Seq<char>| m.contains_key(k) <==> exists|a: int| 0 <= a < r.len() && r[a].0@ == k by {
        if m.contains_key(k) {
            let j = choose|j: int| 0 <= j < entries.len() && entries[j].0@ == k;
            let a = if j < i { j } else { j - 1 };
            assert(j != i);
            assert(r[a] == entries[j]);
        }
        if exists|a: int| 0 <= a < r.len() && r[a].0@ == k {
            let a = choose|a: int| 0 <= a < r.len() && r[a].0@ == k;
            let a0 = if a < i { a } else { a + 1 };
            assert(r[a] == entries[a0]);
            assert(entry_map(entries).contains_key(k));
        }
    }
    assert forall|a: int| 0 <= a < r.len() implies m[#[trigger] r[a].0@] == r[a].1 by {
        let a0 = if a < i { a } else { a + 1 };
        assert(r[a] == entries[a0]);
        lemma_entry_map_at(entries, a0);
    }
    lemma_entry_map_ext(r, m);
}

/// Appending an entry under a fresh name adds that name to the map.
pub proof fn lemma_entry_map_push<T>(entries: Seq<(String, T)>, name: String, v: T)
    requires
        unique_names(entries),
        forall|a: int| 0 <= a < entries.len() ==> #[trigger] entries[a].0@ != name@,
    ensures
        unique_names(entries.push((name, v))),
        entry_map(entries.push((name, v))) == entry_map(entries).insert(name@, v),
{
    let e = entries.push((name, v));
    let m = entry_map(entries).insert(name@, v);
    let n = entries.len() as int;
    assert forall|a: int, b: int| 0 <= a < e.len() && 0 <= b < e.len() && a != b implies #[trigger] e[a].0@
        != #[trigger] e[b].0@ by {
        if a < n && b < n {
            assert(e[a] == entries[a] && e[b] == entries[b]);
        } else if a < n {
            assert(e[a] == entries[a]);
        } else {
            assert(e[b] == entries[b]);
        }
    }
    assert forall|k: Seq<char>| m.contains_key(k) <==> exists|a: int| 0 <= a < e.len() && e[a].0@ == k by {
        if m.contains_key(k) {
            if k == name@ {
                assert(e[n].0@ == k);
            } else {
                let j = choose|j: int| 0 <= j < entries.len() && entries[j].0@ == k;
                assert(e[j] == entries[j]);
            }
        }
        if exists|a: int| 0 <= a < e.len() && e[a].0@ == k {
            let a = choose|a: int| 0 <= a < e.len() && e[a].0@ == k;
            if a < n {
                assert(e[a] == entries[a]);
                assert(entry_map(entries).contains_key(k));
            }
        }
    }
    assert forall|a: int| 0 <= a < e.len() implies m[#[trigger] e[a].0@] == e[a].1 by {
        if a < n {
            assert(e[a] == entries[a]);
            lemma_entry_map_at(entries, a);
        }
    }
    lemma_entry_map_ext(e, m);
}

/// After `register_client(peer, tx)` the client is reached through `tx`, and
/// every other client as before.
pub proof fn law_register_then_lookup<T>(clients: Map<Seq<char>, T>, peer: Seq<char>, tx: T)
    ensures
        clients.insert(peer, tx).contains_key(peer),
        clients.insert(peer, tx)[peer] == tx,
        forall|other: Seq<char>|
            other != peer ==> (#[trigger] clients.insert(peer, tx).contains_key(other)
                <==> clients.contains_key(other)) && (clients.contains_key(other) ==> clients.insert(
                peer,
                tx,
            )[other] == clients[other]),
{
}

/// Registering a new client and unregistering it leaves the registry as it was.
pub proof fn law_unregister_undoes_register<T>(clients: Map<Seq<char>, T>, peer: Seq<char>, tx: T)
    requires
        !clients.contains_key(peer),
    ensures
        clients.insert(peer, tx).remove(peer) == clients,
{
    assert(clients.insert(peer, tx).remove(peer) =~= clients);
}

/// After `unregister_client(peer)` no private message can be routed to `peer`,
/// and unregistering again changes nothing.
pub proof fn law_unregister_removes<T>(clients: Map<Seq<char>, T>, peer: Seq<char>)
    ensures
        !clients.remove(peer).contains_key(peer),
        clients.remove(peer).remove(peer) == clients.remove(peer),
{
    assert(clients.remove(peer).remove(peer) =~= clients.remove(peer));
}

/// Registering under a name twice keeps only the latest handle.
pub proof fn law_register_replaces<T>(clients: Map<Seq<char>, T>, peer: Seq<char>, first: T, second: T)
    ensures
        clients.insert(peer, first).insert(peer, second) == clients.insert(peer, second),
{
    assert(clients.insert(peer, first).insert(peer, second) =~= clients.insert(peer, second));
}

/// The clients connected to the server, each under its peer name, with the
/// handle that reaches it. A name is registered at most once.
pub struct ClientRegistry<T> {
    entries: Vec<(String, T)>,
}

impl<T> View for ClientRegistry<T> {
    type V = Map<Seq<char>, T>;

    closed spec fn view(&self) -> Map<Seq<char>, T> {
        entry_map(self.entries@)
    }
}

impl<T> ClientRegistry<T> {
    /// Well-formed: no name is registered twice.
    pub closed spec fn wf(&self) -> bool {
        unique_names(self.entries@)
    }


    /// An empty registry.
    pub fn new() -> (r: Self)
        ensures
            r.wf(),
            r@ == Map::<Seq<char>, T>::empty(),
    {
        let r = ClientRegistry { entries: Vec::new() };
        assert(r@ =~= Map::<Seq<char>, T>::empty());
        r
    }

    /// Where `peer` stands in the entries, if it is registered.
    fn position(&self, peer: &String) -> (pos: Option<usize>)
        ensures
            match pos {
                Some(i) => i < self.entries@.len() && self.entries@[i as int].0@ == peer@,
                None => forall|i: int|
                    0 <= i < self.entries@.len() ==> self.entries@[i].0@ != peer@,
            },
    {
        let n = self.entries.len();
        for i in 0..n
            invariant
                n == self.entries@.len(),
                forall|j: int| 0 <= j < i ==> self.entries@[j].0@ != peer@,
        {
            if self.entries[i].0 == *peer {
                return Some(i);
            }
        }
        None
    }

    /// Registers `tx` under `peer`, replacing what was registered under it.
    pub fn register_client(&mut self, peer: &str, tx: T)
        requires
            old(self).wf(),
        ensures
            final(self).wf(),
            final(self)@ == old(self)@.insert(peer@, tx),
    {
        let name = peer.to_owned();
        let ghost before = self.entries@;
        match self.position(&name) {
            Some(i) => {
                proof {
                    lemma_entry_map_remove(before, i as int);
                }
                self.entries.remove(i);
            },
            None => {
                proof {
                    assert(entry_map(before).remove(peer@) =~= entry_map(before));
                }
            },
        }
        let ghost mid = self.entries@;
        proof {
            lemma_entry_map_push(mid, name, tx);
            assert(entry_map(before).remove(peer@).insert(peer@, tx) =~= entry_map(before).insert(
                peer@,
                tx,
            ));
        }
        self.entries.push((name, tx));
    }

    /// Removes whatever is registered under `peer`.
    pub fn unregister_client(&mut self, peer: &str)
        requires
            old(self).wf(),
        ensures
            final(self).wf(),
            final(self)@ == old(self)@.remove(peer@),
    {
        let name = peer.to_owned();
        let ghost before = self.entries@;
        match self.position(&name) {
            Some(i) => {
                proof {
                    lemma_entry_map_remove(before, i as int);
                }
                self.entries.remove(i);
            },
            None => {
                proof {
                    assert(entry_map(before).remove(peer@) =~= entry_map(before));
                }
            },
        }
    }

    /// The handle registered under `peer`, if any.
    pub fn get(&self, peer: &str) -> (tx: Option<&T>)
        requires
            self.wf(),
        ensures
            match tx {
                Some(t) => self@.contains_key(peer@) && *t == self@[peer@],
                None => !self@.contains_key(peer@),
            },
    {
        let name = peer.to_owned();
        match self.position(&name) {
            Some(i) => {
                proof {
                    lemma_entry_map_at(self.entries@, i as int);
                }
                Some(&self.entries[i].1)
            },
            None => None,
        }
    }

    /// The registered names joined by `, `.
    pub fn list_clients(&self) -> (list: String)
        requires
            self.wf(),
        ensures
            list@ == join_seq(self.names(), ", "@),
    {
        let mut list = String::new();
        let n = self.entries.len();
        let ghost names = self.names();
        for i in 0..n
            invariant
                n == self.entries@.len(),
                names == entry_names(self.entries@),
                list@ == join_seq(names.take(i as int), ", "@),
        {
            assert(names.take(i + 1).drop_last() =~= names.take(i as int));
            assert(names[i as int] == self.entries@[i as int].0@);
            if i > 0 {
                list.append(", ");
            } else {
                assert(names.take(0) =~= Seq::<Seq<char>>::empty());
            }
            list.append(self.entries[i].0.as_str());
        }
        assert(names.take(n as int) =~= names);
        list
    }

    /// Where a private message from `from` to `to` goes: the handle of `to` and
    /// the message to hand it, or the error text when `to` is not connected.
    pub fn route_private(&self, from: &str, to: &str, body: &str) -> (route: Result<
        (&T, Message),
        String,
    >)
        requires
            self.wf(),
        ensures
            match route {
                Ok((tx, msg)) => {
                    &&& self@.contains_key(to@)
                    &&& *tx == self@[to@]
                    &&& msg is Private
                    &&& msg->Private_from@ == from@
                    &&& msg->Private_body@ == body@
                },
                Err(e) => !self@.contains_key(to@) && e@ == not_connected_text(to@),
            },
    {
        match self.get(to) {
            Some(tx) => Ok((tx, Message::Private { from: from.to_owned(), body: body.to_owned() })),
            None => Err(not_connected(to)),
        }
    }

    /// The registered names, in the order in which they are listed.
    pub closed spec fn names(&self) -> Seq<Seq<char>> {
        entry_names(self.entries@)
    }

    /// The listing names every registered client exactly once, and no one else.
    pub proof fn law_each_client_listed_once(&self)
        requires
            self.wf(),
        ensures
            self.names().no_duplicates(),
            forall|k: Seq<char>| self@.contains_key(k) <==> self.names().contains(k),
            self.names().len() == self@.len(),
    {
        let e = self.entries@;
        let n = self.names();
        assert forall|i: int, j: int| 0 <= i < n.len() && 0 <= j < n.len() && i != j implies n[i]
            != n[j] by {
            assert(n[i] == e[i].0@ && n[j] == e[j].0@);
        }
        assert forall|k: Seq<char>| self@.contains_key(k) <==> n.contains(k) by {
            if self@.contains_key(k) {
                let i = choose|i: int| 0 <= i < e.len() && e[i].0@ == k;
                assert(n[i] == k);
            }
            if n.contains(k) {
                let i = choose|i: int| 0 <= i < n.len() && n[i] == k;
                assert(e[i].0@ == k);
            }
        }
        n.unique_seq_to_set();
        assert(n.to_set() =~= self@.dom());
    }
}

/// The outcome of a private message to `to` once its queue has answered: a
/// delivered message is `Ok`, a closed queue reads as a user who is not connected.
pub fn delivery_result(to: &str, delivered: bool) -> (r: Result<(), String>)
    ensures
        delivered ==> r is Ok,
        !delivered ==> (r matches Err(e) && e@ == not_connected_text(to@)),
{
    if delivered {
        Ok(())
    } else {
        Err(not_connected(to))
    }
}

/// How many broadcast messages a lagging receiver may fall behind by.
pub const BROADCAST_CAPACITY: usize = 64;

/// How many private messages may wait for one client.
pub const PRIVATE_CAPACITY: usize = 64;

/// The hub every connection talks through: one broadcast channel that all
/// connections subscribe to, and the private queues it hands out.
pub struct Router {
    broadcaster: broadcast::Sender<Message>,
}

impl Router {
    /// A router whose broadcast channel holds `BROADCAST_CAPACITY` messages.
    pub fn new() -> (r: Router) {
        let (broadcaster, _first_receiver) = broadcast_channel(BROADCAST_CAPACITY);
        Router { broadcaster }
    }

    /// A receiver of every message broadcast from now on.
    pub fn subscribe(&self) -> broadcast::Receiver<Message> {
        broadcast_subscribe(&self.broadcaster)
    }

    /// The sending half of the broadcast channel.
    pub closed spec fn broadcaster(&self) -> broadcast::Sender<Message> {
        self.broadcaster
    }

    /// Sends exactly `msg` on the broadcast channel, to every subscribed
    /// receiver; with none subscribed the message comes back in the error.
    pub fn broadcast(&self, msg: Message) -> (r: Result<(), SendError>)
        ensures
            r matches Err(e) ==> e.0 == msg,
            broadcast_outcome(self.broadcaster(), msg, r),
    {
        let sent = broadcast_send(&self.broadcaster, msg);
        let r = match sent {
            Ok(_) => Ok(()),
            Err(e) => Err(e),
        };
        proof {
            lemma_broadcast_outcome(self.broadcaster, msg, sent);
        }
        r
    }

    /// A new private queue of `PRIVATE_CAPACITY` messages for one client.
    pub fn new_private_channel(&self) -> (mpsc::Sender<Message>, mpsc::Receiver<Message>) {
        mpsc_channel(PRIVATE_CAPACITY)
    }
}

} // verus!
