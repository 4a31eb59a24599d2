//! The connections that are open, by user.

use std::collections::HashMap;

use tokio::sync::mpsc;
use vstd::prelude::*;
use vstd::std_specs::hash::*;

use crate::ids::{is_version_7, new_id, Id};

verus! {

/// How many texts may wait to be taken from a connection.
pub const CONNECTION_BUFFER: usize = 64;

#[verifier::external_type_specification]
#[verifier::external_body]
#[verifier::reject_recursive_types(T)]
pub struct ExSender<T>(tokio::sync::mpsc::Sender<T>);

#[verifier::external_type_specification]
#[verifier::external_body]
#[verifier::reject_recursive_types(T)]
pub struct ExReceiver<T>(tokio::sync::mpsc::Receiver<T>);

/// How many texts a channel was made to hold.
pub uninterp spec fn buffer_of(sender: tokio::sync::mpsc::Sender<String>) -> usize;

/// Whether the two are ends of one channel: what is sent by the one is taken from the other.
pub uninterp spec fn linked(
    sender: tokio::sync::mpsc::Sender<String>,
    receiver: tokio::sync::mpsc::Receiver<String>,
) -> bool;

/// What was handed to a channel by this handle, in order: each text, and whether the channel took
/// it.
pub uninterp spec fn handed_to(sender: tokio::sync::mpsc::Sender<String>) -> Seq<(Seq<char>, bool)>;

/// Calls `tokio::sync::mpsc::channel` for texts. Claimed of it: the channel holds as many texts
/// as asked for, the two results are its two ends, nothing was handed to it yet, and it is a new
/// one, so that no handle that was there before the call, such as those in `earlier`, sends into
/// it. The call panics for a channel that holds nothing, or more than an eighth of what a `usize`
/// counts, so those are left out.
#[allow(unused_variables)]
#[verifier::external_body]
fn channel(buffer: usize, earlier: &HashMap<Id, HashMap<Id, mpsc::Sender<String>>>) -> (r: (
    mpsc::Sender<String>,
    mpsc::Receiver<String>,
))
    requires
        0 < buffer <= 0x1fff_ffff,
    ensures
        buffer_of(r.0) == buffer,
        linked(r.0, r.1),
        handed_to(r.0) == Seq::<(Seq<char>, bool)>::empty(),
        forall|user_id: Id, connection_id: Id|
            earlier@.contains_key(user_id) && earlier@[user_id]@.contains_key(connection_id)
                ==> !linked(#[trigger] earlier@[user_id]@[connection_id], r.1),
{
    mpsc::channel(buffer)
}

/// Whether `after` is what `before` became when one text was handed to its channel, which took it
/// or not: it is still a handle of the same channel.
pub open spec fn handed_on(
    before: mpsc::Sender<String>,
    after: mpsc::Sender<String>,
    text: Seq<char>,
    taken: bool,
) -> bool {
    &&& handed_to(after) == handed_to(before).push((text, taken))
    &&& buffer_of(after) == buffer_of(before)
    &&& forall|receiver: mpsc::Receiver<String>| #[trigger]
        linked(after, receiver) == linked(before, receiver)
}

/// Calls `tokio::sync::mpsc::Sender::try_send` with a copy of the text, and tells whether it
/// succeeded. Claimed of it: that text, and nothing else, is handed once to the channel of this
/// handle, and the channel takes it or not as the result says. Whether it does is left unsaid:
/// that depends on what the receiving end has taken, and on whether it is still there.
#[verifier::external_body]
fn try_push(sender: &mut mpsc::Sender<String>, text: &str) -> (r: bool)
    ensures
        handed_on(*old(sender), *final(sender), text@, r),
{
    sender.try_send(text.to_string()).is_ok()
}

/// The connections of one user, by their identifiers.
pub type Connections = Map<Id, mpsc::Sender<String>>;

/// The connections of a user; none where there is no entry.
pub open spec fn connections_of(hub: Map<Id, Connections>, user_id: Id) -> Connections {
    if hub.contains_key(user_id) {
        hub[user_id]
    } else {
        Map::empty()
    }
}

/// The hub with one more connection.
pub open spec fn attached(
    hub: Map<Id, Connections>,
    user_id: Id,
    connection_id: Id,
    sender: mpsc::Sender<String>,
) -> Map<Id, Connections> {
    hub.insert(user_id, connections_of(hub, user_id).insert(connection_id, sender))
}

/// The hub without a connection; a user whose last connection it was has no entry any more.
pub open spec fn detached(hub: Map<Id, Connections>, user_id: Id, connection_id: Id) -> Map<
    Id,
    Connections,
> {
    let left = connections_of(hub, user_id).remove(connection_id);
    if left.dom() =~= Set::empty() {
        hub.remove(user_id)
    } else {
        hub.insert(user_id, left)
    }
}

/// Whether a channel took the text that was handed to it last by this handle.
pub open spec fn took(sender: mpsc::Sender<String>) -> bool {
    let (_, taken) = handed_to(sender).last();
    taken
}

/// The connections whose channel took the text that was handed to it last.
pub open spec fn takers(connections: Connections) -> Set<Id> {
    connections.dom().filter(|connection_id: Id| took(connections[connection_id]))
}

/// Whether `after` is what the connections `before` became when a text was handed to each of them,
/// once and nothing else.
pub open spec fn pushed(before: Connections, after: Connections, text: Seq<char>) -> bool {
    &&& after.dom() == before.dom()
    &&& forall|connection_id: Id| #[trigger]
        before.contains_key(connection_id) ==> handed_on(
            before[connection_id],
            after[connection_id],
            text,
            took(after[connection_id]),
        )
}

/// Whether `after` is what the hub `before` became when a text was sent to a user: it was handed
/// to each connection of that user and to nobody else's, and `count` of them took it.
pub open spec fn sent_to(
    before: Map<Id, Connections>,
    after: Map<Id, Connections>,
    user_id: Id,
    text: Seq<char>,
    count: nat,
) -> bool {
    &&& after.dom() == before.dom()
    &&& forall|other: Id|
        other != user_id ==> #[trigger] connections_of(after, other) == connections_of(
            before,
            other,
        )
    &&& pushed(connections_of(before, user_id), connections_of(after, user_id), text)
    &&& count == takers(connections_of(after, user_id)).len()
}

/// Whether a text was sent to the users, one after the other: `hubs` holds what the hub was before
/// the first of them and after each.
pub open spec fn sent_in_turn(
    hubs: Seq<Map<Id, Connections>>,
    user_ids: Seq<Id>,
    text: Seq<char>,
    counts: Seq<usize>,
) -> bool {
    &&& hubs.len() == user_ids.len() + 1
    &&& counts.len() == user_ids.len()
    &&& forall|i: int|
        0 <= i < user_ids.len() ==> #[trigger] sent_to(
            hubs[i],
            hubs[i + 1],
            user_ids[i],
            text,
            counts[i] as nat,
        )
}

/// Whether the user has the connection, and what is sent to it is taken from `receiver`.
pub open spec fn is_reached(
    hub: Map<Id, Connections>,
    user_id: Id,
    connection_id: Id,
    receiver: mpsc::Receiver<String>,
) -> bool {
    connections_of(hub, user_id).contains_key(connection_id) && linked(
        connections_of(hub, user_id)[connection_id],
        receiver,
    )
}

/// Hands a text to each of the connections, and counts those that took it.
fn push_all(connections: &mut HashMap<Id, mpsc::Sender<String>>, text: &str) -> (r: usize)
    ensures
        pushed(old(connections)@, final(connections)@, text@),
        r == takers(final(connections)@).len(),
        r <= old(connections)@.dom().len(),
{
    broadcast use group_hash_axioms;

    let ghost before = connections@;
    let mut ids: Vec<Id> = Vec::new();
    for id in it: connections.keys()
        invariant
            it.seq() == vstd::std_specs::iter::IteratorSpec::remaining(&connections.keys()),
            ids@.len() == it.index(),
            forall|i: int| 0 <= i < ids@.len() ==> #[trigger] ids@[i] == *it.seq()[i],
    {
        ids.push(*id);
    }
    assert(ids@ == vstd::std_specs::iter::IteratorSpec::remaining(&connections.keys()).unref());
    let mut r: usize = 0;
    let ghost mut done: Set<Id> = Set::empty();
    for i in 0..ids.len()
        invariant
            connections@.dom() == before.dom(),
            ids@.no_duplicates(),
            ids@.to_set() == before.dom(),
            forall|j: int|
                0 <= j < i ==> handed_on(
                    before[#[trigger] ids@[j]],
                    connections@[ids@[j]],
                    text@,
                    took(connections@[ids@[j]]),
                ),
            forall|j: int|
                i <= j < ids@.len() ==> connections@[#[trigger] ids@[j]] == before[ids@[j]],
            done.finite(),
            r == done.len(),
            r <= i,
            forall|id: Id| #[trigger]
                done.contains(id) <==> took(connections@[id]) && exists|j: int|
                    0 <= j < i && #[trigger] ids@[j] == id,
    {
        let id = ids[i];
        assert(ids@.to_set().contains(id));
        assert(!done.contains(id));
        match connections.remove(&id) {
            Some(sender) => {
                let mut sender = sender;
                if try_push(&mut sender, text) {
                    r = r + 1;
                    proof {
                        done = done.insert(id);
                    }
                }
                connections.insert(id, sender);
            },
            None => {},
        }
    }
    assert forall|id: Id| #[trigger] before.contains_key(id) implies exists|j: int|
        0 <= j < ids@.len() && #[trigger] ids@[j] == id by {
        assert(ids@.to_set().contains(id));
    }
    assert(done == takers(connections@));
    r
}

/// The connections that are open.
pub struct Hub {
    connections: HashMap<Id, HashMap<Id, mpsc::Sender<String>>>,
}

impl View for Hub {
    type V = Map<Id, Connections>;

    closed spec fn view(&self) -> Map<Id, Connections> {
        self.connections@.map_values(
            |connections: HashMap<Id, mpsc::Sender<String>>| connections@,
        )
    }
}

impl Default for Hub {
    fn default() -> (r: Hub)
        ensures
            r@ == Map::<Id, Connections>::empty(),
    {
        Hub::new()
    }
}

impl Hub {
    /// Nobody is listed without a connection.
    pub open spec fn wf(&self) -> bool {
        nobody_is_listed_in_vain(self@)
    }

    /// Without connections.
    pub fn new() -> (r: Hub)
        ensures
            r@ == Map::<Id, Connections>::empty(),
            r.wf(),
    {
        let r = Hub { connections: HashMap::new() };
        assert(r@ == Map::<Id, Connections>::empty());
        r
    }

    /// Adds a connection that texts go to by `sender`.
    fn attach(&mut self, user_id: Id, connection_id: Id, sender: mpsc::Sender<String>)
        ensures
            final(self)@ == attached(old(self)@, user_id, connection_id, sender),
            old(self).wf() ==> final(self).wf(),
    {
        broadcast use group_hash_axioms;

        let mut connections = match self.connections.remove(&user_id) {
            Some(connections) => connections,
            None => HashMap::new(),
        };
        assert(connections@ == connections_of(old(self)@, user_id));
        connections.insert(connection_id, sender);
        self.connections.insert(user_id, connections);
        proof {
            assert(self@ == attached(old(self)@, user_id, connection_id, sender));
            assert(self@[user_id].contains_key(connection_id));
        }
    }

    /// Opens a connection. The result is its identifier and the end that texts sent to it are
    /// taken from; nothing was sent to it yet, and no other connection leads there.
    pub fn register(&mut self, user_id: Id) -> (r: (Id, mpsc::Receiver<String>))
        ensures
            is_version_7(r.0),
            exists|sender: mpsc::Sender<String>| #[trigger]
                linked(sender, r.1) && buffer_of(sender) == CONNECTION_BUFFER && buffer_of(sender)
                    == 64 && handed_to(sender) == Seq::<(Seq<char>, bool)>::empty() && final(self)@ == attached(
                    old(self)@,
                    user_id,
                    r.0,
                    sender,
                ),
            forall|user: Id, connection: Id|
                !(#[trigger] is_reached(old(self)@, user, connection, r.1)),
            old(self).wf() ==> final(self).wf(),
    {
        let connection_id = new_id();
        let (sender, receiver) = channel(CONNECTION_BUFFER, &self.connections);
        let ghost pushed_by = sender;
        self.attach(user_id, connection_id, sender);
        let r = (connection_id, receiver);
        assert(linked(pushed_by, r.1));
        r
    }

    /// Closes a connection.
    pub fn unregister(&mut self, user_id: Id, connection_id: Id)
        ensures
            final(self)@ == detached(old(self)@, user_id, connection_id),
            old(self).wf() ==> final(self).wf(),
    {
        broadcast use group_hash_axioms;

        match self.connections.remove(&user_id) {
            Some(connections) => {
                let mut connections = connections;
                connections.remove(&connection_id);
                if !connections.is_empty() {
                    self.connections.insert(user_id, connections);
                }
            },
            None => {},
        }
        assert(self@ == detached(old(self)@, user_id, connection_id));
    }

    /// Pushes a text to every connection of a user. The result is how many took it.
    pub fn send_to(&mut self, user_id: Id, text: &str) -> (r: usize)
        ensures
            sent_to(old(self)@, final(self)@, user_id, text@, r as nat),
            r <= connections_of(old(self)@, user_id).dom().len(),
            !is_online(old(self)@, user_id) ==> r == 0 && final(self)@ == old(self)@,
            old(self).wf() ==> final(self).wf(),
    {
        broadcast use group_hash_axioms;

        let ghost before = self@;
        match self.connections.remove(&user_id) {
            Some(connections) => {
                let mut connections = connections;
                assert(connections@ == connections_of(before, user_id));
                let r = push_all(&mut connections, text);
                self.connections.insert(user_id, connections);
                proof {
                    assert(self@ == before.insert(user_id, connections@));
                    if !is_online(before, user_id) {
                        assert(connections@ =~= before[user_id]);
                        assert(self@ =~= before);
                    }
                }
                r
            },
            None => {
                assert(self@ == before);
                assert(takers(connections_of(before, user_id)) == Set::<Id>::empty());
                0
            },
        }
    }

    /// Pushes a text to every connection of the users, one user after the other. The result is
    /// how many of each user's connections took it.
    pub fn broadcast(&mut self, user_ids: &[Id], text: &str) -> (r: Vec<usize>)
        ensures
            exists|hubs: Seq<Map<Id, Connections>>| #[trigger]
                sent_in_turn(hubs, user_ids@, text@, r@) && hubs.first() == old(self)@
                    && hubs.last() == final(self)@,
            old(self).wf() ==> final(self).wf(),
    {
        let mut counts: Vec<usize> = Vec::new();
        let ghost mut hubs: Seq<Map<Id, Connections>> = seq![self@];
        for i in 0..user_ids.len()
            invariant
                counts@.len() == i,
                hubs.len() == i + 1,
                hubs.first() == old(self)@,
                hubs.last() == self@,
                old(self).wf() ==> self.wf(),
                forall|j: int|
                    0 <= j < i ==> #[trigger] sent_to(
                        hubs[j],
                        hubs[j + 1],
                        user_ids@[j],
                        text@,
                        counts@[j] as nat,
                    ),
        {
            counts.push(self.send_to(user_ids[i], text));
            proof {
                hubs = hubs.push(self@);
            }
        }
        assert(sent_in_turn(hubs, user_ids@, text@, counts@));
        counts
    }

    /// Whether a user has a connection.
    pub fn online(&self, user_id: Id) -> (r: bool)
        ensures
            r == is_online(self@, user_id),
            self.wf() ==> r == self@.contains_key(user_id),
    {
        broadcast use group_hash_axioms;

        match self.connections.get(&user_id) {
            Some(connections) => {
                assert(self@[user_id] == connections@);
                !connections.is_empty()
            },
            None => false,
        }
    }
}

/// Nobody is listed without a connection.
pub open spec fn nobody_is_listed_in_vain(hub: Map<Id, Connections>) -> bool {
    forall|user_id: Id| #[trigger]
        hub.contains_key(user_id) ==> hub[user_id].dom() != Set::<Id>::empty()
}

/// Whether a user has a connection.
pub open spec fn is_online(hub: Map<Id, Connections>, user_id: Id) -> bool {
    connections_of(hub, user_id).dom() != Set::<Id>::empty()
}

/// Opening a connection brings its user online and leaves everybody else as they were.
pub proof fn law_opening_brings_online(
    hub: Map<Id, Connections>,
    user_id: Id,
    connection_id: Id,
    sender: mpsc::Sender<String>,
)
    ensures
        is_online(attached(hub, user_id, connection_id, sender), user_id),
        connections_of(
            attached(hub, user_id, connection_id, sender),
            user_id,
        ).contains_key(connection_id),
        forall|other: Id|
            other != user_id ==> #[trigger] connections_of(
                attached(hub, user_id, connection_id, sender),
                other,
            ) == connections_of(hub, other),
{
    assert(connections_of(
        attached(hub, user_id, connection_id, sender),
        user_id,
    ).dom().contains(connection_id));
}

/// Closing a connection leaves the user's other connections, and everybody else's, as they were;
/// the user is online just as long as one is left.
pub proof fn law_closing_leaves_the_others(
    hub: Map<Id, Connections>,
    user_id: Id,
    connection_id: Id,
)
    ensures
        connections_of(detached(hub, user_id, connection_id), user_id) == connections_of(
            hub,
            user_id,
        ).remove(connection_id),
        is_online(detached(hub, user_id, connection_id), user_id) <==> exists|other: Id|
            other != connection_id && #[trigger] connections_of(hub, user_id).contains_key(other),
        forall|other: Id|
            other != user_id ==> #[trigger] connections_of(
                detached(hub, user_id, connection_id),
                other,
            ) == connections_of(hub, other),
{
    let left = connections_of(hub, user_id).remove(connection_id);
    if left.dom() =~= Set::empty() {
        assert(left =~= Map::empty());
        assert forall|other: Id| other != connection_id implies !(#[trigger] connections_of(
            hub,
            user_id,
        ).contains_key(other)) by {
            assert(!left.dom().contains(other));
        }
    } else {
        let other = left.dom().choose();
        assert(left.dom().contains(other));
        assert(connections_of(hub, user_id).contains_key(other));
    }
}

/// Closing a connection undoes its opening.
pub proof fn law_closing_undoes_opening(
    hub: Map<Id, Connections>,
    user_id: Id,
    connection_id: Id,
    sender: mpsc::Sender<String>,
)
    requires
        nobody_is_listed_in_vain(hub),
        !connections_of(hub, user_id).contains_key(connection_id),
    ensures
        detached(attached(hub, user_id, connection_id, sender), user_id, connection_id) == hub,
{
    let before = connections_of(hub, user_id);
    let left = before.insert(connection_id, sender).remove(connection_id);
    assert(left =~= before);
    if hub.contains_key(user_id) {
        assert(before.dom() != Set::<Id>::empty());
        assert(hub.insert(user_id, before.insert(connection_id, sender)).insert(user_id, before)
            =~= hub);
    } else {
        assert(hub.insert(user_id, before.insert(connection_id, sender)).remove(user_id) =~= hub);
    }
}

/// A text that is sent to a user is handed to each of their connections once, and nobody else's
/// connections are touched. As many are counted as took it: all of them just where each did, and
/// none where there is none. Who is online, and where each connection leads, stays as it was.
pub proof fn law_texts_go_to_one_user(
    before: Map<Id, Connections>,
    after: Map<Id, Connections>,
    user_id: Id,
    text: Seq<char>,
    count: nat,
)
    requires
        sent_to(before, after, user_id, text, count),
        connections_of(before, user_id).dom().finite(),
    ensures
        forall|connection_id: Id| #[trigger]
            connections_of(before, user_id).contains_key(connection_id) ==> handed_to(
                connections_of(after, user_id)[connection_id],
            ) == handed_to(connections_of(before, user_id)[connection_id]).push(
                (text, takers(connections_of(after, user_id)).contains(connection_id)),
            ),
        forall|other: Id|
            other != user_id ==> #[trigger] connections_of(after, other) == connections_of(
                before,
                other,
            ),
        count == connections_of(before, user_id).dom().filter(
            |connection_id: Id|
                handed_to(connections_of(after, user_id)[connection_id]) == handed_to(
                    connections_of(before, user_id)[connection_id],
                ).push((text, true)),
        ).len(),
        count <= connections_of(before, user_id).dom().len(),
        count == connections_of(before, user_id).dom().len() <==> forall|connection_id: Id|
            #[trigger] connections_of(before, user_id).contains_key(connection_id) ==> took(
                connections_of(after, user_id)[connection_id],
            ),
        !is_online(before, user_id) ==> after == before && count == 0,
        forall|user: Id| #[trigger] is_online(after, user) <==> is_online(before, user),
        forall|user: Id, connection: Id, receiver: mpsc::Receiver<String>| #[trigger]
            is_reached(after, user, connection, receiver) <==> is_reached(
                before,
                user,
                connection,
                receiver,
            ),
{
    let open = connections_of(before, user_id);
    let end = connections_of(after, user_id);
    let counted = takers(end);
    let served = open.dom().filter(
        |connection_id: Id|
            handed_to(end[connection_id]) == handed_to(open[connection_id]).push((text, true)),
    );
    assert(served =~= counted) by {
        assert forall|connection_id: Id| served.contains(connection_id) <==> counted.contains(
            connection_id,
        ) by {
            if open.contains_key(connection_id) {
                assert(handed_to(end[connection_id]).last() == (
                    text,
                    took(end[connection_id]),
                ));
            }
            assert(end.dom().contains(connection_id) == open.dom().contains(connection_id));
        }
    }
    vstd::set_lib::lemma_len_subset(counted, end.dom());
    if count == open.dom().len() {
        vstd::set_lib::lemma_subset_equality(counted, end.dom());
        assert forall|connection_id: Id| #[trigger] open.contains_key(connection_id) implies took(
            end[connection_id],
        ) by {
            assert(counted.contains(connection_id));
        }
    }
    if forall|connection_id: Id| #[trigger]
        open.contains_key(connection_id) ==> took(end[connection_id]) {
        assert(counted == end.dom()) by {
            assert forall|connection_id: Id| end.dom().contains(
                connection_id,
            ) implies counted.contains(connection_id) by {
                assert(open.contains_key(connection_id));
            }
        }
    }
    assert forall|user: Id| #[trigger] is_online(after, user) <==> is_online(before, user) by {
        if user != user_id {
            assert(connections_of(after, user) == connections_of(before, user));
        }
    }
    if !is_online(before, user_id) {
        assert(open.dom() == Set::<Id>::empty());
        assert(end =~= open);
        assert(counted == Set::<Id>::empty());
        assert forall|user: Id| #[trigger] before.contains_key(user) implies after[user]
            == before[user] by {
            assert(connections_of(after, user) == connections_of(before, user));
        }
        assert(after =~= before);
    }
    assert forall|user: Id, connection: Id, receiver: mpsc::Receiver<String>| #[trigger]
        is_reached(after, user, connection, receiver) <==> is_reached(
            before,
            user,
            connection,
            receiver,
        ) by {
        if user == user_id {
            if open.contains_key(connection) {
                assert(linked(end[connection], receiver) == linked(open[connection], receiver));
            }
            assert(end.contains_key(connection) == end.dom().contains(connection));
            assert(open.contains_key(connection) == open.dom().contains(connection));
        } else {
            assert(connections_of(after, user) == connections_of(before, user));
        }
    }
}

/// The first text that is sent to a user after a connection was opened is the first that is handed
/// to it, and is taken from its own receiving end. It is counted besides the user's connections
/// that were there before, which are handed the text as well.
pub proof fn law_opened_connections_are_reached(
    hub: Map<Id, Connections>,
    user_id: Id,
    connection_id: Id,
    sender: mpsc::Sender<String>,
    receiver: mpsc::Receiver<String>,
    after: Map<Id, Connections>,
    text: Seq<char>,
    count: nat,
)
    requires
        linked(sender, receiver),
        handed_to(sender) == Seq::<(Seq<char>, bool)>::empty(),
        connections_of(hub, user_id).dom().finite(),
        sent_to(attached(hub, user_id, connection_id, sender), after, user_id, text, count),
    ensures
        ({
            let end = connections_of(after, user_id);
            &&& is_reached(after, user_id, connection_id, receiver)
            &&& handed_to(end[connection_id]) == seq![(text, took(end[connection_id]))]
            &&& count == takers(end.remove(connection_id)).len() + if took(end[connection_id]) {
                1nat
            } else {
                0nat
            }
            &&& forall|other: Id|
                other != connection_id && #[trigger] connections_of(hub, user_id).contains_key(
                    other,
                ) ==> end.contains_key(other) && handed_on(
                    connections_of(hub, user_id)[other],
                    end[other],
                    text,
                    took(end[other]),
                )
        }),
{
    let opened = attached(hub, user_id, connection_id, sender);
    let open = connections_of(opened, user_id);
    let end = connections_of(after, user_id);
    law_texts_go_to_one_user(opened, after, user_id, text, count);
    assert(open.contains_key(connection_id));
    assert(is_reached(opened, user_id, connection_id, receiver));
    assert(handed_on(sender, end[connection_id], text, took(end[connection_id])));
    let rest = end.remove(connection_id);
    assert(takers(rest) == takers(end).remove(connection_id));
    vstd::set_lib::lemma_len_subset(takers(end), end.dom());
    assert forall|other: Id|
        other != connection_id && #[trigger] connections_of(hub, user_id).contains_key(
            other,
        ) implies end.contains_key(other) && handed_on(
        connections_of(hub, user_id)[other],
        end[other],
        text,
        took(end[other]),
    ) by {
        assert(open.contains_key(other));
        assert(end.dom().contains(other));
    }
}

/// Once a connection that was opened is closed again, no connection of anybody leads to its
/// receiving end, so that no later text gets there; whatever happened to the hub meanwhile, as
/// long as it let no other connection lead there, which holds of sending and of closing.
pub proof fn law_closed_connections_are_not_reached(
    hub: Map<Id, Connections>,
    user_id: Id,
    connection_id: Id,
    sender: mpsc::Sender<String>,
    receiver: mpsc::Receiver<String>,
    later: Map<Id, Connections>,
)
    requires
        forall|user: Id, connection: Id|
            !(#[trigger] is_reached(hub, user, connection, receiver)),
        forall|user: Id, connection: Id| #[trigger]
            is_reached(later, user, connection, receiver) ==> is_reached(
                attached(hub, user_id, connection_id, sender),
                user,
                connection,
                receiver,
            ),
    ensures
        forall|user: Id, connection: Id|
            !(#[trigger] is_reached(
                detached(later, user_id, connection_id),
                user,
                connection,
                receiver,
            )),
{
    law_closing_leaves_the_others(later, user_id, connection_id);
    let opened = attached(hub, user_id, connection_id, sender);
    let end = detached(later, user_id, connection_id);
    assert forall|user: Id, connection: Id| !(#[trigger] is_reached(
        end,
        user,
        connection,
        receiver,
    )) by {
        if is_reached(end, user, connection, receiver) {
            assert(connections_of(end, user).contains_key(connection));
            assert(is_reached(later, user, connection, receiver));
            assert(is_reached(opened, user, connection, receiver));
            assert(!is_reached(hub, user, connection, receiver));
        }
    }
}

/// How many times a user is named.
pub open spec fn times_named(user_ids: Seq<Id>, user_id: Id) -> nat
    decreases user_ids.len(),
{
    if user_ids.len() == 0 {
        0
    } else {
        times_named(user_ids.drop_last(), user_id) + if user_ids.last() == user_id {
            1nat
        } else {
            0nat
        }
    }
}

/// Whether `after` is what `before` became when a text, and nothing else, was handed to its
/// channel a number of times.
pub open spec fn handed_times(
    before: mpsc::Sender<String>,
    after: mpsc::Sender<String>,
    text: Seq<char>,
    times: nat,
) -> bool {
    &&& handed_to(after).len() == handed_to(before).len() + times
    &&& handed_to(before).is_prefix_of(handed_to(after))
    &&& forall|i: int|
        handed_to(before).len() <= i < handed_to(after).len() ==> (#[trigger] handed_to(
            after,
        )[i]).0 == text
}

/// A text that is sent to users in turn is handed to each connection as many times as its user is
/// named; whoever is not named is left out. No connection comes or goes.
pub proof fn law_broadcasts_go_to_the_named(
    hubs: Seq<Map<Id, Connections>>,
    user_ids: Seq<Id>,
    text: Seq<char>,
    counts: Seq<usize>,
)
    requires
        sent_in_turn(hubs, user_ids, text, counts),
    ensures
        forall|user: Id| #[trigger]
            connections_of(hubs.last(), user).dom() == connections_of(hubs.first(), user).dom(),
        forall|user: Id|
            !user_ids.contains(user) ==> #[trigger] connections_of(hubs.last(), user)
                == connections_of(hubs.first(), user),
        forall|user: Id, connection: Id| #[trigger]
            connections_of(hubs.first(), user).contains_key(connection) ==> handed_times(
                connections_of(hubs.first(), user)[connection],
                connections_of(hubs.last(), user)[connection],
                text,
                times_named(user_ids, user),
            ),
    decreases user_ids.len(),
{
    if user_ids.len() > 0 {
        let n = user_ids.len() - 1;
        let head = hubs.drop_last();
        let heads = user_ids.drop_last();
        assert(sent_in_turn(head, heads, text, counts.drop_last())) by {
            assert forall|i: int| 0 <= i < heads.len() implies #[trigger] sent_to(
                head[i],
                head[i + 1],
                heads[i],
                text,
                counts.drop_last()[i] as nat,
            ) by {
                assert(sent_to(hubs[i], hubs[i + 1], user_ids[i], text, counts[i] as nat));
            }
        }
        law_broadcasts_go_to_the_named(head, heads, text, counts.drop_last());
        assert(sent_to(hubs[n], hubs[n + 1], user_ids[n], text, counts[n] as nat));
        let (first, middle, last) = (hubs.first(), head.last(), hubs.last());
        assert(head.first() == first);
        assert(middle == hubs[n] && last == hubs[n + 1]);
        assert forall|user: Id| #[trigger] connections_of(last, user).dom() == connections_of(
            first,
            user,
        ).dom() by {
            assert(connections_of(middle, user).dom() == connections_of(first, user).dom());
            if user != user_ids[n] {
                assert(connections_of(last, user) == connections_of(middle, user));
            }
        }
        assert forall|user: Id| !user_ids.contains(user) implies #[trigger] connections_of(
            last,
            user,
        ) == connections_of(first, user) by {
            assert(user_ids.contains(user_ids[n]));
            assert(!heads.contains(user)) by {
                if heads.contains(user) {
                    let i = choose|i: int| 0 <= i < heads.len() && heads[i] == user;
                    assert(user_ids[i] == user);
                }
            }
            assert(connections_of(last, user) == connections_of(middle, user));
            assert(connections_of(middle, user) == connections_of(first, user));
        }
        assert forall|user: Id, connection: Id| #[trigger]
            connections_of(first, user).contains_key(connection) implies handed_times(
            connections_of(first, user)[connection],
            connections_of(last, user)[connection],
            text,
            times_named(user_ids, user),
        ) by {
            let a = connections_of(first, user)[connection];
            let b = connections_of(middle, user)[connection];
            let c = connections_of(last, user)[connection];
            assert(handed_times(a, b, text, times_named(heads, user)));
            if user == user_ids[n] {
                assert(connections_of(middle, user).dom() == connections_of(first, user).dom());
                assert(connections_of(first, user).dom().contains(connection));
                assert(connections_of(middle, user).contains_key(connection));
                assert(handed_on(b, c, text, took(c)));
            } else {
                assert(connections_of(last, user) == connections_of(middle, user));
            }
        }
    }
}

} // verus!
