use vstd::prelude::*;

use std::collections::HashMap;

use crate::constants::known_roles;

verus! {

broadcast use vstd::std_specs::hash::group_hash_axioms;

/// The clients of one group, each under the id it got when it connected.
pub struct ClientGroup<S> {
    pub name: String,
    pub clients: HashMap<u128, S>,
}

/// The connected clients of the server-sent-event hub, in groups named after the
/// users' roles. `S` is the channel a client is reached through.
pub struct NotificationsService<S> {
    client_groups: Vec<ClientGroup<S>>,
}

/// The groups of `g` by name, each as a map from client id to channel.
pub open spec fn groups_map<S>(g: Seq<ClientGroup<S>>) -> Map<Seq<char>, Map<u128, S>> {
    Map::new(
        |k: Seq<char>| exists|i: int| 0 <= i < g.len() && g[i].name@ == k,
        |k: Seq<char>| g[choose|i: int| 0 <= i < g.len() && g[i].name@ == k].clients@,
    )
}

/// No two groups share a name.
pub open spec fn groups_wf<S>(g: Seq<ClientGroup<S>>) -> bool {
    forall|i: int, j: int| 0 <= i < g.len() && 0 <= j < g.len() && i != j ==> g[i].name@ != g[j].name@
}

/// The members of group `name`; none when there is no such group.
pub open spec fn members<S>(groups: Map<Seq<char>, Map<u128, S>>, name: Seq<char>) -> Map<u128, S> {
    if groups.contains_key(name) {
        groups[name]
    } else {
        Map::empty()
    }
}

proof fn lemma_groups_index<S>(g: Seq<ClientGroup<S>>, i: int)
    requires
        groups_wf(g),
        0 <= i < g.len(),
    ensures
        groups_map(g).contains_key(g[i].name@),
        groups_map(g)[g[i].name@] == g[i].clients@,
{
    let k = g[i].name@;
    assert(groups_map(g).contains_key(k));
    let j = choose|j: int| 0 <= j < g.len() && g[j].name@ == k;
    assert(j == i);
}

proof fn lemma_groups_update<S>(g: Seq<ClientGroup<S>>, i: int, x: ClientGroup<S>)
    requires
        groups_wf(g),
        0 <= i < g.len(),
        x.name@ == g[i].name@,
    ensures
        groups_wf(g.update(i, x)),
        groups_map(g.update(i, x)) == groups_map(g).insert(x.name@, x.clients@),
{
    let t = g.update(i, x);
    let k = x.name@;
    assert(groups_wf(t));
    assert forall|q: Seq<char>| #[trigger] groups_map(t).contains_key(q) == groups_map(g).insert(
        k,
        x.clients@,
    ).contains_key(q) by {
        if groups_map(g).contains_key(q) {
            let j = choose|j: int| 0 <= j < g.len() && g[j].name@ == q;
            assert(t[j].name@ == q);
        }
        if groups_map(t).contains_key(q) {
            let j = choose|j: int| 0 <= j < t.len() && t[j].name@ == q;
            assert(g[j].name@ == q);
        }
        if q == k {
            assert(t[i].name@ == q);
        }
    }
    assert forall|q: Seq<char>| #[trigger] groups_map(t).contains_key(q) implies groups_map(t)[q]
        == groups_map(g).insert(k, x.clients@)[q] by {
        let j = choose|j: int| 0 <= j < t.len() && t[j].name@ == q;
        lemma_groups_index(t, j);
        if j != i {
            lemma_groups_index(g, j);
        }
    }
    assert(groups_map(t) =~= groups_map(g).insert(k, x.clients@));
}

proof fn lemma_groups_push<S>(g: Seq<ClientGroup<S>>, x: ClientGroup<S>)
    requires
        groups_wf(g),
        !groups_map(g).contains_key(x.name@),
    ensures
        groups_wf(g.push(x)),
        groups_map(g.push(x)) == groups_map(g).insert(x.name@, x.clients@),
{
    let t = g.push(x);
    let k = x.name@;
    assert forall|i: int| 0 <= i < g.len() implies g[i].name@ != k by {
        lemma_groups_index(g, i);
    }
    assert(groups_wf(t));
    assert forall|q: Seq<char>| #[trigger] groups_map(t).contains_key(q) == groups_map(g).insert(
        k,
        x.clients@,
    ).contains_key(q) by {
        if groups_map(g).contains_key(q) {
            let j = choose|j: int| 0 <= j < g.len() && g[j].name@ == q;
            assert(t[j].name@ == q);
        }
        if q == k {
            assert(t[g.len() as int].name@ == q);
        }
    }
    assert forall|q: Seq<char>| #[trigger] groups_map(t).contains_key(q) implies groups_map(t)[q]
        == groups_map(g).insert(k, x.clients@)[q] by {
        let j = choose|j: int| 0 <= j < t.len() && t[j].name@ == q;
        lemma_groups_index(t, j);
        if j < g.len() {
            lemma_groups_index(g, j);
        }
    }
    assert(groups_map(t) =~= groups_map(g).insert(k, x.clients@));
}

/// The ids of `clients`, each once.
fn client_ids<S>(clients: &HashMap<u128, S>) -> (r: Vec<u128>)
    ensures
        r@.no_duplicates(),
        forall|k: u128| r@.contains(k) <==> clients@.contains_key(k),
{
    let mut r: Vec<u128> = Vec::new();
    let ghost ks = vstd::std_specs::iter::IteratorSpec::remaining(
        &vstd::std_specs::hash::spec_keys_iter(clients),
    );
    for k in it: clients.keys()
        invariant
            it.seq() == ks,
            r@.len() == it.index(),
            forall|j: int| 0 <= j < it.index() ==> r@[j] == *it.seq()[j],
    {
        r.push(*k);
    }
    proof {
        assert(ks.unref().to_set() == clients@.dom());
        assert(ks.no_duplicates());
        assert(r@ =~= ks.unref());
    }
    r
}

impl<S> View for NotificationsService<S> {
    type V = Map<Seq<char>, Map<u128, S>>;

    closed spec fn view(&self) -> Map<Seq<char>, Map<u128, S>> {
        groups_map(self.client_groups@)
    }
}

impl<S> NotificationsService<S> {
    /// Validity: group names are distinct.
    pub closed spec fn wf(&self) -> bool {
        groups_wf(self.client_groups@)
    }

    pub fn new() -> (r: Self)
        ensures
            r.wf(),
            r@ == Map::<Seq<char>, Map<u128, S>>::empty(),
    {
        let r = NotificationsService { client_groups: Vec::new() };
        assert(r@ =~= Map::<Seq<char>, Map<u128, S>>::empty());
        r
    }

    /// Position of the group named `name`.
    fn find_group(&self, name: &String) -> (r: Option<usize>)
        requires
            self.wf(),
        ensures
            match r {
                Some(i) => i < self.client_groups@.len() && self.client_groups@[i as int].name@
                    == name@,
                None => !self@.contains_key(name@),
            },
    {
        let mut i: usize = 0;
        while i < self.client_groups.len()
            invariant
                i <= self.client_groups.len(),
                forall|j: int| 0 <= j < i ==> self.client_groups@[j].name@ != name@,
            decreases self.client_groups.len() - i,
        {
            if self.client_groups[i].name == *name {
                return Some(i);
            }
            i = i + 1;
        }
        proof {
            if self@.contains_key(name@) {
                let j = choose|j: int|
                    0 <= j < self.client_groups@.len() && self.client_groups@[j].name@ == name@;
                assert(self.client_groups@[j].name@ == name@);
            }
        }
        None
    }

    /// The ids of the clients in group `group_name`, each once; none when there is no
    /// such group.
    pub fn get_senders(&self, group_name: &str) -> (r: Vec<u128>)
        requires
            self.wf(),
        ensures
            r@.no_duplicates(),
            forall|k: u128| r@.contains(k) <==> members(self@, group_name@).contains_key(k),
    {
        let name = String::from_str(group_name);
        match self.find_group(&name) {
            None => {
                let r: Vec<u128> = Vec::new();
                proof {
                    assert forall|k: u128| r@.contains(k) <==> members(self@, group_name@).contains_key(k) by {}
                }
                r
            },
            Some(g) => {
                proof {
                    lemma_groups_index(self.client_groups@, g as int);
                }
                client_ids(&self.client_groups[g].clients)
            },
        }
    }

    /// The channel of client `sender_id` in group `group_name`.
    pub fn sender(&self, group_name: &str, sender_id: u128) -> (r: Option<&S>)
        requires
            self.wf(),
        ensures
            match r {
                Some(s) => members(self@, group_name@).contains_key(sender_id)
                    && *s == members(self@, group_name@)[sender_id],
                None => !members(self@, group_name@).contains_key(sender_id),
            },
    {
        let name = String::from_str(group_name);
        match self.find_group(&name) {
            None => None,
            Some(g) => {
                proof {
                    lemma_groups_index(self.client_groups@, g as int);
                }
                self.client_groups[g].clients.get(&sender_id)
            },
        }
    }

    /// Adds a connected client to the administrators' group under `sender_id`, creating
    /// the group if it does not exist yet. A client already there under that id is replaced.
    pub fn add_user_to_provider_group(&mut self, sender_id: u128, sender: S)
        requires
            old(self).wf(),
        ensures
            final(self).wf(),
            final(self)@ == old(self)@.insert(
                known_roles::ADMIN@,
                members(old(self)@, known_roles::ADMIN@).insert(sender_id, sender),
            ),
    {
        let group_name = String::from_str(known_roles::ADMIN);
        let ghost old_groups = self.client_groups@;
        match self.find_group(&group_name) {
            Some(g) => {
                let mut group = self.client_groups.remove(g);
                proof {
                    lemma_groups_index(old_groups, g as int);
                    assert(group == old_groups[g as int]);
                }
                group.clients.insert(sender_id, sender);
                self.client_groups.insert(g, group);
                proof {
                    assert(self.client_groups@ =~= old_groups.update(g as int, group));
                    lemma_groups_update(old_groups, g as int, group);
                }
            },
            None => {
                let mut clients: HashMap<u128, S> = HashMap::new();
                clients.insert(sender_id, sender);
                proof {
                    assert(clients@ =~= Map::<u128, S>::empty().insert(sender_id, sender));
                }
                let group = ClientGroup { name: group_name, clients };
                self.client_groups.push(group);
                proof {
                    lemma_groups_push(old_groups, group);
                }
            },
        }
    }

    /// Removes client `sender_id` from the administrators' group, if it is there.
    pub fn delete_user_from_provider_group(&mut self, sender_id: u128)
        requires
            old(self).wf(),
        ensures
            final(self).wf(),
            old(self)@.contains_key(known_roles::ADMIN@) ==> final(self)@ == old(self)@.insert(
                known_roles::ADMIN@,
                old(self)@[known_roles::ADMIN@].remove(sender_id),
            ),
            !old(self)@.contains_key(known_roles::ADMIN@) ==> final(self)@ == old(self)@,
    {
        let group_name = String::from_str(known_roles::ADMIN);
        let ghost old_groups = self.client_groups@;
        match self.find_group(&group_name) {
            None => {},
            Some(g) => {
                let mut group = self.client_groups.remove(g);
                proof {
                    lemma_groups_index(old_groups, g as int);
                    assert(group == old_groups[g as int]);
                }
                group.clients.remove(&sender_id);
                self.client_groups.insert(g, group);
                proof {
                    assert(self.client_groups@ =~= old_groups.update(g as int, group));
                    lemma_groups_update(old_groups, g as int, group);
                }
            },
        }
    }
}

/// The pieces `[start, end)` of a list of `len` items cut into chunks of `size`, in order:
/// every chunk but the last holds `size` items, the last holds the rest, and there is no
/// chunk when there are no items.
pub open spec fn chunks_of(r: Seq<(usize, usize)>, len: int, size: int) -> bool {
    &&& len == 0 <==> r.len() == 0
    &&& r.len() > 0 ==> r[0].0 == 0 && r[r.len() - 1].1 == len
    &&& forall|i: int| 0 <= i < r.len() - 1 ==> #[trigger] r[i].1 == r[i + 1].0 && r[i].1 - r[i].0 == size
    &&& r.len() > 0 ==> 0 < r[r.len() - 1].1 - r[r.len() - 1].0 <= size
}

/// Cuts a list of `len` items into chunks of `size` (see [`chunks_of`]); the items of one
/// server-sent event are sent in chunks of `SSE_DATA_CHUNK_SIZE`.
pub fn chunk_ranges(len: usize, size: usize) -> (r: Vec<(usize, usize)>)
    requires
        size > 0,
    ensures
        chunks_of(r@, len as int, size as int),
{
    let mut r: Vec<(usize, usize)> = Vec::new();
    let mut start: usize = 0;
    while start < len
        invariant
            start <= len,
            size > 0,
            r@.len() == 0 <==> start == 0,
            r@.len() > 0 ==> r@[0].0 == 0 && r@[r@.len() - 1].1 == start,
            forall|i: int| 0 <= i < r@.len() - 1 ==> #[trigger] r@[i].1 == r@[i + 1].0 && r@[i].1
                - r@[i].0 == size,
            r@.len() > 0 ==> 0 < r@[r@.len() - 1].1 - r@[r@.len() - 1].0 <= size,
            r@.len() > 0 && start < len ==> r@[r@.len() - 1].1 - r@[r@.len() - 1].0 == size,
        decreases len - start,
    {
        let end = if len - start > size { start + size } else { len };
        r.push((start, end));
        start = end;
    }
    r
}


/// A client that connects and then disconnects leaves the administrators' group as it
/// was without that id: adding and then deleting id `sender_id` gives the group's members
/// before, with `sender_id` removed.
pub proof fn lemma_add_then_delete<S>(
    groups: Map<Seq<char>, Map<u128, S>>,
    sender_id: u128,
    sender: S,
)
    ensures
        ({
            let added = groups.insert(
                known_roles::ADMIN@,
                members(groups, known_roles::ADMIN@).insert(sender_id, sender),
            );
            let deleted = added.insert(known_roles::ADMIN@, added[known_roles::ADMIN@].remove(sender_id));
            &&& members(deleted, known_roles::ADMIN@) == members(groups, known_roles::ADMIN@).remove(sender_id)
            &&& forall|g: Seq<char>| g != known_roles::ADMIN@ ==> #[trigger] members(deleted, g) == members(groups, g)
            &&& !members(groups, known_roles::ADMIN@).contains_key(sender_id) ==> members(
                deleted,
                known_roles::ADMIN@,
            ) == members(groups, known_roles::ADMIN@)
        }),
{
    let added = groups.insert(
        known_roles::ADMIN@,
        members(groups, known_roles::ADMIN@).insert(sender_id, sender),
    );
    let deleted = added.insert(known_roles::ADMIN@, added[known_roles::ADMIN@].remove(sender_id));
    assert(members(deleted, known_roles::ADMIN@) =~= members(groups, known_roles::ADMIN@).remove(sender_id));
    if !members(groups, known_roles::ADMIN@).contains_key(sender_id) {
        assert(members(groups, known_roles::ADMIN@).remove(sender_id) =~= members(
            groups,
            known_roles::ADMIN@,
        ));
    }
}

/// Deleting a client that is not in the administrators' group changes no group.
pub proof fn lemma_delete_absent_changes_nothing<S>(
    groups: Map<Seq<char>, Map<u128, S>>,
    sender_id: u128,
)
    requires
        !members(groups, known_roles::ADMIN@).contains_key(sender_id),
    ensures
        groups.contains_key(known_roles::ADMIN@) ==> groups.insert(
            known_roles::ADMIN@,
            groups[known_roles::ADMIN@].remove(sender_id),
        ) == groups,
{
    if groups.contains_key(known_roles::ADMIN@) {
        assert(groups[known_roles::ADMIN@].remove(sender_id) =~= groups[known_roles::ADMIN@]);
        assert(groups.insert(known_roles::ADMIN@, groups[known_roles::ADMIN@].remove(sender_id)) =~= groups);
    }
}

/// A connected client is reached through the channel it connected with: after adding
/// `sender` under `sender_id`, the administrators' group maps that id to it.
pub proof fn lemma_added_client_is_member<S>(
    groups: Map<Seq<char>, Map<u128, S>>,
    sender_id: u128,
    sender: S,
)
    ensures
        ({
            let added = groups.insert(
                known_roles::ADMIN@,
                members(groups, known_roles::ADMIN@).insert(sender_id, sender),
            );
            &&& members(added, known_roles::ADMIN@).contains_key(sender_id)
            &&& members(added, known_roles::ADMIN@)[sender_id] == sender
        }),
{
}


} // verus!
