use vstd::prelude::*;

use crate::tables::{
    id_table, id_table_get, id_table_insert, id_table_new, id_table_remove, list_table,
    list_table_get, list_table_insert, list_table_new, list_table_remove, text_table,
    text_table_get, text_table_insert, text_table_new, text_table_remove, texts, IdTable,
    ListTable, TextTable,
};
use crate::text::{decimal, decimal_text, joined, lemma_decimal_injective, owned, text_eq};

verus! {

/// Relies on `uuid::Uuid::new_v4` and its hyphenated form: 36 characters.
#[verifier::external_body]
fn random_uuid() -> (r: String)
    ensures
        r@.len() == 36,
{
    uuid::Uuid::new_v4().to_string()
}

/// A fresh client identifier: a random UUID in its 36-character form.
pub fn generate_client_uid() -> (r: String)
    ensures
        r@.len() == 36,
{
    random_uuid()
}

/// What the server knows of one connected client.
#[derive(Clone, Debug)]
pub struct ClientContext {
    pub client_uid: String,
    pub conf_uid: String,
    pub history_uid: Option<String>,
}

/// The connected clients: their configuration and their active history.
pub struct SessionRegistry {
    conf_uids: TextTable,
    history_uids: TextTable,
}

impl SessionRegistry {
    /// The configuration of each connected client.
    pub closed spec fn confs(&self) -> Map<Seq<char>, Seq<char>> {
        text_table(self.conf_uids)
    }

    /// The active history of each client that has one.
    pub closed spec fn histories(&self) -> Map<Seq<char>, Seq<char>> {
        text_table(self.history_uids)
    }

    /// No clients.
    pub fn new() -> (r: Self)
        ensures
            r.confs().dom() == Set::<Seq<char>>::empty(),
            r.histories().dom() == Set::<Seq<char>>::empty(),
    {
        SessionRegistry { conf_uids: text_table_new(), history_uids: text_table_new() }
    }

    /// Records a newly connected client, with no active history.
    pub fn connect(&mut self, client_uid: String, conf_uid: String)
        ensures
            final(self).confs() == old(self).confs().insert(client_uid@, conf_uid@),
            final(self).histories() == old(self).histories().remove(client_uid@),
    {
        text_table_remove(&mut self.history_uids, client_uid.as_str());
        text_table_insert(&mut self.conf_uids, client_uid, conf_uid);
    }

    /// Forgets a client that disconnected.
    pub fn disconnect(&mut self, client_uid: &str)
        ensures
            final(self).confs() == old(self).confs().remove(client_uid@),
            final(self).histories() == old(self).histories().remove(client_uid@),
    {
        text_table_remove(&mut self.conf_uids, client_uid);
        text_table_remove(&mut self.history_uids, client_uid);
    }

    /// What is known of a client, if it is connected.
    pub fn context(&self, client_uid: &str) -> (r: Option<ClientContext>)
        ensures
            match r {
                Some(c) => {
                    &&& self.confs().contains_key(client_uid@)
                    &&& c.client_uid@ == client_uid@
                    &&& c.conf_uid@ == self.confs()[client_uid@]
                    &&& match c.history_uid {
                        Some(h) => self.histories().contains_key(client_uid@) && h@
                            == self.histories()[client_uid@],
                        None => !self.histories().contains_key(client_uid@),
                    }
                },
                None => !self.confs().contains_key(client_uid@),
            },
    {
        match text_table_get(&self.conf_uids, client_uid) {
            Some(conf_uid) => Some(
                ClientContext {
                    client_uid: owned(client_uid),
                    conf_uid,
                    history_uid: text_table_get(&self.history_uids, client_uid),
                },
            ),
            None => None,
        }
    }

    /// Makes `history_uid` the active history of a connected client; nothing for others.
    pub fn set_history(&mut self, client_uid: &str, history_uid: String)
        ensures
            final(self).confs() == old(self).confs(),
            final(self).histories() == if old(self).confs().contains_key(client_uid@) {
                old(self).histories().insert(client_uid@, history_uid@)
            } else {
                old(self).histories()
            },
    {
        if text_table_get(&self.conf_uids, client_uid).is_some() {
            text_table_insert(&mut self.history_uids, owned(client_uid), history_uid);
        }
    }

    /// Clears the active history of a client if it is `history_uid`.
    pub fn clear_history_if(&mut self, client_uid: &str, history_uid: &str)
        ensures
            final(self).confs() == old(self).confs(),
            final(self).histories() == if old(self).histories().contains_key(client_uid@)
                && old(self).histories()[client_uid@] == history_uid@ {
                old(self).histories().remove(client_uid@)
            } else {
                old(self).histories()
            },
    {
        match text_table_get(&self.history_uids, client_uid) {
            Some(h) => {
                if text_eq(h.as_str(), history_uid) {
                    text_table_remove(&mut self.history_uids, client_uid);
                }
            },
            None => {},
        }
    }
}

/// A group as it is reported.
#[derive(Clone, Debug)]
pub struct Group {
    pub group_id: String,
    pub owner_uid: String,
    pub members: Vec<String>,
}

/// Why a membership change was refused.
#[derive(Clone, Debug)]
pub enum GroupError {
    /// A client cannot invite itself.
    SelfInvite,
    /// The invitee already belongs to a group; it is named.
    AlreadyInGroup(String),
    /// The client belongs to no group; it is named.
    NotInGroup(String),
    /// Every group identifier has been used.
    NoFreeGroupId,
}

/// `names` without any occurrence of `x`, in order.
pub open spec fn without(names: Seq<Seq<char>>, x: Seq<char>) -> Seq<Seq<char>>
    decreases names.len(),
{
    if names.len() == 0 {
        seq![]
    } else if names.last() == x {
        without(names.drop_last(), x)
    } else {
        without(names.drop_last(), x).push(names.last())
    }
}

/// The identifier of the `n`-th group opened.
pub open spec fn group_key(n: nat) -> Seq<char> {
    "group_"@ + decimal(n)
}

/// Groups opened at different times have different identifiers.
pub proof fn lemma_group_key_injective(a: nat, b: nat)
    requires
        group_key(a) == group_key(b),
    ensures
        a == b,
{
    reveal_strlit("group_");
    assert(decimal(a) =~= group_key(a).subrange(6, group_key(a).len() as int));
    assert(decimal(b) =~= group_key(b).subrange(6, group_key(b).len() as int));
    lemma_decimal_injective(a, b);
}

/// What is left of `names` without `x`: names of `names`, none of them `x`.
pub proof fn lemma_without_within(names: Seq<Seq<char>>, x: Seq<char>)
    ensures
        forall|j: int|
            0 <= j < without(names, x).len() ==> #[trigger] without(names, x)[j] != x
                && names.contains(without(names, x)[j]),
    decreases names.len(),
{
    if names.len() > 0 {
        let rest = names.drop_last();
        lemma_without_within(rest, x);
        let w = without(rest, x);
        assert forall|j: int| 0 <= j < w.len() implies names.contains(#[trigger] w[j]) by {
            let k = choose|k: int| 0 <= k < rest.len() && rest[k] == w[j];
            assert(names[k] == w[j]);
        }
        if names.last() != x {
            let v = w.push(names.last());
            assert forall|j: int| 0 <= j < v.len() implies #[trigger] v[j] != x && names.contains(
                v[j],
            ) by {
                if j < w.len() {
                    assert(v[j] == w[j]);
                } else {
                    assert(names[names.len() - 1] == v[j]);
                }
            }
        }
    }
}

/// Every name of `names` other than `x` is kept.
pub proof fn lemma_without_keeps(names: Seq<Seq<char>>, x: Seq<char>, i: int)
    requires
        0 <= i < names.len(),
        names[i] != x,
    ensures
        without(names, x).contains(names[i]),
    decreases names.len(),
{
    let rest = names.drop_last();
    if i == names.len() - 1 {
        assert(without(names, x) == without(rest, x).push(names[i]));
        assert(without(names, x)[without(rest, x).len() as int] == names[i]);
    } else {
        assert(rest[i] == names[i]);
        lemma_without_keeps(rest, x, i);
        let w = without(rest, x);
        let k = choose|k: int| 0 <= k < w.len() && w[k] == names[i];
        if names.last() == x {
            assert(without(names, x) == w);
        } else {
            assert(without(names, x) == w.push(names.last()));
            assert(without(names, x)[k] == names[i]);
        }
    }
}

/// Which client belongs to which group, and each group's owner and members.
pub struct ChatGroupManager {
    client_group_map: TextTable,
    group_owners: TextTable,
    group_members: ListTable,
    next_group: u64,
}

impl ChatGroupManager {
    /// The group of each grouped client.
    pub closed spec fn group_of(&self) -> Map<Seq<char>, Seq<char>> {
        text_table(self.client_group_map)
    }

    /// The owner of each group.
    pub closed spec fn owners(&self) -> Map<Seq<char>, Seq<char>> {
        text_table(self.group_owners)
    }

    /// The members of each group, in the order they joined.
    pub closed spec fn members(&self) -> Map<Seq<char>, Seq<Seq<char>>> {
        list_table(self.group_members)
    }

    /// How many groups were opened.
    pub closed spec fn opened(&self) -> u64 {
        self.next_group
    }

    /// The records agree: a grouped client is a member of its group, each member of a group
    /// has that group as its own (so a client belongs to at most one group), and no group
    /// bears the identifier of a group still to be opened.
    pub open spec fn wf(&self) -> bool {
        &&& forall|c: Seq<char>|
            #[trigger] self.group_of().contains_key(c) ==> self.members().contains_key(
                self.group_of()[c],
            ) && self.members()[self.group_of()[c]].contains(c)
        &&& forall|g: Seq<char>, i: int|
            self.members().contains_key(g) && 0 <= i < self.members()[g].len()
                ==> self.group_of().contains_key(#[trigger] self.members()[g][i])
                && self.group_of()[self.members()[g][i]] == g
        &&& forall|n: nat|
            n >= self.opened() ==> !self.members().contains_key(#[trigger] group_key(n))
    }

    /// The members of the group of `client`; none for a client in no group.
    pub open spec fn members_of(&self, client: Seq<char>) -> Seq<Seq<char>> {
        if self.group_of().contains_key(client) && self.members().contains_key(
            self.group_of()[client],
        ) {
            self.members()[self.group_of()[client]]
        } else {
            seq![]
        }
    }

    /// No groups.
    pub fn new() -> (r: Self)
        ensures
            r.wf(),
            r.group_of().dom() == Set::<Seq<char>>::empty(),
            r.owners().dom() == Set::<Seq<char>>::empty(),
            r.members().dom() == Set::<Seq<char>>::empty(),
    {
        ChatGroupManager {
            client_group_map: text_table_new(),
            group_owners: text_table_new(),
            group_members: list_table_new(),
            next_group: 0,
        }
    }
    /// The group of a client, if it is in one.
    pub fn get_client_group(&self, client_uid: &str) -> (r: Option<String>)
        ensures
            match r {
                Some(g) => self.group_of().contains_key(client_uid@) && g@ == self.group_of()[client_uid@],
                None => !self.group_of().contains_key(client_uid@),
            },
    {
        text_table_get(&self.client_group_map, client_uid)
    }

    /// The members of a client's group, the client included; none if it is in no group.
    pub fn get_group_members(&self, client_uid: &str) -> (r: Vec<String>)
        ensures
            texts(r@) == self.members_of(client_uid@),
    {
        match self.get_client_group(client_uid) {
            Some(g) => match list_table_get(&self.group_members, g.as_str()) {
                Some(m) => m,
                None => {
                    let r: Vec<String> = Vec::new();
                    assert(texts(r@) =~= seq![]);
                    r
                },
            },
            None => {
                let r: Vec<String> = Vec::new();
                assert(texts(r@) =~= seq![]);
                r
            },
        }
    }

    /// Whether a client owns the group it is in.
    pub fn is_owner(&self, client_uid: &str) -> (r: bool)
        ensures
            r == (self.group_of().contains_key(client_uid@) && self.owners().contains_key(
                self.group_of()[client_uid@],
            ) && self.owners()[self.group_of()[client_uid@]] == client_uid@),
    {
        match self.get_client_group(client_uid) {
            Some(g) => match text_table_get(&self.group_owners, g.as_str()) {
                Some(o) => text_eq(o.as_str(), client_uid),
                None => false,
            },
            None => false,
        }
    }

    /// The group of a client as it is reported, if it is in one.
    pub fn group(&self, client_uid: &str) -> (r: Option<Group>)
        ensures
            r matches Some(g) ==> texts(g.members@) == self.members_of(client_uid@)
                && self.group_of().contains_key(client_uid@) && g.group_id@
                == self.group_of()[client_uid@] && g.owner_uid@ == if self.owners().contains_key(
                self.group_of()[client_uid@],
            ) {
                self.owners()[self.group_of()[client_uid@]]
            } else {
                Seq::<char>::empty()
            },
            r is None ==> !self.group_of().contains_key(client_uid@),
    {
        match self.get_client_group(client_uid) {
            Some(g) => {
                let owner = match text_table_get(&self.group_owners, g.as_str()) {
                    Some(o) => o,
                    None => String::new(),
                };
                let members = self.get_group_members(client_uid);
                Some(Group { group_id: g, owner_uid: owner, members })
            },
            None => None,
        }
    }

    /// Adds `invitee` to the group of `inviter`, opening a group owned by `inviter` if it is
    /// in none. A client belongs to at most one group, so an invitee already in a group is
    /// refused; so is a client inviting itself, and a new group once identifiers run out.
    /// Returns the group's identifier.
    pub fn add_client_to_group(&mut self, inviter: &str, invitee: &str) -> (r: Result<
        String,
        GroupError,
    >)
        requires
            old(self).wf(),
        ensures
            final(self).wf(),
            inviter@ == invitee@ ==> (r matches Err(GroupError::SelfInvite)),
            inviter@ != invitee@ && old(self).group_of().contains_key(invitee@) ==> (r matches Err(
                GroupError::AlreadyInGroup(c),
            ) && c@ == invitee@),
            inviter@ != invitee@ && !old(self).group_of().contains_key(invitee@) && (old(
                self,
            ).group_of().contains_key(inviter@) || old(self).opened() < u64::MAX) ==> r is Ok,
            r is Err ==> *final(self) == *old(self),
            r matches Ok(g) ==> {
                &&& inviter@ != invitee@
                &&& !old(self).group_of().contains_key(invitee@)
                &&& final(self).group_of()[invitee@] == g@
                &&& if old(self).group_of().contains_key(inviter@) {
                    &&& g@ == old(self).group_of()[inviter@]
                    &&& final(self).group_of() == old(self).group_of().insert(invitee@, g@)
                    &&& final(self).owners() == old(self).owners()
                    &&& final(self).members() == old(self).members().insert(
                        g@,
                        old(self).members_of(inviter@).push(invitee@),
                    )
                    &&& final(self).opened() == old(self).opened()
                } else {
                    &&& g@ == group_key(old(self).opened() as nat)
                    &&& final(self).group_of() == old(self).group_of().insert(inviter@, g@).insert(
                        invitee@,
                        g@,
                    )
                    &&& final(self).owners() == old(self).owners().insert(g@, inviter@)
                    &&& final(self).members() == old(self).members().insert(
                        g@,
                        seq![inviter@, invitee@],
                    )
                    &&& final(self).opened() == old(self).opened() + 1
                }
            },
    {
        if text_eq(inviter, invitee) {
            return Err(GroupError::SelfInvite);
        }
        if self.get_client_group(invitee).is_some() {
            return Err(GroupError::AlreadyInGroup(owned(invitee)));
        }
        let ghost gof = self.group_of();
        let ghost mem = self.members();
        match self.get_client_group(inviter) {
            Some(g) => {
                let mut members = self.get_group_members(inviter);
                let ghost before = members@;
                members.push(owned(invitee));
                assert(texts(members@) =~= texts(before).push(invitee@));
                list_table_insert(&mut self.group_members, g.clone(), members);
                text_table_insert(&mut self.client_group_map, owned(invitee), g.clone());
                proof {
                    let list = mem[g@].push(invitee@);
                    assert(self.members() == mem.insert(g@, list));
                    assert(self.group_of() == gof.insert(invitee@, g@));
                    assert forall|c: Seq<char>| #[trigger]
                        self.group_of().contains_key(c) implies self.members().contains_key(
                        self.group_of()[c],
                    ) && self.members()[self.group_of()[c]].contains(c) by {
                        if c == invitee@ {
                            assert(list[list.len() - 1] == c);
                        } else {
                            let h = gof[c];
                            if h == g@ {
                                let k = choose|k: int| 0 <= k < mem[h].len() && mem[h][k] == c;
                                assert(list[k] == c);
                            }
                        }
                    }
                    assert forall|h: Seq<char>, i: int|
                        self.members().contains_key(h) && 0 <= i < self.members()[h].len()
                            implies self.group_of().contains_key(#[trigger] self.members()[h][i])
                        && self.group_of()[self.members()[h][i]] == h by {
                        if h == g@ && i == mem[h].len() {
                        } else {
                            assert(self.members()[h][i] == mem[h][i]);
                            assert(gof.contains_key(mem[h][i]));
                        }
                    }
                }
                Ok(g)
            },
            None => {
                if self.next_group == u64::MAX {
                    return Err(GroupError::NoFreeGroupId);
                }
                let n = self.next_group;
                let num = decimal_text(n);
                let g = joined("group_", num.as_str());
                assert(g@ == group_key(n as nat));
                let mut members: Vec<String> = Vec::new();
                members.push(owned(inviter));
                members.push(owned(invitee));
                assert(texts(members@) =~= seq![inviter@, invitee@]);
                text_table_insert(&mut self.group_owners, g.clone(), owned(inviter));
                list_table_insert(&mut self.group_members, g.clone(), members);
                text_table_insert(&mut self.client_group_map, owned(inviter), g.clone());
                text_table_insert(&mut self.client_group_map, owned(invitee), g.clone());
                self.next_group = n + 1;
                proof {
                    assert(!mem.contains_key(g@));
                    let list = seq![inviter@, invitee@];
                    assert(self.members() == mem.insert(g@, list));
                    assert(self.group_of() == gof.insert(inviter@, g@).insert(invitee@, g@));
                    assert forall|c: Seq<char>| #[trigger]
                        self.group_of().contains_key(c) implies self.members().contains_key(
                        self.group_of()[c],
                    ) && self.members()[self.group_of()[c]].contains(c) by {
                        if c == invitee@ {
                            assert(list[1] == c);
                        } else if c == inviter@ {
                            assert(list[0] == c);
                        } else {
                            assert(gof.contains_key(c));
                            assert(mem.contains_key(gof[c]));
                        }
                    }
                    assert forall|h: Seq<char>, i: int|
                        self.members().contains_key(h) && 0 <= i < self.members()[h].len()
                            implies self.group_of().contains_key(#[trigger] self.members()[h][i])
                        && self.group_of()[self.members()[h][i]] == h by {
                        if h != g@ {
                            assert(self.members()[h][i] == mem[h][i]);
                            assert(gof.contains_key(mem[h][i]));
                        }
                    }
                    assert forall|m: nat| m >= self.opened() implies !self.members().contains_key(
                        #[trigger] group_key(m),
                    ) by {
                        if group_key(m) == g@ {
                            lemma_group_key_injective(m, n as nat);
                        }
                    }
                }
                Ok(g)
            },
        }
    }

    /// Takes a client out of its group. A group left without members is removed; a group whose
    /// owner left passes to its first remaining member. Afterwards the client belongs to no
    /// group and is in no member list.
    pub fn remove_client_from_group(&mut self, client_uid: &str) -> (r: Result<(), GroupError>)
        requires
            old(self).wf(),
        ensures
            final(self).wf(),
            old(self).group_of().contains_key(client_uid@) <==> r is Ok,
            r is Err ==> (r matches Err(GroupError::NotInGroup(c)) && c@ == client_uid@)
                && *final(self) == *old(self),
            !final(self).group_of().contains_key(client_uid@),
            forall|g: Seq<char>|
                #[trigger] final(self).members().contains_key(g) ==> !final(self).members()[g].contains(
                    client_uid@,
                ),
            r is Ok ==> {
                let g = old(self).group_of()[client_uid@];
                let rest = without(old(self).members_of(client_uid@), client_uid@);
                &&& final(self).group_of() == old(self).group_of().remove(client_uid@)
                &&& final(self).opened() == old(self).opened()
                &&& if rest.len() == 0 {
                    &&& final(self).members() == old(self).members().remove(g)
                    &&& final(self).owners() == old(self).owners().remove(g)
                } else {
                    &&& final(self).members() == old(self).members().insert(g, rest)
                    &&& final(self).owners() == if old(self).owners().contains_key(g)
                        && old(self).owners()[g] != client_uid@ {
                        old(self).owners()
                    } else {
                        old(self).owners().insert(g, rest[0])
                    }
                }
            },
    {
        let ghost gof = self.group_of();
        let ghost mem = self.members();
        let g = match self.get_client_group(client_uid) {
            Some(g) => g,
            None => {
                proof {
                    assert forall|h: Seq<char>| #[trigger]
                        self.members().contains_key(h) implies !self.members()[h].contains(
                        client_uid@,
                    ) by {
                        if self.members()[h].contains(client_uid@) {
                            let k = choose|k: int|
                                0 <= k < self.members()[h].len() && self.members()[h][k]
                                    == client_uid@;
                            assert(self.group_of().contains_key(self.members()[h][k]));
                        }
                    }
                }
                return Err(GroupError::NotInGroup(owned(client_uid)));
            },
        };
        let members = self.get_group_members(client_uid);
        let rest = remove_name(&members, client_uid);
        text_table_remove(&mut self.client_group_map, client_uid);
        proof {
            lemma_without_within(mem[g@], client_uid@);
        }
        if rest.len() == 0 {
            list_table_remove(&mut self.group_members, g.as_str());
            text_table_remove(&mut self.group_owners, g.as_str());
        } else {
            let keep_owner = match text_table_get(&self.group_owners, g.as_str()) {
                Some(o) => !text_eq(o.as_str(), client_uid),
                None => false,
            };
            if !keep_owner {
                let first = rest[0].clone();
                text_table_insert(&mut self.group_owners, g.clone(), first);
            }
            list_table_insert(&mut self.group_members, g, rest);
        }
        proof {
            let c0 = client_uid@;
            let left = without(mem[g@], c0);
            assert(self.group_of() == gof.remove(c0));
            assert forall|c: Seq<char>| #[trigger]
                self.group_of().contains_key(c) implies self.members().contains_key(
                self.group_of()[c],
            ) && self.members()[self.group_of()[c]].contains(c) by {
                let h = gof[c];
                if h == g@ {
                    let k = choose|k: int| 0 <= k < mem[h].len() && mem[h][k] == c;
                    lemma_without_keeps(mem[h], c0, k);
                    let k2 = choose|k2: int| 0 <= k2 < left.len() && left[k2] == c;
                    assert(left[k2] != c0);
                }
            }
            assert forall|h: Seq<char>, i: int|
                self.members().contains_key(h) && 0 <= i < self.members()[h].len()
                    implies self.group_of().contains_key(#[trigger] self.members()[h][i])
                && self.group_of()[self.members()[h][i]] == h by {
                if h == g@ {
                    assert(self.members()[h] == left);
                    assert(left[i] != c0);
                    let k = choose|k: int| 0 <= k < mem[h].len() && mem[h][k] == left[i];
                    assert(gof.contains_key(mem[h][k]));
                } else {
                    assert(self.members()[h][i] == mem[h][i]);
                    assert(gof.contains_key(mem[h][i]));
                    assert(mem[h][i] != c0);
                }
            }
            assert forall|h: Seq<char>| #[trigger]
                self.members().contains_key(h) implies !self.members()[h].contains(c0) by {
                if self.members()[h].contains(c0) {
                    let k = choose|k: int| 0 <= k < self.members()[h].len() && self.members()[h][k] == c0;
                    assert(self.group_of().contains_key(self.members()[h][k]));
                }
            }
        }
        Ok(())
    }
}

/// `names` without any occurrence of `x`, in order.
pub fn remove_name(names: &Vec<String>, x: &str) -> (r: Vec<String>)
    ensures
        texts(r@) == without(texts(names@), x@),
{
    let mut out: Vec<String> = Vec::new();
    let mut i: usize = 0;
    while i < names.len()
        invariant
            i <= names@.len(),
            texts(out@) == without(texts(names@.subrange(0, i as int)), x@),
        decreases names@.len() - i,
    {
        let ghost before = out@;
        assert(texts(names@.subrange(0, i + 1)).drop_last() =~= texts(names@.subrange(0, i as int)));
        assert(texts(names@.subrange(0, i + 1)).last() == names@[i as int]@);
        if !text_eq(names[i].as_str(), x) {
            out.push(names[i].clone());
            assert(texts(out@) =~= texts(before).push(names@[i as int]@));
        }
        i += 1;
    }
    assert(names@.subrange(0, names@.len() as int) =~= names@);
    out
}

/// The turn that each client has running, by turn number.
pub struct CancellationController {
    tasks: IdTable,
    next_turn: u64,
}

impl CancellationController {
    /// The running turn of each client.
    pub closed spec fn running(&self) -> Map<Seq<char>, u64> {
        id_table(self.tasks)
    }

    /// The number the next turn gets.
    pub closed spec fn next_turn_spec(&self) -> u64 {
        self.next_turn
    }

    /// No turns running.
    pub fn new() -> (r: Self)
        ensures
            r.running().dom() == Set::<Seq<char>>::empty(),
            r.next_turn_spec() == 0,
    {
        CancellationController { tasks: id_table_new(), next_turn: 0 }
    }

    /// Registers a new turn of `client_uid` and returns its number, with the turn it replaces,
    /// if any, which is to be cancelled. Nothing is registered once the numbers run out.
    pub fn start_turn(&mut self, client_uid: &str) -> (r: Option<(u64, Option<u64>)>)
        ensures
            old(self).next_turn_spec() == u64::MAX <==> r is None,
            r is None ==> *final(self) == *old(self),
            r matches Some((id, prev)) ==> {
                &&& id == old(self).next_turn_spec()
                &&& final(self).next_turn_spec() == id + 1
                &&& final(self).running() == old(self).running().insert(client_uid@, id)
                &&& match prev {
                    Some(p) => old(self).running().contains_key(client_uid@) && old(
                        self,
                    ).running()[client_uid@] == p,
                    None => !old(self).running().contains_key(client_uid@),
                }
            },
    {
        if self.next_turn == u64::MAX {
            return None;
        }
        let id = self.next_turn;
        let prev = id_table_get(&self.tasks, client_uid);
        id_table_insert(&mut self.tasks, owned(client_uid), id);
        self.next_turn = id + 1;
        Some((id, prev))
    }

    /// The running turn of a client, if any.
    pub fn current(&self, client_uid: &str) -> (r: Option<u64>)
        ensures
            match r {
                Some(id) => self.running().contains_key(client_uid@) && self.running()[client_uid@] == id,
                None => !self.running().contains_key(client_uid@),
            },
    {
        id_table_get(&self.tasks, client_uid)
    }

    /// On an interrupt: forgets the client's running turn and returns it, to be cancelled.
    pub fn interrupt(&mut self, client_uid: &str) -> (r: Option<u64>)
        ensures
            final(self).running() == old(self).running().remove(client_uid@),
            !final(self).running().contains_key(client_uid@),
            final(self).next_turn_spec() == old(self).next_turn_spec(),
            match r {
                Some(id) => old(self).running().contains_key(client_uid@) && old(self).running()[client_uid@] == id,
                None => !old(self).running().contains_key(client_uid@),
            },
    {
        id_table_remove(&mut self.tasks, client_uid)
    }

    /// When turn `turn` of a client ends: forgets it, unless a newer turn has replaced it.
    pub fn finish_turn(&mut self, client_uid: &str, turn: u64)
        ensures
            final(self).next_turn_spec() == old(self).next_turn_spec(),
            final(self).running() == if old(self).running().contains_key(client_uid@) && old(
                self,
            ).running()[client_uid@] == turn {
                old(self).running().remove(client_uid@)
            } else {
                old(self).running()
            },
    {
        match id_table_get(&self.tasks, client_uid) {
            Some(id) => {
                if id == turn {
                    id_table_remove(&mut self.tasks, client_uid);
                }
            },
            None => {},
        }
    }
}

} // verus!
