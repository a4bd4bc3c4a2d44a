use vstd::prelude::*;

use crate::user::{User, UserView};

verus! {

/// The views of a sequence of users, in order.
pub open spec fn users_view(v: Seq<User>) -> Seq<UserView> {
    v.map_values(|u: User| u@)
}

/// No two entries carry the same identifier.
pub open spec fn keys_unique(s: Seq<UserView>) -> bool {
    forall|i: int, j: int|
        0 <= i < s.len() && 0 <= j < s.len() && #[trigger] s[i].user_id == #[trigger] s[j].user_id
            ==> i == j
}

/// The mapping from identifier to participant that a list of entries stands for.
pub open spec fn users_map(s: Seq<UserView>) -> Map<Seq<char>, UserView> {
    Map::new(
        |k: Seq<char>| exists|i: int| 0 <= i < s.len() && #[trigger] s[i].user_id == k,
        |k: Seq<char>| s[choose|i: int| 0 <= i < s.len() && #[trigger] s[i].user_id == k],
    )
}

/// The participant `u` with `path` as its focused file.
pub open spec fn with_focus(u: UserView, path: Seq<char>) -> UserView {
    UserView { current_file: Some(path), ..u }
}

/// With unique keys, each entry is what the mapping holds under its identifier.
pub proof fn lemma_users_map_at(s: Seq<UserView>, j: int)
    requires
        keys_unique(s),
        0 <= j < s.len(),
    ensures
        users_map(s).contains_key(s[j].user_id),
        users_map(s)[s[j].user_id] == s[j],
{
    let k = s[j].user_id;
    assert(s[j].user_id == k);
    let c = choose|i: int| 0 <= i < s.len() && #[trigger] s[i].user_id == k;
    assert(s[c].user_id == s[j].user_id);
}

/// Replacing the entry at `i` by one with the same identifier replaces that key's value.
proof fn lemma_users_map_update(s: Seq<UserView>, i: int, u: UserView)
    requires
        keys_unique(s),
        0 <= i < s.len(),
        s[i].user_id == u.user_id,
    ensures
        keys_unique(s.update(i, u)),
        users_map(s.update(i, u)) == users_map(s).insert(u.user_id, u),
{
    let t = s.update(i, u);
    assert forall|a: int, b: int|
        0 <= a < t.len() && 0 <= b < t.len() && #[trigger] t[a].user_id == #[trigger] t[b].user_id
            implies a == b by {
        assert(t[a].user_id == s[a].user_id);
        assert(t[b].user_id == s[b].user_id);
    }
    let m = users_map(s).insert(u.user_id, u);
    assert forall|k: Seq<char>| #[trigger] users_map(t).contains_key(k) <==> m.contains_key(k) by {
        if users_map(t).contains_key(k) {
            let j = choose|j: int| 0 <= j < t.len() && #[trigger] t[j].user_id == k;
            assert(s[j].user_id == k);
        }
        if users_map(s).contains_key(k) {
            let j = choose|j: int| 0 <= j < s.len() && #[trigger] s[j].user_id == k;
            assert(t[j].user_id == k);
        }
        if k == u.user_id {
            assert(t[i].user_id == k);
        }
    }
    assert forall|k: Seq<char>| #[trigger] users_map(t).contains_key(k) implies users_map(t)[k]
        == m[k] by {
        let j = choose|j: int| 0 <= j < t.len() && #[trigger] t[j].user_id == k;
        lemma_users_map_at(t, j);
        if j != i {
            lemma_users_map_at(s, j);
        }
    }
    assert(users_map(t) =~= m);
}

/// Appending an entry under a fresh identifier adds that key.
proof fn lemma_users_map_push(s: Seq<UserView>, u: UserView)
    requires
        keys_unique(s),
        !users_map(s).contains_key(u.user_id),
    ensures
        keys_unique(s.push(u)),
        users_map(s.push(u)) == users_map(s).insert(u.user_id, u),
{
    let t = s.push(u);
    let n = s.len() as int;
    assert forall|a: int, b: int|
        0 <= a < t.len() && 0 <= b < t.len() && #[trigger] t[a].user_id == #[trigger] t[b].user_id
            implies a == b by {
        if a < n {
            assert(s[a].user_id == t[a].user_id);
        }
        if b < n {
            assert(s[b].user_id == t[b].user_id);
        }
    }
    let m = users_map(s).insert(u.user_id, u);
    assert forall|k: Seq<char>| #[trigger] users_map(t).contains_key(k) <==> m.contains_key(k) by {
        if users_map(t).contains_key(k) {
            let j = choose|j: int| 0 <= j < t.len() && #[trigger] t[j].user_id == k;
            if j < n {
                assert(s[j].user_id == k);
            }
        }
        if users_map(s).contains_key(k) {
            let j = choose|j: int| 0 <= j < s.len() && #[trigger] s[j].user_id == k;
            assert(t[j].user_id == k);
        }
        if k == u.user_id {
            assert(t[n].user_id == k);
        }
    }
    assert forall|k: Seq<char>| #[trigger] users_map(t).contains_key(k) implies users_map(t)[k]
        == m[k] by {
        let j = choose|j: int| 0 <= j < t.len() && #[trigger] t[j].user_id == k;
        lemma_users_map_at(t, j);
        if j < n {
            lemma_users_map_at(s, j);
        }
    }
    assert(users_map(t) =~= m);
}

/// Dropping the entry at `i` drops its key and keeps the others.
proof fn lemma_users_map_remove(s: Seq<UserView>, i: int)
    requires
        keys_unique(s),
        0 <= i < s.len(),
    ensures
        keys_unique(s.remove(i)),
        users_map(s.remove(i)) == users_map(s).remove(s[i].user_id),
{
    let t = s.remove(i);
    let k0 = s[i].user_id;
    assert forall|a: int, b: int|
        0 <= a < t.len() && 0 <= b < t.len() && #[trigger] t[a].user_id == #[trigger] t[b].user_id
            implies a == b by {
        let sa = if a < i { a } else { a + 1 };
        let sb = if b < i { b } else { b + 1 };
        assert(s[sa].user_id == t[a].user_id);
        assert(s[sb].user_id == t[b].user_id);
    }
    let m = users_map(s).remove(k0);
    assert forall|k: Seq<char>| #[trigger] users_map(t).contains_key(k) <==> m.contains_key(k) by {
        if users_map(t).contains_key(k) {
            let j = choose|j: int| 0 <= j < t.len() && #[trigger] t[j].user_id == k;
            let sj = if j < i { j } else { j + 1 };
            assert(s[sj].user_id == k);
            assert(s[i].user_id == k0);
        }
        if m.contains_key(k) {
            let j = choose|j: int| 0 <= j < s.len() && #[trigger] s[j].user_id == k;
            assert(j != i);
            let tj = if j < i { j } else { j - 1 };
            assert(t[tj].user_id == k);
        }
    }
    assert forall|k: Seq<char>| #[trigger] users_map(t).contains_key(k) implies users_map(t)[k]
        == m[k] by {
        let j = choose|j: int| 0 <= j < t.len() && #[trigger] t[j].user_id == k;
        let sj = if j < i { j } else { j + 1 };
        lemma_users_map_at(t, j);
        lemma_users_map_at(s, sj);
    }
    assert(users_map(t) =~= m);
}

/// The shared table of who is connected: identifier to participant.
pub struct Registry {
    users: Vec<User>,
}

impl View for Registry {
    type V = Map<Seq<char>, UserView>;

    closed spec fn view(&self) -> Map<Seq<char>, UserView> {
        users_map(users_view(self.users@))
    }
}

impl Registry {
    /// Every entry is filed under its own identifier, once.
    pub closed spec fn wf(&self) -> bool {
        keys_unique(users_view(self.users@))
    }

    /// An empty registry.
    pub fn new() -> (r: Registry)
        ensures
            r.wf(),
            r@ == Map::<Seq<char>, UserView>::empty(),
    {
        let r = Registry { users: Vec::new() };
        assert(users_map(users_view(r.users@)) =~= Map::<Seq<char>, UserView>::empty());
        r
    }

    /// Where the entry with identifier `id` stands, if any.
    fn find(&self, id: &String) -> (r: Option<usize>)
        requires
            self.wf(),
        ensures
            match r {
                Some(i) => i < self.users@.len() && self.users@[i as int]@.user_id == id@,
                None => !self@.contains_key(id@),
            },
    {
        let mut i: usize = 0;
        while i < self.users.len()
            invariant
                i <= self.users@.len(),
                forall|j: int| 0 <= j < i ==> (#[trigger] self.users@[j])@.user_id != id@,
            decreases self.users@.len() - i,
        {
            if self.users[i].user_id == *id {
                return Some(i);
            }
            i = i + 1;
        }
        proof {
            let s = users_view(self.users@);
            if self@.contains_key(id@) {
                let j = choose|j: int| 0 <= j < s.len() && #[trigger] s[j].user_id == id@;
                assert(self.users@[j]@.user_id == id@);
            }
        }
        None
    }

    /// Files `u` under its identifier, replacing whatever stood there.
    pub fn upsert(&mut self, u: User)
        requires
            old(self).wf(),
        ensures
            final(self).wf(),
            final(self)@ == old(self)@.insert(u.user_id@, u@),
    {
        let ghost s = users_view(self.users@);
        let ghost uv = u@;
        match self.find(&u.user_id) {
            Some(i) => {
                self.users.set(i, u);
                proof {
                    assert(users_view(self.users@) =~= s.update(i as int, uv));
                    lemma_users_map_update(s, i as int, uv);
                }
            },
            None => {
                self.users.push(u);
                proof {
                    assert(users_view(self.users@) =~= s.push(uv));
                    lemma_users_map_push(s, uv);
                }
            },
        }
    }

    /// Sets the focused file of the participant `id`; false, and no change, when absent.
    pub fn update_focus(&mut self, id: &String, file_path: String) -> (r: bool)
        requires
            old(self).wf(),
        ensures
            final(self).wf(),
            r == old(self)@.contains_key(id@),
            r ==> final(self)@ == old(self)@.insert(id@, with_focus(old(self)@[id@], file_path@)),
            !r ==> final(self)@ == old(self)@,
    {
        let ghost s = users_view(self.users@);
        match self.find(id) {
            Some(i) => {
                let mut u = self.users[i].clone();
                u.current_file = Some(file_path);
                let ghost uv = u@;
                self.users.set(i, u);
                proof {
                    lemma_users_map_at(s, i as int);
                    assert(uv == with_focus(s[i as int], file_path@));
                    assert(users_view(self.users@) =~= s.update(i as int, uv));
                    lemma_users_map_update(s, i as int, uv);
                }
                true
            },
            None => false,
        }
    }

    /// Drops the entry of `id`, if there is one.
    pub fn remove(&mut self, id: &String)
        requires
            old(self).wf(),
        ensures
            final(self).wf(),
            final(self)@ == old(self)@.remove(id@),
    {
        let ghost s = users_view(self.users@);
        match self.find(id) {
            Some(i) => {
                self.users.remove(i);
                proof {
                    assert(users_view(self.users@) =~= s.remove(i as int));
                    lemma_users_map_remove(s, i as int);
                }
            },
            None => {
                assert(old(self)@.remove(id@) =~= old(self)@);
            },
        }
    }

    /// A copy of every entry, with unique identifiers, standing for the whole mapping.
    pub fn snapshot(&self) -> (r: Vec<User>)
        requires
            self.wf(),
        ensures
            keys_unique(users_view(r@)),
            users_map(users_view(r@)) == self@,
    {
        let mut r: Vec<User> = Vec::new();
        let mut i: usize = 0;
        while i < self.users.len()
            invariant
                i <= self.users@.len(),
                users_view(r@) =~= users_view(self.users@).subrange(0, i as int),
            decreases self.users@.len() - i,
        {
            let ghost before = r@;
            let u = self.users[i].clone();
            r.push(u);
            proof {
                assert(r@ == before.push(u));
                assert(users_view(r@) =~= users_view(before).push(u@));
            }
            i = i + 1;
        }
        assert(users_view(r@) =~= users_view(self.users@));
        r
    }
}

} // verus!
