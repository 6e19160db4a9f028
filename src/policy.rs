//! The per-application authentication policies and the table that holds
//! them, keyed by application name.

use vstd::prelude::*;

verus! {

/// How requests to one application are authenticated.
pub enum AuthPolicy {
    /// Every request passes.
    Open,
    /// The caller presents this secret in a header.
    SharedSecret { secret: String },
    /// The caller presents a bearer token issued by this tenant for this client.
    FederatedIdentity { tenant_id: String, client_id: String },
}

/// The mathematical value of a policy.
pub enum PolicyModel {
    Open,
    SharedSecret { secret: Seq<char> },
    FederatedIdentity { tenant_id: Seq<char>, client_id: Seq<char> },
}

impl View for AuthPolicy {
    type V = PolicyModel;

    open spec fn view(&self) -> PolicyModel {
        match self {
            AuthPolicy::Open => PolicyModel::Open,
            AuthPolicy::SharedSecret { secret } => PolicyModel::SharedSecret { secret: secret@ },
            AuthPolicy::FederatedIdentity { tenant_id, client_id } => PolicyModel::FederatedIdentity {
                tenant_id: tenant_id@,
                client_id: client_id@,
            },
        }
    }
}

/// The label under which a policy kind is stored and listed.
pub open spec fn kind_name_of(p: PolicyModel) -> Seq<char> {
    match p {
        PolicyModel::Open => "none"@,
        PolicyModel::SharedSecret { .. } => "api_key"@,
        PolicyModel::FederatedIdentity { .. } => "entra_id"@,
    }
}

impl AuthPolicy {
    /// A copy with the same view.
    pub fn duplicate(&self) -> (r: AuthPolicy)
        ensures
            r@ == self@,
    {
        match self {
            AuthPolicy::Open => AuthPolicy::Open,
            AuthPolicy::SharedSecret { secret } => AuthPolicy::SharedSecret { secret: secret.clone() },
            AuthPolicy::FederatedIdentity { tenant_id, client_id } => AuthPolicy::FederatedIdentity {
                tenant_id: tenant_id.clone(),
                client_id: client_id.clone(),
            },
        }
    }

    /// The stored label of this policy's kind.
    pub fn kind_name(&self) -> (r: String)
        ensures
            r@ == kind_name_of(self@),
    {
        proof {
            reveal_strlit("none");
            reveal_strlit("api_key");
            reveal_strlit("entra_id");
        }
        match self {
            AuthPolicy::Open => String::from_str("none"),
            AuthPolicy::SharedSecret { .. } => String::from_str("api_key"),
            AuthPolicy::FederatedIdentity { .. } => String::from_str("entra_id"),
        }
    }
}

/// One application's entry in the table.
pub struct PolicyEntry {
    pub app: String,
    pub policy: AuthPolicy,
}

/// The mapping from application name to policy; each name occurs once.
pub struct PolicyTable {
    entries: Vec<PolicyEntry>,
}

/// Whether entry `i` of `s` is named `app`.
pub open spec fn names_at(s: Seq<PolicyEntry>, i: int, app: Seq<char>) -> bool {
    0 <= i < s.len() && s[i].app@ == app
}

/// The map that a sequence of entries with distinct names stands for.
pub open spec fn entries_map(s: Seq<PolicyEntry>) -> Map<Seq<char>, PolicyModel> {
    Map::new(
        |app: Seq<char>| exists|i: int| names_at(s, i, app),
        |app: Seq<char>| s[choose|i: int| names_at(s, i, app)].policy@,
    )
}

/// No two entries share a name.
pub open spec fn distinct_names(s: Seq<PolicyEntry>) -> bool {
    forall|i: int, j: int| 0 <= i < s.len() && 0 <= j < s.len() && i != j ==> s[i].app@ != s[j].app@
}

/// The policy in force for `app`: the stored one, else `Open`.
pub open spec fn policy_for(m: Map<Seq<char>, PolicyModel>, app: Seq<char>) -> PolicyModel {
    if m.contains_key(app) {
        m[app]
    } else {
        PolicyModel::Open
    }
}

proof fn lemma_entry_value(s: Seq<PolicyEntry>, i: int)
    requires
        distinct_names(s),
        0 <= i < s.len(),
    ensures
        entries_map(s).contains_key(s[i].app@),
        entries_map(s)[s[i].app@] == s[i].policy@,
{
    let app = s[i].app@;
    assert(names_at(s, i, app));
    let j = choose|j: int| names_at(s, j, app);
    assert(j == i);
}

impl View for PolicyTable {
    type V = Map<Seq<char>, PolicyModel>;

    closed spec fn view(&self) -> Map<Seq<char>, PolicyModel> {
        entries_map(self.entries@)
    }
}

impl PolicyTable {
    pub closed spec fn wf(&self) -> bool {
        distinct_names(self.entries@)
    }

    /// An empty table.
    pub fn new() -> (r: Self)
        ensures
            r.wf(),
            r@ == Map::<Seq<char>, PolicyModel>::empty(),
    {
        let r = PolicyTable { entries: Vec::new() };
        assert(r@ =~= Map::<Seq<char>, PolicyModel>::empty());
        r
    }

    /// The position of `app`'s entry, if it has one.
    fn position(&self, app: &str) -> (r: Option<usize>)
        requires
            self.wf(),
        ensures
            match r {
                Some(i) => names_at(self.entries@, i as int, app@),
                None => !self@.contains_key(app@),
            },
    {
        let key = String::from_str(app);
        let mut i: usize = 0;
        while i < self.entries.len()
            invariant
                i <= self.entries@.len(),
                key@ == app@,
                forall|j: int| 0 <= j < i ==> self.entries@[j].app@ != app@,
            decreases self.entries@.len() - i,
        {
            if self.entries[i].app == key {
                return Some(i);
            }
            i = i + 1;
        }
        None
    }

    /// Whether `app` has an entry of its own.
    pub fn contains(&self, app: &str) -> (r: bool)
        requires
            self.wf(),
        ensures
            r == self@.contains_key(app@),
    {
        match self.position(app) {
            Some(i) => {
                proof {
                    lemma_entry_value(self.entries@, i as int);
                }
                true
            },
            None => false,
        }
    }

    /// The policy in force for `app`; an application without an entry is open.
    pub fn get(&self, app: &str) -> (r: AuthPolicy)
        requires
            self.wf(),
        ensures
            r@ == policy_for(self@, app@),
    {
        match self.position(app) {
            Some(i) => {
                proof {
                    lemma_entry_value(self.entries@, i as int);
                }
                self.entries[i].policy.duplicate()
            },
            None => AuthPolicy::Open,
        }
    }

    /// The entries in storage order, as (name, policy) pairs.
    pub closed spec fn snapshot(&self) -> Seq<(Seq<char>, PolicyModel)> {
        entry_views(self.entries@)
    }

    /// A copy of every entry, for saving the table.
    pub fn to_entries(&self) -> (r: Vec<PolicyEntry>)
        requires
            self.wf(),
        ensures
            entry_views(r@) == self.snapshot(),
    {
        let mut r: Vec<PolicyEntry> = Vec::new();
        let mut i: usize = 0;
        while i < self.entries.len()
            invariant
                i <= self.entries@.len(),
                entry_views(r@) == entry_views(self.entries@.subrange(0, i as int)),
            decreases self.entries@.len() - i,
        {
            let e = &self.entries[i];
            let copy = PolicyEntry { app: e.app.clone(), policy: e.policy.duplicate() };
            proof {
                assert(entry_views(r@.push(copy)) =~= entry_views(r@).push((copy.app@, copy.policy@)));
                assert(entry_views(self.entries@.subrange(0, i + 1)) =~= entry_views(
                    self.entries@.subrange(0, i as int),
                ).push((e.app@, e.policy@)));
            }
            r.push(copy);
            i = i + 1;
        }
        assert(self.entries@.subrange(0, i as int) =~= self.entries@);
        r
    }

    /// The table that setting each entry in turn builds; a later entry for a
    /// name replaces an earlier one.
    pub fn from_entries(entries: &Vec<PolicyEntry>) -> (r: PolicyTable)
        ensures
            r.wf(),
            r@ == fold_pairs(entry_views(entries@)),
    {
        let mut t = PolicyTable::new();
        let mut i: usize = 0;
        while i < entries.len()
            invariant
                i <= entries@.len(),
                t.wf(),
                t@ == fold_pairs(entry_views(entries@.subrange(0, i as int))),
            decreases entries@.len() - i,
        {
            let e = &entries[i];
            t.set(e.app.as_str(), e.policy.duplicate());
            proof {
                let v = entry_views(entries@.subrange(0, i + 1));
                assert(v.drop_last() =~= entry_views(entries@.subrange(0, i as int)));
            }
            i = i + 1;
        }
        assert(entries@.subrange(0, i as int) =~= entries@);
        t
    }

    /// Takes `app`'s entry out of the table, if it has one.
    pub fn remove(&mut self, app: &str)
        requires
            old(self).wf(),
        ensures
            final(self).wf(),
            final(self)@ == old(self)@.remove(app@),
    {
        let ghost pre = self.entries@;
        match self.position(app) {
            Some(i) => {
                self.entries.remove(i);
                proof {
                    let post = self.entries@;
                    assert(post =~= pre.remove(i as int));
                    assert forall|a: int| 0 <= a < post.len() implies #[trigger] post[a] == pre[if a
                        < i {
                        a
                    } else {
                        a + 1
                    }] by {}
                    assert(distinct_names(post)) by {
                        assert forall|a: int, b: int|
                            0 <= a < post.len() && 0 <= b < post.len() && a != b implies post[a].app@
                            != post[b].app@ by {
                            let a2 = if a < i { a } else { a + 1 };
                            let b2 = if b < i { b } else { b + 1 };
                            assert(post[a] == pre[a2]);
                            assert(post[b] == pre[b2]);
                        }
                    }
                    assert forall|k: Seq<char>| #[trigger] self@.contains_key(k) == old(self)@.remove(
                        app@,
                    ).contains_key(k) by {
                        if exists|j: int| names_at(post, j, k) {
                            let j = choose|j: int| names_at(post, j, k);
                            let j2 = if j < i { j } else { j + 1 };
                            assert(post[j] == pre[j2]);
                            assert(names_at(pre, j2, k));
                            assert(j2 != i);
                        }
                        if k != app@ && exists|j: int| names_at(pre, j, k) {
                            let j = choose|j: int| names_at(pre, j, k);
                            assert(j != i);
                            let j1 = if j < i { j } else { j - 1 };
                            assert(post[j1] == pre[j]);
                            assert(names_at(post, j1, k));
                        }
                    }
                    assert forall|k: Seq<char>| #[trigger] self@.contains_key(k) implies self@[k]
                        == old(self)@.remove(app@)[k] by {
                        let j = choose|j: int| names_at(post, j, k);
                        lemma_entry_value(post, j);
                        let j2 = if j < i { j } else { j + 1 };
                        assert(post[j] == pre[j2]);
                        lemma_entry_value(pre, j2);
                    }
                    assert(self@ =~= old(self)@.remove(app@));
                }
            },
            None => {
                assert(self@ =~= old(self)@.remove(app@));
            },
        }
    }

    /// Gives `app` the policy `policy`, replacing any earlier one.
    pub fn set(&mut self, app: &str, policy: AuthPolicy)
        requires
            old(self).wf(),
        ensures
            final(self).wf(),
            final(self)@ == old(self)@.insert(app@, policy@),
    {
        let ghost pre = self.entries@;
        let ghost p = policy@;
        match self.position(app) {
            Some(i) => {
                let name = self.entries[i].app.clone();
                self.entries.set(i, PolicyEntry { app: name, policy });
                proof {
                    let post = self.entries@;
                    assert(distinct_names(post)) by {
                        assert forall|a: int, b: int|
                            0 <= a < post.len() && 0 <= b < post.len() && a != b implies post[a].app@
                            != post[b].app@ by {
                            assert(pre[a].app@ == post[a].app@);
                            assert(pre[b].app@ == post[b].app@);
                        }
                    }
                    assert forall|k: Seq<char>| #[trigger] self@.contains_key(k) == old(self)@.insert(
                        app@,
                        p,
                    ).contains_key(k) by {
                        if exists|j: int| names_at(pre, j, k) {
                            let j = choose|j: int| names_at(pre, j, k);
                            assert(names_at(post, j, k));
                        }
                        if exists|j: int| names_at(post, j, k) {
                            let j = choose|j: int| names_at(post, j, k);
                            assert(names_at(pre, j, k));
                        }
                        if k == app@ {
                            assert(names_at(post, i as int, k));
                        }
                    }
                    assert forall|k: Seq<char>| #[trigger] self@.contains_key(k) implies self@[k]
                        == old(self)@.insert(app@, p)[k] by {
                        let j = choose|j: int| names_at(post, j, k);
                        lemma_entry_value(post, j);
                        if k != app@ {
                            assert(names_at(pre, j, k));
                            lemma_entry_value(pre, j);
                        }
                    }
                    assert(self@ =~= old(self)@.insert(app@, p));
                }
            },
            None => {
                let name = String::from_str(app);
                self.entries.push(PolicyEntry { app: name, policy });
                proof {
                    let post = self.entries@;
                    let n = pre.len() as int;
                    assert(distinct_names(post)) by {
                        assert forall|a: int, b: int|
                            0 <= a < post.len() && 0 <= b < post.len() && a != b implies post[a].app@
                            != post[b].app@ by {
                            if a == n {
                                assert(!names_at(pre, b, app@));
                            } else if b == n {
                                assert(!names_at(pre, a, app@));
                            } else {
                                assert(pre[a] == post[a]);
                                assert(pre[b] == post[b]);
                            }
                        }
                    }
                    assert forall|k: Seq<char>| #[trigger] self@.contains_key(k) == old(self)@.insert(
                        app@,
                        p,
                    ).contains_key(k) by {
                        if exists|j: int| names_at(pre, j, k) {
                            let j = choose|j: int| names_at(pre, j, k);
                            assert(names_at(post, j, k));
                        }
                        if exists|j: int| names_at(post, j, k) {
                            let j = choose|j: int| names_at(post, j, k);
                            if j < n {
                                assert(names_at(pre, j, k));
                            }
                        }
                        if k == app@ {
                            assert(names_at(post, n, k));
                        }
                    }
                    assert forall|k: Seq<char>| #[trigger] self@.contains_key(k) implies self@[k]
                        == old(self)@.insert(app@, p)[k] by {
                        let j = choose|j: int| names_at(post, j, k);
                        lemma_entry_value(post, j);
                        if k != app@ {
                            assert(j != n);
                            assert(names_at(pre, j, k));
                            lemma_entry_value(pre, j);
                        }
                    }
                    assert(self@ =~= old(self)@.insert(app@, p));
                }
            },
        }
    }
}


/// The views of a sequence of entries, as (name, policy) pairs.
pub open spec fn entry_views(s: Seq<PolicyEntry>) -> Seq<(Seq<char>, PolicyModel)> {
    s.map_values(|e: PolicyEntry| (e.app@, e.policy@))
}

/// The table that setting each pair in turn builds from an empty one.
pub open spec fn fold_pairs(s: Seq<(Seq<char>, PolicyModel)>) -> Map<Seq<char>, PolicyModel>
    decreases s.len(),
{
    if s.len() == 0 {
        Map::empty()
    } else {
        fold_pairs(s.drop_last()).insert(s.last().0, s.last().1)
    }
}

proof fn lemma_push_entry(s: Seq<PolicyEntry>, e: PolicyEntry)
    requires
        distinct_names(s.push(e)),
    ensures
        distinct_names(s),
        entries_map(s.push(e)) == entries_map(s).insert(e.app@, e.policy@),
{
    let t = s.push(e);
    let n = s.len() as int;
    assert forall|a: int, b: int| 0 <= a < s.len() && 0 <= b < s.len() && a != b implies s[a].app@
        != s[b].app@ by {
        assert(t[a] == s[a] && t[b] == s[b]);
    }
    assert forall|k: Seq<char>| #[trigger] entries_map(t).contains_key(k) == entries_map(s).insert(
        e.app@,
        e.policy@,
    ).contains_key(k) by {
        if exists|j: int| names_at(s, j, k) {
            let j = choose|j: int| names_at(s, j, k);
            assert(names_at(t, j, k));
        }
        if exists|j: int| names_at(t, j, k) {
            let j = choose|j: int| names_at(t, j, k);
            if j < n {
                assert(names_at(s, j, k));
            }
        }
        if k == e.app@ {
            assert(names_at(t, n, k));
        }
    }
    assert forall|k: Seq<char>| #[trigger] entries_map(t).contains_key(k) implies entries_map(t)[k]
        == entries_map(s).insert(e.app@, e.policy@)[k] by {
        let j = choose|j: int| names_at(t, j, k);
        lemma_entry_value(t, j);
        if k != e.app@ {
            assert(j != n);
            assert(names_at(s, j, k));
            lemma_entry_value(s, j);
        }
    }
    assert(entries_map(t) =~= entries_map(s).insert(e.app@, e.policy@));
}

proof fn lemma_fold_entries(s: Seq<PolicyEntry>)
    requires
        distinct_names(s),
    ensures
        fold_pairs(entry_views(s)) == entries_map(s),
    decreases s.len(),
{
    if s.len() == 0 {
        assert(entries_map(s) =~= Map::<Seq<char>, PolicyModel>::empty());
    } else {
        let pre = s.drop_last();
        assert(pre.push(s.last()) =~= s);
        lemma_push_entry(pre, s.last());
        lemma_fold_entries(pre);
        assert(entry_views(s).drop_last() =~= entry_views(pre));
    }
}

/// Saving a table as its list of entries and building a table back from
/// that list, by setting each entry in turn, gives the same table.
pub proof fn lemma_persisted_table_round_trip(t: PolicyTable, saved: Seq<PolicyEntry>)
    requires
        t.wf(),
        entry_views(saved) == t.snapshot(),
    ensures
        fold_pairs(entry_views(saved)) == t@,
{
    lemma_fold_entries(t.entries@);
}

} // verus!
