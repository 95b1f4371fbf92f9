//! The label triple that marks a container as belonging to a scope.
//!
//! Every container started for a scope carries three labels:
//! `{scope}.testcontainers.scope = {scope}`,
//! `{scope}.testcontainers.container = {role}`, and
//! `{scope}.testcontainers.prune = "true"`.
//! The exact key format is load-bearing: later, independent runs rediscover
//! containers only through these keys, so they must be reproduced verbatim.

use vstd::prelude::*;
use vstd::string::StringExecFns;

verus! {

/// The key carrying the scope value: `{scope}.testcontainers.scope`.
pub open spec fn scope_key_spec(scope: Seq<char>) -> Seq<char> {
    scope + ".testcontainers.scope"@
}

/// The key carrying the role value: `{scope}.testcontainers.container`.
pub open spec fn container_key_spec(scope: Seq<char>) -> Seq<char> {
    scope + ".testcontainers.container"@
}

/// The key carrying the prune sentinel: `{scope}.testcontainers.prune`.
pub open spec fn prune_key_spec(scope: Seq<char>) -> Seq<char> {
    scope + ".testcontainers.prune"@
}

/// Builds the key carrying the scope value.
pub fn scope_label_key(scope: &str) -> (key: String)
    ensures
        key@ == scope_key_spec(scope@),
{
    scope.to_owned().concat(".testcontainers.scope")
}

/// Builds the key carrying the role value.
pub fn container_label_key(scope: &str) -> (key: String)
    ensures
        key@ == container_key_spec(scope@),
{
    scope.to_owned().concat(".testcontainers.container")
}

/// Builds the key carrying the prune sentinel.
pub fn prune_label_key(scope: &str) -> (key: String)
    ensures
        key@ == prune_key_spec(scope@),
{
    scope.to_owned().concat(".testcontainers.prune")
}

/// The three label keys are pairwise distinct for any one scope, so inserting
/// all three into a label map never makes one overwrite another.
pub proof fn lemma_label_keys_distinct(scope: Seq<char>)
    ensures
        scope_key_spec(scope) != container_key_spec(scope),
        scope_key_spec(scope) != prune_key_spec(scope),
        container_key_spec(scope) != prune_key_spec(scope),
{
    reveal_strlit(".testcontainers.scope");
    reveal_strlit(".testcontainers.container");
    reveal_strlit(".testcontainers.prune");
    assert(scope_key_spec(scope).len() != container_key_spec(scope).len());
    assert(container_key_spec(scope).len() != prune_key_spec(scope).len());
    // `.testcontainers.scope` and `.testcontainers.prune` have the same
    // length; they differ at the first character after the shared prefix.
    assert(scope_key_spec(scope)[scope.len() + 16int] == 's');
    assert(prune_key_spec(scope)[scope.len() + 16int] == 'p');
}

/// The map a sequence of key/value entries denotes when entries are inserted
/// in order: a later entry for a key overrides an earlier one.
pub open spec fn label_map_of(entries: Seq<(Seq<char>, Seq<char>)>) -> Map<Seq<char>, Seq<char>>
    decreases entries.len(),
{
    if entries.len() == 0 {
        Map::empty()
    } else {
        label_map_of(entries.drop_last()).insert(entries.last().0, entries.last().1)
    }
}

/// The labels of a request after the triple for `scope` and `role` is added.
pub open spec fn labeled_map(
    m: Map<Seq<char>, Seq<char>>,
    scope: Seq<char>,
    role: Seq<char>,
) -> Map<Seq<char>, Seq<char>> {
    m.insert(prune_key_spec(scope), "true"@).insert(scope_key_spec(scope), scope).insert(
        container_key_spec(scope),
        role,
    )
}

/// The labels carried by a container request that is not yet started.
///
/// This is the request as the labeling step sees it: an ordered list of
/// key/value entries whose meaning is the map where a later entry for a key
/// overrides an earlier one, exactly as a label map that is filled in entry
/// order would behave.
pub struct RequestLabels {
    pub entries: Vec<(String, String)>,
}

proof fn lemma_label_map_of_push(entries: Seq<(Seq<char>, Seq<char>)>, p: (Seq<char>, Seq<char>))
    ensures
        label_map_of(entries.push(p)) == label_map_of(entries).insert(p.0, p.1),
{
    assert(entries.push(p).drop_last() =~= entries);
    assert(entries.push(p).last() == p);
}

impl RequestLabels {
    /// The label map this request carries.
    pub open spec fn label_map(self) -> Map<Seq<char>, Seq<char>> {
        label_map_of(self.entries.deep_view())
    }

    /// The label entries in the order they were added.
    pub open spec fn entries_spec(self) -> Seq<(Seq<char>, Seq<char>)> {
        self.entries.deep_view()
    }

    /// A request carrying no labels yet.
    pub fn new() -> (r: Self)
        ensures
            r.entries_spec() == Seq::<(Seq<char>, Seq<char>)>::empty(),
            r.label_map() == Map::<Seq<char>, Seq<char>>::empty(),
    {
        let r = RequestLabels { entries: Vec::new() };
        proof {
            assert(r.entries.deep_view() =~= Seq::<(Seq<char>, Seq<char>)>::empty());
        }
        r
    }

    /// Adds one label; an entry for a key already present overrides it.
    pub fn add_label(&mut self, key: String, value: String)
        ensures
            final(self).entries_spec() == old(self).entries_spec().push((key@, value@)),
            final(self).label_map() == old(self).label_map().insert(key@, value@),
    {
        let ghost before = self.entries.deep_view();
        self.entries.push((key, value));
        proof {
            assert(self.entries.deep_view() =~= before.push((key@, value@)));
            lemma_label_map_of_push(before, (key@, value@));
        }
    }

    /// Adds the label triple for `scope` and `role`: the prune sentinel, the
    /// scope key, and the role key, in that order. Re-applying the same
    /// triple is safe: entries override by key.
    pub fn with_label_triple(self, scope: &str, role: &str) -> (r: Self)
        ensures
            r.label_map() == labeled_map(self.label_map(), scope@, role@),
    {
        let mut r = self;
        r.add_label(prune_label_key(scope), "true".to_owned());
        r.add_label(scope_label_key(scope), scope.to_owned());
        r.add_label(container_label_key(scope), role.to_owned());
        r
    }

    /// The value the request carries for `key`, if any: the last entry wins.
    pub fn label_value(&self, key: &str) -> (r: Option<&String>)
        ensures
            match r {
                Some(v) => self.label_map().contains_key(key@) && v@ == self.label_map()[key@],
                None => !self.label_map().contains_key(key@),
            },
    {
        let wanted: String = key.to_owned();
        let ghost dv = self.entries.deep_view();
        let mut i: usize = self.entries.len();
        proof {
            assert(dv.take(i as int) =~= dv);
        }
        while i > 0
            invariant
                i <= self.entries@.len(),
                dv == self.entries.deep_view(),
                wanted@ == key@,
                label_map_of(dv).contains_key(key@) == label_map_of(dv.take(i as int)).contains_key(
                    key@,
                ),
                label_map_of(dv).contains_key(key@) ==> label_map_of(dv)[key@] == label_map_of(
                    dv.take(i as int),
                )[key@],
            decreases i,
        {
            proof {
                assert(dv.take(i as int).drop_last() =~= dv.take(i - 1));
                assert(dv.take(i as int).last() == dv[i - 1]);
            }
            if self.entries[i - 1].0 == wanted {
                return Some(&self.entries[i - 1].1);
            }
            i = i - 1;
        }
        proof {
            assert(dv.take(0) =~= Seq::<(Seq<char>, Seq<char>)>::empty());
        }
        None
    }

    /// The number of label entries.
    pub fn len(&self) -> (n: usize)
        ensures
            n == self.entries_spec().len(),
    {
        self.entries.len()
    }
}

/// Re-applying the same triple is safe: labeling an already labeled request
/// changes nothing, because label maps override by key.
pub proof fn lemma_label_triple_idempotent(
    m: Map<Seq<char>, Seq<char>>,
    scope: Seq<char>,
    role: Seq<char>,
)
    ensures
        labeled_map(labeled_map(m, scope, role), scope, role) == labeled_map(m, scope, role),
{
    assert(labeled_map(labeled_map(m, scope, role), scope, role) =~= labeled_map(m, scope, role));
}

/// Label completeness: after the triple for `scope` and `role` is added, the
/// resulting label map holds exactly `scope` under the scope key, `role`
/// under the role key, and `"true"` under the prune key, whatever the request
/// carried before.
pub proof fn lemma_label_completeness(
    m: Map<Seq<char>, Seq<char>>,
    scope: Seq<char>,
    role: Seq<char>,
)
    ensures
        labeled_map(m, scope, role).contains_key(scope_key_spec(scope)),
        labeled_map(m, scope, role).contains_key(container_key_spec(scope)),
        labeled_map(m, scope, role).contains_key(prune_key_spec(scope)),
        labeled_map(m, scope, role)[scope_key_spec(scope)] == scope,
        labeled_map(m, scope, role)[container_key_spec(scope)] == role,
        labeled_map(m, scope, role)[prune_key_spec(scope)] == "true"@,
{
    lemma_label_keys_distinct(scope);
}

} // verus!
