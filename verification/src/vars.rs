//! The process-wide variable store and the set of configuration files that
//! have already been rendered. Both live in the rendering context and are
//! specified as a `Map` and a `Set` over character sequences.

use vstd::prelude::*;

use crate::text::str_eq;

verus! {

/// A scalar value a variable can hold: string, unsigned integer or boolean.
pub enum ScalarValue {
    Str(String),
    UInt(u32),
    Bool(bool),
}

/// The mathematical shape of a [`ScalarValue`].
pub enum SpecScalar {
    Str(Seq<char>),
    UInt(u32),
    Bool(bool),
}

impl View for ScalarValue {
    type V = SpecScalar;

    open spec fn view(&self) -> SpecScalar {
        match self {
            ScalarValue::Str(s) => SpecScalar::Str(s@),
            ScalarValue::UInt(n) => SpecScalar::UInt(*n),
            ScalarValue::Bool(b) => SpecScalar::Bool(*b),
        }
    }
}

/// Key/value store of scalar values: one flat namespace, last write wins.
pub struct VarStore {
    entries: Vec<(String, ScalarValue)>,
}

/// The latest binding for `k`, scanning bindings newest first.
spec fn assoc(s: Seq<(String, ScalarValue)>, k: Seq<char>) -> Option<SpecScalar>
    decreases s.len(),
{
    if s.len() == 0 {
        None
    } else if s.last().0@ == k {
        Some(s.last().1@)
    } else {
        assoc(s.drop_last(), k)
    }
}

impl View for VarStore {
    type V = Map<Seq<char>, SpecScalar>;

    closed spec fn view(&self) -> Map<Seq<char>, SpecScalar> {
        Map::new(
            |k: Seq<char>| assoc(self.entries@, k) is Some,
            |k: Seq<char>| assoc(self.entries@, k)->0,
        )
    }
}

impl VarStore {
    /// An empty store.
    pub fn new() -> (r: VarStore)
        ensures
            r@ == Map::<Seq<char>, SpecScalar>::empty(),
    {
        let r = VarStore { entries: Vec::new() };
        proof {
            assert(r@ =~= Map::<Seq<char>, SpecScalar>::empty());
        }
        r
    }

    /// Binds `key` to `value`, overwriting any earlier binding.
    pub fn set(&mut self, key: &str, value: ScalarValue)
        ensures
            final(self)@ == old(self)@.insert(key@, value@),
    {
        let k: String = key.to_owned();
        let ghost oldentries = self.entries@;
        self.entries.push((k, value));
        proof {
            assert(self.entries@.drop_last() =~= oldentries);
            assert forall|k2: Seq<char>| true implies assoc(self.entries@, k2) == (if k2 == key@ {
                Some(value@)
            } else {
                assoc(oldentries, k2)
            }) by {
                assert(self.entries@.last().0@ == key@);
            }
            assert(self@ =~= old(self)@.insert(key@, value@));
        }
    }

    /// The value bound to `key`, if any.
    pub fn get<'a>(&'a self, key: &str) -> (r: Option<&'a ScalarValue>)
        ensures
            match r {
                Some(v) => self@.contains_key(key@) && self@[key@] == v@,
                None => !self@.contains_key(key@),
            },
    {
        let n = self.entries.len();
        let mut i: usize = n;
        assert(self.entries@.subrange(0, n as int) =~= self.entries@);
        while i > 0
            invariant
                i <= n,
                n == self.entries@.len(),
                assoc(self.entries@, key@) == assoc(self.entries@.subrange(0, i as int), key@),
            decreases i,
        {
            i = i - 1;
            let ghost prefix = self.entries@.subrange(0, i + 1);
            assert(prefix.last() == self.entries@[i as int]);
            if str_eq(self.entries[i].0.as_str(), key) {
                return Some(&self.entries[i].1);
            }
            assert(prefix.drop_last() =~= self.entries@.subrange(0, i as int));
        }
        assert(self.entries@.subrange(0, 0).len() == 0);
        None
    }
}

/// The set of canonical configuration paths already rendered in this run.
/// It only ever grows; membership is checked and recorded in one step.
pub struct IncludeSet {
    paths: Vec<String>,
}

impl View for IncludeSet {
    type V = Set<Seq<char>>;

    closed spec fn view(&self) -> Set<Seq<char>> {
        Set::new(|k: Seq<char>| exists|i: int| 0 <= i < self.paths@.len() && self.paths@[i]@ == k)
    }
}

impl IncludeSet {
    /// An empty set.
    pub fn new() -> (r: IncludeSet)
        ensures
            r@ == Set::<Seq<char>>::empty(),
    {
        let r = IncludeSet { paths: Vec::new() };
        proof {
            assert(r@ =~= Set::<Seq<char>>::empty());
        }
        r
    }

    /// Records `path` as rendered; reports whether it already was. Check and
    /// record are one operation, so the answer is exact even when rendering
    /// branches race to the same file.
    pub fn check_and_insert(&mut self, path: &str) -> (r: bool)
        ensures
            r == old(self)@.contains(path@),
            final(self)@ == old(self)@.insert(path@),
    {
        let n = self.paths.len();
        let mut i: usize = 0;
        while i < n
            invariant
                i <= n,
                n == self.paths@.len(),
                forall|j: int| 0 <= j < i ==> self.paths@[j]@ != path@,
            decreases n - i,
        {
            if str_eq(self.paths[i].as_str(), path) {
                proof {
                    assert(old(self)@.contains(path@));
                    assert(self@ =~= old(self)@.insert(path@));
                }
                return true;
            }
            i = i + 1;
        }
        assert(!old(self)@.contains(path@));
        let p: String = path.to_owned();
        self.paths.push(p);
        proof {
            assert forall|k: Seq<char>| self@.contains(k) implies old(self)@.insert(
                path@,
            ).contains(k) by {
                let w = choose|j: int| 0 <= j < self.paths@.len() && self.paths@[j]@ == k;
                if w < self.paths@.len() - 1 {
                    assert(old(self).paths@[w]@ == k);
                }
            }
            assert forall|k: Seq<char>| old(self)@.insert(path@).contains(k) implies self@.contains(
                k,
            ) by {
                if k == path@ {
                    assert(self.paths@[self.paths@.len() - 1]@ == k);
                } else {
                    let w = choose|j: int|
                        0 <= j < old(self).paths@.len() && old(self).paths@[j]@ == k;
                    assert(self.paths@[w]@ == k);
                }
            }
            assert(self@ =~= old(self)@.insert(path@));
        }
        false
    }
}

/// `w1` is `w0` with zero or more warnings appended.
pub open spec fn warnings_extended(w0: Seq<String>, w1: Seq<String>) -> bool {
    w0.map_values(|w: String| w@).is_prefix_of(w1.map_values(|w: String| w@))
}

/// Appending warnings is transitive.
pub proof fn lemma_warnings_trans(w0: Seq<String>, w1: Seq<String>, w2: Seq<String>)
    requires
        warnings_extended(w0, w1),
        warnings_extended(w1, w2),
    ensures
        warnings_extended(w0, w2),
{
    let v0 = w0.map_values(|w: String| w@);
    let v1 = w1.map_values(|w: String| w@);
    let v2 = w2.map_values(|w: String| w@);
    assert(v0 =~= v2.subrange(0, v0.len() as int));
}

/// A list extends itself.
pub proof fn lemma_warnings_refl(w: Seq<String>)
    ensures
        warnings_extended(w, w),
{
    let v = w.map_values(|x: String| x@);
    assert(v =~= v.subrange(0, v.len() as int));
}

/// Adding entries extends the list.
pub proof fn lemma_warnings_append(w0: Seq<String>, w1: Seq<String>, tail: Seq<Seq<char>>)
    requires
        w1.map_values(|w: String| w@) == w0.map_values(|w: String| w@) + tail,
    ensures
        warnings_extended(w0, w1),
{
    let v0 = w0.map_values(|w: String| w@);
    let v1 = w1.map_values(|w: String| w@);
    assert(v0 =~= v1.subrange(0, v0.len() as int));
}

/// Rendering a file records it, and recording is idempotent: after a path
/// has been recorded once, every later check of the same path reports it as
/// already rendered and leaves the set as it was. With
/// [`IncludeSet::check_and_insert`]'s contract this is what makes a
/// configuration that reaches the same file twice — directly or through two
/// different branches — render it exactly once.
pub proof fn lemma_included_at_most_once(s0: Set<Seq<char>>, p: Seq<char>)
    ensures
        s0.insert(p).contains(p),
        s0.insert(p).insert(p) == s0.insert(p),
{
    assert(s0.insert(p).insert(p) =~= s0.insert(p));
}

} // verus!
