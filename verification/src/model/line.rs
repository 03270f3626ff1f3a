//! Short inline vectors (`smallvec`) holding evolution lines of species keys
//! and the child indices that lead to a species in an evolution chain.
use smallvec::SmallVec;
use vstd::prelude::*;

verus! {

/// An evolution line: species keys, base species first. The keys are kept
/// in a `SmallVec` with room for three inline.
#[verifier::external_body]
#[derive(Debug)]
pub struct SpeciesLine {
    inner: SmallVec<[String; 3]>,
}

/// Child indices leading from the top of an evolution chain to one species,
/// kept in a `SmallVec` with room for three inline.
#[verifier::external_body]
#[derive(Debug)]
pub struct ChainIndices {
    inner: SmallVec<[usize; 3]>,
}

/// What a species line holds, in order.
pub uninterp spec fn line_items(v: SpeciesLine) -> Seq<String>;

/// What a list of chain indices holds, in order.
pub uninterp spec fn index_items(v: ChainIndices) -> Seq<usize>;

/// The indices of a list of chain indices, as integers.
pub open spec fn indices_view(v: ChainIndices) -> Seq<int> {
    index_items(v).map_values(|x: usize| x as int)
}

/// The keys of a species line, each by its text.
pub open spec fn line_keys(v: SpeciesLine) -> Seq<Seq<char>> {
    line_items(v).map_values(|s: String| s@)
}

/// Calls `SmallVec::new`; the vector it returns is empty.
#[verifier::external_body]
pub(crate) fn line_new() -> (fresh: SpeciesLine)
    ensures
        line_items(fresh) == Seq::<String>::empty(),
{
    SpeciesLine { inner: SmallVec::new() }
}

/// Calls `SmallVec::push`, which appends `key` (and panics only when the
/// length would pass `usize::MAX`).
#[verifier::external_body]
pub(crate) fn line_push(v: &mut SpeciesLine, key: String)
    requires
        line_items(*old(v)).len() < usize::MAX,
    ensures
        line_items(*final(v)) == line_items(*old(v)).push(key),
{
    v.inner.push(key);
}

/// Calls `SmallVec::len`.
#[verifier::external_body]
pub(crate) fn line_len(v: &SpeciesLine) -> (n: usize)
    ensures
        n == line_items(*v).len(),
{
    v.inner.len()
}

/// Indexes the vector (through the slice it dereferences to).
#[verifier::external_body]
pub(crate) fn line_get(v: &SpeciesLine, i: usize) -> (key: &String)
    requires
        i < line_items(*v).len(),
    ensures
        *key == line_items(*v)[i as int],
{
    &v.inner[i]
}

impl Clone for SpeciesLine {
    /// A line with clones of the same keys.
    fn clone(&self) -> (copy: Self)
        ensures
            line_keys(copy) == line_keys(*self),
    {
        let n = line_len(self);
        let mut copy = line_new();
        let mut i: usize = 0;
        while i < n
            invariant
                i <= n,
                n == line_items(*self).len(),
                line_items(copy) == line_items(*self).take(i as int),
            decreases n - i,
        {
            line_push(&mut copy, line_get(self, i).clone());
            assert(line_items(*self).take(i + 1) =~= line_items(*self).take(i as int).push(
                line_items(*self)[i as int],
            ));
            i = i + 1;
        }
        assert(line_items(*self).take(n as int) =~= line_items(*self));
        copy
    }
}

impl SpeciesLine {
    /// An empty line.
    pub fn new() -> (line: Self)
        ensures
            line_keys(line) == Seq::<Seq<char>>::empty(),
    {
        let line = line_new();
        assert(line_keys(line) =~= Seq::<Seq<char>>::empty());
        line
    }

    /// Appends a species key.
    pub fn push(&mut self, key: String)
        requires
            line_keys(*old(self)).len() < usize::MAX,
        ensures
            line_keys(*final(self)) == line_keys(*old(self)).push(key@),
    {
        line_push(self, key);
        assert(line_keys(*self) =~= line_keys(*old(self)).push(key@));
    }

    /// The number of keys.
    pub fn len(&self) -> (n: usize)
        ensures
            n == line_keys(*self).len(),
    {
        line_len(self)
    }

    /// The key at position `i`.
    pub fn get(&self, i: usize) -> (key: &String)
        requires
            i < line_keys(*self).len(),
        ensures
            key@ == line_keys(*self)[i as int],
    {
        line_get(self, i)
    }
}

/// Calls `SmallVec::new`; the vector it returns is empty.
#[verifier::external_body]
pub(crate) fn indices_new() -> (fresh: ChainIndices)
    ensures
        index_items(fresh) == Seq::<usize>::empty(),
{
    ChainIndices { inner: SmallVec::new() }
}

/// Calls `SmallVec::push`, which appends `i` (and panics only when the
/// length would pass `usize::MAX`).
#[verifier::external_body]
pub(crate) fn indices_push(v: &mut ChainIndices, i: usize)
    requires
        index_items(*old(v)).len() < usize::MAX,
    ensures
        index_items(*final(v)) == index_items(*old(v)).push(i),
{
    v.inner.push(i);
}

/// Calls `SmallVec::len`.
#[verifier::external_body]
pub(crate) fn indices_len(v: &ChainIndices) -> (n: usize)
    ensures
        n == index_items(*v).len(),
{
    v.inner.len()
}

/// Indexes the vector (through the slice it dereferences to).
#[verifier::external_body]
pub(crate) fn indices_get(v: &ChainIndices, i: usize) -> (x: usize)
    requires
        i < index_items(*v).len(),
    ensures
        x == index_items(*v)[i as int],
{
    v.inner[i]
}

/// Calls `SmallVec::clone`, which clones the items one by one; `usize`
/// clones are copies.
#[verifier::external_body]
pub(crate) fn indices_clone(v: &ChainIndices) -> (copy: ChainIndices)
    ensures
        index_items(copy) == index_items(*v),
{
    ChainIndices { inner: v.inner.clone() }
}

} // verus!
