//! Module-qualified names and visibility.

use crate::comparison::{
    compare_bool, compare_flags, compare_lists, compare_lists_from, compare_names, name_order,
    Comparison,
};
use crate::hashing::{concat_feeds, feed_bool, feed_list, feed_name, feed_u64, write_bool, write_usize};
use crate::ident::{names_of, Ident};
use std::collections::hash_map::DefaultHasher;
use vstd::prelude::*;

verus! {

/// Whether an item can be seen from outside its module.
#[derive(Clone, Copy, Debug, PartialEq, Eq, Hash, Structural)]
pub enum Visibility {
    Private,
    Public,
}

/// The visibility is written as a flag: whether the item is public.
pub open spec fn feed_visibility(v: Visibility) -> Seq<Seq<u8>> {
    feed_bool(v is Public)
}

/// Private comes before public.
pub open spec fn compare_visibility(a: Visibility, b: Visibility) -> Comparison {
    compare_bool(a is Public, b is Public)
}

impl Visibility {
    /// Compares two visibilities.
    pub fn compare(&self, other: &Visibility) -> (c: Comparison)
        ensures
            c == compare_visibility(*self, *other),
    {
        let a = match self {
            Visibility::Private => false,
            Visibility::Public => true,
        };
        let b = match other {
            Visibility::Private => false,
            Visibility::Public => true,
        };
        compare_flags(a, b)
    }

    /// Writes the visibility to a hasher.
    pub fn hash(&self, state: &mut DefaultHasher)
        ensures
            final(state)@ == old(state)@ + feed_visibility(*self),
    {
        match self {
            Visibility::Private => write_bool(state, false),
            Visibility::Public => write_bool(state, true),
        }
    }
}

/// The name of an item, qualified by the modules it lies in.
#[derive(Clone, Debug)]
pub struct CallPath {
    pub prefixes: Vec<Ident>,
    pub suffix: Ident,
    pub is_absolute: bool,
}

/// What two paths must agree on to be the same path: the names, and whether
/// the path starts at the root.
pub struct PathName {
    pub prefixes: Seq<Seq<char>>,
    pub suffix: Seq<char>,
    pub is_absolute: bool,
}

impl View for CallPath {
    type V = PathName;

    open spec fn view(&self) -> PathName {
        PathName {
            prefixes: names_of(self.prefixes@),
            suffix: self.suffix@,
            is_absolute: self.is_absolute,
        }
    }
}

/// What each of `names` writes.
pub open spec fn feed_each_name(names: Seq<Seq<char>>) -> Seq<Seq<Seq<u8>>> {
    Seq::new(names.len(), |i: int| feed_name(names[i]))
}

/// A path is written as the list of its prefixes, its last name, and
/// whether it starts at the root.
pub open spec fn feed_path(path: PathName) -> Seq<Seq<u8>> {
    feed_list(feed_each_name(path.prefixes)) + feed_name(path.suffix) + feed_bool(path.is_absolute)
}

/// Paths are ordered by their prefixes, then by their last name, then
/// by whether they start at the root.
pub open spec fn compare_paths(a: PathName, b: PathName) -> Comparison {
    compare_lists(a.prefixes, b.prefixes, name_order()).chain(
        compare_names(a.suffix, b.suffix),
    ).chain(compare_bool(a.is_absolute, b.is_absolute))
}

impl CallPath {
    /// Compares two paths.
    pub fn compare(&self, other: &CallPath) -> (c: Comparison)
        ensures
            c == compare_paths(self@, other@),
    {
        let ghost xs = self@.prefixes;
        let ghost ys = other@.prefixes;
        let mut i: usize = 0;
        while i < self.prefixes.len() && i < other.prefixes.len()
            invariant
                xs == self@.prefixes,
                ys == other@.prefixes,
                i <= self.prefixes@.len(),
                i <= other.prefixes@.len(),
                compare_lists(xs, ys, name_order()) == compare_lists_from(
                    xs,
                    ys,
                    name_order(),
                    i as int,
                ),
            decreases self.prefixes@.len() - i,
        {
            let here = self.prefixes[i].compare(&other.prefixes[i]);
            if !here.is_equal() {
                return here;
            }
            i += 1;
        }
        if i < other.prefixes.len() {
            return Comparison::Less;
        }
        if i < self.prefixes.len() {
            return Comparison::Greater;
        }
        let by_suffix = self.suffix.compare(&other.suffix);
        if !by_suffix.is_equal() {
            return by_suffix;
        }
        compare_flags(self.is_absolute, other.is_absolute)
    }

    /// Whether two paths are the same, name for name.
    pub fn eq(&self, other: &CallPath) -> (r: bool)
        ensures
            r == (self@ == other@),
    {
        if self.is_absolute != other.is_absolute || self.suffix != other.suffix {
            return false;
        }
        if self.prefixes.len() != other.prefixes.len() {
            assert(self@.prefixes.len() != other@.prefixes.len());
            return false;
        }
        let mut i: usize = 0;
        while i < self.prefixes.len()
            invariant
                self.prefixes@.len() == other.prefixes@.len(),
                i <= self.prefixes@.len(),
                forall|k: int| 0 <= k < i ==> self.prefixes@[k]@ == other.prefixes@[k]@,
            decreases self.prefixes@.len() - i,
        {
            if self.prefixes[i] != other.prefixes[i] {
                assert(self@.prefixes[i as int] != other@.prefixes[i as int]);
                return false;
            }
            i += 1;
        }
        assert(self@.prefixes =~= other@.prefixes);
        true
    }

    /// Writes the path to a hasher.
    pub fn hash(&self, state: &mut DefaultHasher)
        ensures
            final(state)@ == old(state)@ + feed_path(self@),
    {
        write_usize(state, self.prefixes.len());
        let ghost parts = feed_each_name(self@.prefixes);
        let ghost base = old(state)@ + feed_u64(self.prefixes@.len() as u64);
        let mut i: usize = 0;
        while i < self.prefixes.len()
            invariant
                parts == feed_each_name(self@.prefixes),
                i <= self.prefixes@.len(),
                state@ == base + concat_feeds(parts, i as int),
            decreases self.prefixes@.len() - i,
        {
            let ghost before = state@;
            self.prefixes[i].hash(state);
            assert(state@ == base + concat_feeds(parts, i + 1)) by {
                assert(before + parts[i as int] =~= base + (concat_feeds(parts, i as int)
                    + parts[i as int]));
            }
            i += 1;
        }
        self.suffix.hash(state);
        write_bool(state, self.is_absolute);
        assert(state@ =~= old(state)@ + feed_path(self@));
    }
}

} // verus!
