//! The item-collection adapter: a capability contract over a sequence-like
//! data source, with a shared-vector implementation.
//!
//! Mutating visitation has copy-on-any-change semantics: the visitor works on
//! owned copies, and only when at least one copy comes back altered — by
//! value, not by identity — is the whole backing collection replaced by the
//! new sequence. An unchanged pass leaves the backing store untouched, which
//! is what a host relying on "same handle, no change" needs.

use std::sync::Arc;
use vstd::prelude::*;

verus! {

/// Value-comparable, copyable item data, the bound on everything a grid
/// displays.
pub trait Data: Sized {
    /// Whether the two values are the same, by value.
    fn same(&self, other: &Self) -> (r: bool)
        ensures
            r == (*self == *other),
    ;

    /// An owned copy of the value.
    fn clone_item(&self) -> (r: Self)
        ensures
            r == *self,
    ;
}

impl Data for u64 {
    fn same(&self, other: &Self) -> (r: bool)
        ensures
            r == (*self == *other),
    {
        *self == *other
    }

    fn clone_item(&self) -> (r: Self)
        ensures
            r == *self,
    {
        *self
    }
}

impl Data for bool {
    fn same(&self, other: &Self) -> (r: bool)
        ensures
            r == (*self == *other),
    {
        *self == *other
    }

    fn clone_item(&self) -> (r: Self)
        ensures
            r == *self,
    {
        *self
    }
}

/// A read-only visitor over the items of a collection.
pub trait GridVisitor<T: Data>: Sized {
    /// Visits the item at flat index `idx`.
    fn visit(&mut self, item: &T, idx: usize);
}

/// A mutating visitor over the items of a collection: it receives an owned
/// copy of each item and may replace it.
pub trait GridVisitorMut<T: Data>: Sized {
    /// Visits a copy of the item at flat index `idx`.
    fn visit(&mut self, item: &mut T, idx: usize);
}

/// The capability contract of a sequence-like data source a grid can display:
/// ordered iteration, read-only and mutating, length query, row-chunked
/// iteration, and single-item sampling.
pub trait GridIter<T: Data>: Sized {
    /// The items of the collection, in order.
    spec fn items(&self) -> Seq<T>;

    /// Visits every item once, in flat index order, read-only.
    fn for_each<V: GridVisitor<T>>(&self, cb: &mut V);

    /// Visits an owned copy of every item once, in flat index order. If any
    /// copy comes back altered, by value, the whole backing collection is
    /// atomically replaced by the new sequence, in original order; otherwise
    /// the backing collection is left untouched. Returns whether it was
    /// replaced.
    fn for_each_mut<V: GridVisitorMut<T>>(&mut self, cb: &mut V) -> (changed: bool)
        ensures
            final(self).items().len() == old(self).items().len(),
            changed == !(final(self).items() =~= old(self).items()),
            !changed ==> final(self).items() == old(self).items(),
    ;

    /// The number of items.
    fn data_len(&self) -> (n: usize)
        ensures
            n == self.items().len(),
    ;

    /// Some representative item, for wrap-mode measurement: `None` exactly
    /// when the collection is empty. Which item represents the collection is
    /// the implementation's consistent choice.
    fn child_data(&self) -> (r: Option<&T>)
        ensures
            match r {
                Option::Some(item) => self.items().len() > 0 && *item == self.items()[0],
                Option::None => self.items().len() == 0,
            },
    ;

    /// Like `for_each`, but the flat sequence is re-chunked into rows of
    /// `row_len` items first, so that chunk boundaries align with the grid's
    /// minor-axis count; the flat index each item is visited under is
    /// unchanged.
    fn row<V: GridVisitor<T>>(&self, cb: &mut V, row_len: usize)
        requires
            row_len >= 1,
    ;

    /// The row-chunked counterpart of `for_each_mut`, with the same
    /// copy-on-any-change contract.
    fn row_mut<V: GridVisitorMut<T>>(&mut self, cb: &mut V, row_len: usize) -> (changed: bool)
        requires
            row_len >= 1,
        ensures
            final(self).items().len() == old(self).items().len(),
            changed == !(final(self).items() =~= old(self).items()),
            !changed ==> final(self).items() == old(self).items(),
    ;

    /// The item at flat index `i`.
    fn item_at(&self, i: usize) -> (r: &T)
        requires
            i < self.items().len(),
        ensures
            *r == self.items()[i as int],
    ;

    /// Replaces the collection by `new` when `new` differs from the current
    /// items anywhere, by value; leaves the backing store untouched
    /// otherwise. This is the copy-on-any-change step the mutating
    /// visitations end in.
    fn commit_if_changed(&mut self, new: Vec<T>) -> (changed: bool)
        requires
            new@.len() == old(self).items().len(),
        ensures
            changed == !(new@ =~= old(self).items()),
            changed ==> final(self).items() == new@,
            !changed ==> final(self).items() == old(self).items(),
    ;
}

impl<T: Data> GridIter<T> for Arc<Vec<T>> {
    open spec fn items(&self) -> Seq<T> {
        self@
    }

    fn for_each<V: GridVisitor<T>>(&self, cb: &mut V) {
        let inner: &Vec<T> = &**self;
        let len = inner.len();
        let mut i: usize = 0;
        while i < len
            invariant
                i <= len,
                len == self@.len(),
                inner@.len() == len,
            decreases len - i,
        {
            cb.visit(&inner[i], i);
            i += 1;
        }
    }

    fn for_each_mut<V: GridVisitorMut<T>>(&mut self, cb: &mut V) -> (changed: bool)
        ensures
            final(self).items().len() == old(self).items().len(),
            changed == !(final(self).items() =~= old(self).items()),
            !changed ==> final(self).items() == old(self).items(),
    {
        let len = self.data_len();
        let mut new_data: Vec<T> = Vec::new();
        let mut i: usize = 0;
        while i < len
            invariant
                i <= len,
                len == self@.len(),
                *self == *old(self),
                new_data@.len() == i,
            decreases len - i,
        {
            let inner: &Vec<T> = &**self;
            let mut d = inner[i].clone_item();
            cb.visit(&mut d, i);
            new_data.push(d);
            i += 1;
        }
        self.commit_if_changed(new_data)
    }

    fn data_len(&self) -> (n: usize)
        ensures
            n == self.items().len(),
    {
        let inner: &Vec<T> = &**self;
        inner.len()
    }

    /// The representative item of a shared vector is its first element.
    fn child_data(&self) -> (r: Option<&T>)
        ensures
            match r {
                Option::Some(item) => self.items().len() > 0 && *item == self.items()[0],
                Option::None => self.items().len() == 0,
            },
    {
        let inner: &Vec<T> = &**self;
        if inner.len() == 0 {
            Option::None
        } else {
            Option::Some(&inner[0])
        }
    }

    /// For a flat vector the row-chunked walk visits the items in the same
    /// flat order with the same indices the unchunked walk uses, whatever the
    /// row length.
    fn row<V: GridVisitor<T>>(&self, cb: &mut V, row_len: usize) {
        self.for_each(cb);
    }

    fn row_mut<V: GridVisitorMut<T>>(&mut self, cb: &mut V, row_len: usize) -> (changed: bool)
        ensures
            final(self).items().len() == old(self).items().len(),
            changed == !(final(self).items() =~= old(self).items()),
            !changed ==> final(self).items() == old(self).items(),
    {
        self.for_each_mut(cb)
    }

    fn item_at(&self, i: usize) -> (r: &T)
        ensures
            *r == self.items()[i as int],
    {
        let inner: &Vec<T> = &**self;
        &inner[i]
    }

    fn commit_if_changed(&mut self, new: Vec<T>) -> (changed: bool)
        ensures
            changed == !(new@ =~= old(self).items()),
            changed ==> final(self).items() == new@,
            !changed ==> final(self).items() == old(self).items(),
    {
        let len = new.len();
        let mut any_changed = false;
        let mut i: usize = 0;
        while i < len
            invariant
                len == new@.len(),
                len == self@.len(),
                *self == *old(self),
                i <= len,
                any_changed == exists|j: int| 0 <= j < i && new@[j] != self@[j],
            decreases len - i,
        {
            if !any_changed {
                let inner: &Vec<T> = &**self;
                if !inner[i].same(&new[i]) {
                    any_changed = true;
                }
            }
            i += 1;
        }
        if any_changed {
            *self = Arc::new(new);
        }
        any_changed
    }
}

} // verus!
