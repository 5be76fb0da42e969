//! Object pool: a stack of reusable objects kept under slot numbers
//! `0..count`; an object is taken from the top slot and returned to the slot
//! named by the current count.
use vstd::prelude::*;
use std::collections::HashMap;
use vstd::wrapping::usize_specs;

verus! {

broadcast use vstd::std_specs::hash::group_hash_axioms;

/// Statistics for an object pool.
#[derive(Debug, Clone)]
pub struct PoolStats {
    pub available_count: usize,
    pub total_created: usize,
    pub max_size: usize,
}

/// Abstract state of an object pool.
pub struct ObjectPoolView<T> {
    /// The pooled objects by slot number.
    pub available: Map<usize, T>,
    /// The count of available objects as the pool keeps it.
    pub available_count: usize,
    /// The number of objects the factory has made.
    pub total_created: usize,
    /// The most objects the pool keeps (0: no limit).
    pub max_size: usize,
}

/// `x` advanced by one `n` times, wrapping at the top of `usize`.
pub open spec fn add_wrapping_n(x: usize, n: nat) -> usize
    decreases n,
{
    if n == 0 {
        x
    } else {
        usize_specs::wrapping_add(add_wrapping_n(x, (n - 1) as nat), 1)
    }
}

/// Every slot below the count holds an object: the stack is full up to
/// its top.
pub open spec fn stack_ok<T>(v: ObjectPoolView<T>) -> bool {
    forall|k: usize| k < v.available_count ==> #[trigger] v.available.contains_key(k)
}

/// An acquisition takes the top object rather than making one.
pub open spec fn takes_top<T>(v: ObjectPoolView<T>) -> bool {
    v.available_count > 0 && v.available.contains_key((v.available_count - 1) as usize)
}

/// Pool law: while the stack is full up to its top, an acquisition makes a
/// new object only when no object is available.
pub proof fn law_acquire_creates_only_when_empty<T>(v: ObjectPoolView<T>)
    requires
        stack_ok(v),
    ensures
        takes_top(v) <==> v.available_count > 0,
{
    if v.available_count > 0 {
        assert(v.available.contains_key((v.available_count - 1) as usize));
    }
}

/// A pool of reusable objects made by a factory.
pub struct ObjectPool<T, F> {
    available: HashMap<usize, T>,
    factory: F,
    available_count: usize,
    total_created: usize,
    max_size: usize,
}

impl<T, F: Fn() -> T> ObjectPool<T, F> {
    /// The abstract state of the pool.
    pub closed spec fn view(&self) -> ObjectPoolView<T> {
        ObjectPoolView {
            available: self.available@,
            available_count: self.available_count,
            total_created: self.total_created,
            max_size: self.max_size,
        }
    }

    /// The factory may be called with no arguments.
    pub closed spec fn factory_ok(&self) -> bool {
        call_requires(self.factory, ())
    }

    /// The factory may return `v`.
    pub closed spec fn made_by_factory(&self, v: T) -> bool {
        call_ensures(self.factory, (), v)
    }

    /// Create an empty pool (`max_size` 0 means no limit).
    pub fn new(factory: F, max_size: usize) -> (p: Self)
        requires
            call_requires(factory, ()),
        ensures
            p.view().available == Map::<usize, T>::empty(),
            p.view().available_count == 0,
            p.view().total_created == 0,
            p.view().max_size == max_size,
            p.factory_ok(),
            forall|v: T| p.made_by_factory(v) <==> call_ensures(factory, (), v),
            stack_ok(p.view()),
    {
        ObjectPool { available: HashMap::new(), factory, available_count: 0, total_created: 0, max_size }
    }

    /// Take the object on top of the stack (slot `count - 1`) when the count
    /// is positive and that slot holds one; the count falls by one. Otherwise
    /// make a new object with the factory (the creation count rises by one,
    /// wrapping).
    pub fn acquire(&mut self) -> (r: T)
        requires
            old(self).factory_ok(),
        ensures
            final(self).factory_ok(),
            forall|v: T| final(self).made_by_factory(v) == old(self).made_by_factory(v),
            final(self).view().max_size == old(self).view().max_size,
            takes_top(old(self).view()) ==> {
                let top = (old(self).view().available_count - 1) as usize;
                &&& r == old(self).view().available[top]
                &&& final(self).view().available == old(self).view().available.remove(top)
                &&& final(self).view().available_count == top
                &&& final(self).view().total_created == old(self).view().total_created
            },
            !takes_top(old(self).view()) ==> {
                &&& old(self).made_by_factory(r)
                &&& final(self).view().available == old(self).view().available
                &&& final(self).view().available_count == old(self).view().available_count
                &&& final(self).view().total_created == usize_specs::wrapping_add(old(self).view().total_created, 1)
            },
            stack_ok(old(self).view()) ==> stack_ok(final(self).view()),
    {
        if self.available_count > 0 {
            let top = self.available_count - 1;
            match self.available.remove(&top) {
                Some(obj) => {
                    self.available_count = top;
                    return obj;
                },
                None => {},
            }
        }
        let obj = (self.factory)();
        self.total_created = self.total_created.wrapping_add(1);
        obj
    }

    /// Return an object: when the pool has a limit and the count has reached
    /// it, the object is dropped; otherwise it goes into the slot named by
    /// the count, and the count rises by one (wrapping).
    pub fn release(&mut self, obj: T)
        ensures
            final(self).factory_ok() == old(self).factory_ok(),
            forall|v: T| final(self).made_by_factory(v) == old(self).made_by_factory(v),
            final(self).view().max_size == old(self).view().max_size,
            final(self).view().total_created == old(self).view().total_created,
            (old(self).view().max_size > 0 && old(self).view().available_count >= old(self).view().max_size)
                ==> final(self).view() == old(self).view(),
            !(old(self).view().max_size > 0 && old(self).view().available_count >= old(self).view().max_size) ==> {
                &&& final(self).view().available == old(self).view().available.insert(old(self).view().available_count, obj)
                &&& final(self).view().available_count == usize_specs::wrapping_add(old(self).view().available_count, 1)
            },
            stack_ok(old(self).view()) ==> stack_ok(final(self).view()),
    {
        let count = self.available_count;
        if self.max_size > 0 && count >= self.max_size {
            return;
        }
        let ghost before = self.available@;
        self.available.insert(count, obj);
        self.available_count = self.available_count.wrapping_add(1);
        proof {
            if stack_ok(old(self).view()) {
                assert(before == old(self).view().available);
                assert forall|k: usize| k < self.available_count implies #[trigger] self.available@.contains_key(k) by {
                    if k < count {
                        assert(before.contains_key(k));
                    }
                }
            }
        }
    }

    /// Fill slots `0..count` with new objects from the factory (other slots
    /// keep theirs) and set the count to `count`.
    pub fn pre_allocate(&mut self, count: usize)
        requires
            old(self).factory_ok(),
        ensures
            final(self).factory_ok(),
            forall|v: T| final(self).made_by_factory(v) == old(self).made_by_factory(v),
            final(self).view().max_size == old(self).view().max_size,
            final(self).view().available_count == count,
            final(self).view().total_created == add_wrapping_n(old(self).view().total_created, count as nat),
            forall|k: usize| k < count ==> {
                &&& #[trigger] final(self).view().available.contains_key(k)
                &&& old(self).made_by_factory(final(self).view().available[k])
            },
            forall|k: usize| #![trigger final(self).view().available.contains_key(k)] k >= count
                ==> final(self).view().available.contains_key(k) == old(self).view().available.contains_key(k),
            forall|k: usize| #![trigger final(self).view().available[k]] k >= count && old(self).view().available.contains_key(k)
                ==> final(self).view().available[k] == old(self).view().available[k],
            stack_ok(final(self).view()),
    {
        let ghost old_map = self.available@;
        let ghost old_total = self.total_created;
        let mut i: usize = 0;
        while i < count
            invariant
                i <= count,
                self.factory == old(self).factory,
                self.max_size == old(self).max_size,
                old_map == old(self).available@,
                old_total == old(self).total_created,
                call_requires(self.factory, ()),
                self.total_created == add_wrapping_n(old_total, i as nat),
                forall|k: usize| k < i ==> {
                    &&& #[trigger] self.available@.contains_key(k)
                    &&& call_ensures(self.factory, (), self.available@[k])
                },
                forall|k: usize| #![trigger self.available@.contains_key(k)] k >= i
                    ==> self.available@.contains_key(k) == old_map.contains_key(k),
                forall|k: usize| #![trigger self.available@[k]] k >= i && old_map.contains_key(k)
                    ==> self.available@[k] == old_map[k],
            decreases count - i,
        {
            let obj = (self.factory)();
            self.available.insert(i, obj);
            self.total_created = self.total_created.wrapping_add(1);
            i = i + 1;
        }
        self.available_count = count;
    }

    /// The pool's counters and limit.
    pub fn stats(&self) -> (s: PoolStats)
        ensures
            s.available_count == self.view().available_count,
            s.total_created == self.view().total_created,
            s.max_size == self.view().max_size,
    {
        PoolStats {
            available_count: self.available_count,
            total_created: self.total_created,
            max_size: self.max_size,
        }
    }

    /// Drop every pooled object and set the count to 0.
    pub fn clear(&mut self)
        ensures
            final(self).factory_ok() == old(self).factory_ok(),
            forall|v: T| final(self).made_by_factory(v) == old(self).made_by_factory(v),
            final(self).view().available == Map::<usize, T>::empty(),
            final(self).view().available_count == 0,
            final(self).view().total_created == old(self).view().total_created,
            final(self).view().max_size == old(self).view().max_size,
            stack_ok(final(self).view()),
    {
        self.available.clear();
        self.available_count = 0;
    }
}

} // verus!
