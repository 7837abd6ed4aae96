//! Iteration driven by a list of steps: each step is handed, together with a
//! collection, to a script that picks the next item out of the collection.

use vstd::prelude::*;

verus! {

/// Walks `steps` and yields what `script` makes of the shared `items` at each
/// step. A step for which the script finds nothing ends the walk: the cursor
/// stays on that step.
#[verifier::reject_recursive_types(T)]
#[verifier::reject_recursive_types(D)]
#[verifier::reject_recursive_types(K)]
pub struct ScriptedIter<'a, T, D, K: Clone, S: Fn(&'a D, K) -> Option<T>> {
    index: usize,
    steps: &'a [K],
    items: &'a D,
    script: S,
}

impl<'a, T, D, K: Clone, S: Fn(&'a D, K) -> Option<T>> ScriptedIter<'a, T, D, K, S> {
    /// The position of the cursor: how many steps have yielded an item.
    pub closed spec fn index(&self) -> nat {
        self.index as nat
    }

    /// The steps, walked or not.
    pub closed spec fn steps(&self) -> Seq<K> {
        self.steps@
    }

    /// The collection the script reads.
    pub closed spec fn items(&self) -> &'a D {
        self.items
    }

    /// The script.
    pub closed spec fn script(&self) -> S {
        self.script
    }

    /// Whether the script may be called on every copy of step `i`.
    pub open spec fn callable(&self, i: int) -> bool {
        forall|k: K| cloned(self.steps()[i], k) ==> call_requires(self.script(), (self.items(), k))
    }

    /// Whether `r` is what the script may return for some copy of step `i`.
    pub open spec fn yields(&self, i: int, r: Option<T>) -> bool {
        exists|k: K| cloned(self.steps()[i], k) && call_ensures(self.script(), (self.items(), k), r)
    }

    /// An iterator at the first of `steps`.
    pub fn new(items: &'a D, steps: &'a [K], script: S) -> (it: Self)
        ensures
            it.index() == 0,
            it.steps() == steps@,
            it.items() == items,
            it.script() == script,
    {
        Self { index: 0, steps, items, script }
    }

    /// Runs the script on the step under the cursor.
    ///
    /// Past the last step the result is `None`. Otherwise the result is the
    /// script's, and the cursor advances exactly when an item came back.
    pub fn next(&mut self) -> (r: Option<T>)
        requires
            old(self).index() < old(self).steps().len() ==> old(self).callable(
                old(self).index() as int,
            ),
        ensures
            final(self).steps() == old(self).steps(),
            final(self).items() == old(self).items(),
            final(self).script() == old(self).script(),
            old(self).index() >= old(self).steps().len() ==> r is None && final(self).index()
                == old(self).index(),
            old(self).index() < old(self).steps().len() ==> old(self).yields(
                old(self).index() as int,
                r,
            ) && final(self).index() == old(self).index() + if r is Some {
                1nat
            } else {
                0nat
            },
    {
        if self.index < self.steps.len() {
            let k = self.steps[self.index].clone();
            assert(cloned(old(self).steps()[old(self).index() as int], k));
            let r = (self.script)(self.items, k);
            match r {
                Some(item) => {
                    self.index += 1;
                    Some(item)
                },
                None => None,
            }
        } else {
            None
        }
    }
}

/// Walks `steps` and yields what `script` makes of the exclusively held
/// `items` at each step. The script may change the collection. Every call
/// moves the cursor on, whether or not an item came back.
#[verifier::reject_recursive_types(T)]
#[verifier::reject_recursive_types(D)]
#[verifier::reject_recursive_types(K)]
pub struct ScriptedMutIter<'a, T, D, K: Clone, S: Fn(&mut D, K) -> Option<T>> {
    index: usize,
    steps: &'a Vec<K>,
    items: &'a mut D,
    script: S,
}

impl<'a, T, D, K: Clone, S: Fn(&mut D, K) -> Option<T>> ScriptedMutIter<'a, T, D, K, S> {
    /// The position of the cursor: how many steps have been run.
    pub closed spec fn index(&self) -> nat {
        self.index as nat
    }

    /// The steps, run or not.
    pub closed spec fn steps(&self) -> Seq<K> {
        self.steps@
    }

    /// The collection as it stands now.
    pub closed spec fn items(&self) -> D {
        *self.items
    }

    /// The borrow of the collection that the iterator holds.
    pub closed spec fn borrow(&self) -> &'a mut D {
        self.items
    }

    /// The script.
    pub closed spec fn script(&self) -> S {
        self.script
    }

    /// Whether the script may be called on the collection as it stands and
    /// every copy of step `i`.
    pub open spec fn callable(&self, i: int) -> bool {
        forall|d: &mut D, k: K|
            cloned(self.steps()[i], k) && *d == self.items() ==> #[trigger] call_requires(
                self.script(),
                (d, k),
            )
    }

    /// Once the iterator is no longer used, the borrowed collection is left
    /// as the iterator last saw it.
    pub proof fn lemma_released(&self)
        requires
            has_resolved(*self),
        ensures
            *final(self.borrow()) == self.items(),
    {
    }

    /// An iterator at the first of `steps`.
    pub fn new(items: &'a mut D, steps: &'a Vec<K>, script: S) -> (it: Self)
        ensures
            it.index() == 0,
            it.steps() == steps@,
            it.items() == *old(items),
            *final(it.borrow()) == *final(items),
            it.script() == script,
    {
        Self { index: 0, steps, items, script }
    }

    /// Runs the script on the step under the cursor and moves on.
    ///
    /// Past the last step the result is `None` and nothing changes. Otherwise
    /// the result and the collection afterwards are what the script makes of
    /// the collection as it stood and a copy of the step.
    pub fn next(&mut self) -> (r: Option<T>)
        requires
            old(self).index() < old(self).steps().len() ==> old(self).callable(
                old(self).index() as int,
            ),
        ensures
            final(self).steps() == old(self).steps(),
            final(self).script() == old(self).script(),
            *final(final(self).borrow()) == *final(old(self).borrow()),
            old(self).index() >= old(self).steps().len() ==> r is None && final(self).index()
                == old(self).index() && final(self).items() == old(self).items(),
            old(self).index() < old(self).steps().len() ==> final(self).index() == old(
                self,
            ).index() + 1,
            old(self).index() < old(self).steps().len() ==> exists|d: &mut D, k: K|
                cloned(old(self).steps()[old(self).index() as int], k) && *d == old(self).items()
                    && *final(d) == final(self).items() && #[trigger] call_ensures(
                    old(self).script(),
                    (d, k),
                    r,
                ),
    {
        if self.index < self.steps.len() {
            let k = self.steps[self.index].clone();
            assert(self.script == old(self).script());
            let r = (self.script)(&mut *self.items, k);
            self.index += 1;
            r
        } else {
            None
        }
    }
}

} // verus!
