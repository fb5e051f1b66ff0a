//! Lists of the distances that a radar can be set to.

use vstd::prelude::*;

verus! {

/// A distance that a radar can be set to, in meters.
#[derive(Clone, Copy, Debug, PartialEq, Eq, Structural)]
pub struct Range {
    pub meters: i32,
}

impl Range {
    /// The distance in meters.
    pub fn distance(&self) -> (r: i32)
        ensures
            r == self.meters,
    {
        self.meters
    }
}

/// The distances that a radar can be set to, nearest first, none twice.
#[derive(Clone, Debug)]
pub struct Ranges {
    pub all: Vec<Range>,
}

impl View for Ranges {
    type V = Seq<i32>;

    open spec fn view(&self) -> Seq<i32> {
        Seq::new(self.all@.len(), |i: int| self.all@[i].meters)
    }
}

/// Whether each distance is nearer than the next.
pub open spec fn increasing(s: Seq<i32>) -> bool {
    forall|i: int, j: int| 0 <= i < j < s.len() ==> s[i] < s[j]
}

/// Whether `sorted` lists the distances of `given`, nearest first and each once.
pub open spec fn sorted_from(sorted: Seq<i32>, given: Seq<i32>) -> bool {
    &&& increasing(sorted)
    &&& forall|d: i32| sorted.contains(d) <==> given.contains(d)
}

/// The distances of `given`, nearest first and each once.
pub open spec fn sorted(given: Seq<i32>) -> Seq<i32> {
    choose|s: Seq<i32>| sorted_from(s, given)
}

/// The sorted list of given distances is unique.
pub proof fn lemma_sorted_from_unique(a: Seq<i32>, b: Seq<i32>, given: Seq<i32>)
    requires
        sorted_from(a, given),
        sorted_from(b, given),
    ensures
        a == b,
{
    lemma_increasing_unique(a, b);
}

proof fn lemma_increasing_unique(a: Seq<i32>, b: Seq<i32>)
    requires
        increasing(a),
        increasing(b),
        forall|d: i32| a.contains(d) <==> b.contains(d),
    ensures
        a == b,
    decreases a.len(),
{
    if a.len() == 0 {
        if b.len() > 0 {
            assert(b.contains(b[0]));
        }
        assert(a =~= b);
    } else {
        assert(a.contains(a.last()));
        assert(b.contains(a.last()));
        assert(b.contains(b.last()));
        assert(a.contains(b.last()));
        let i = choose|i: int| 0 <= i < b.len() && b[i] == a.last();
        let j = choose|j: int| 0 <= j < a.len() && a[j] == b.last();
        assert(a.last() == b.last());
        let x = a.drop_last();
        let y = b.drop_last();
        assert forall|d: i32| x.contains(d) <==> y.contains(d) by {
            if x.contains(d) {
                let k = choose|k: int| 0 <= k < x.len() && x[k] == d;
                assert(a[k] == d && d < a.last());
                assert(a.contains(d));
                let m = choose|m: int| 0 <= m < b.len() && b[m] == d;
                assert(y[m] == d);
            }
            if y.contains(d) {
                let k = choose|k: int| 0 <= k < y.len() && y[k] == d;
                assert(b[k] == d && d < b.last());
                assert(b.contains(d));
                let m = choose|m: int| 0 <= m < a.len() && a[m] == d;
                assert(x[m] == d);
            }
        }
        lemma_increasing_unique(x, y);
        assert(a =~= x.push(a.last()));
        assert(b =~= y.push(b.last()));
    }
}

impl Ranges {
    /// No distances.
    pub fn empty() -> (r: Ranges)
        ensures
            r@ == Seq::<i32>::empty(),
    {
        let r = Ranges { all: Vec::new() };
        assert(r@ =~= Seq::<i32>::empty());
        r
    }

    /// The given distances, nearest first and each once.
    pub fn new_by_distance(distances: &[i32]) -> (r: Ranges)
        ensures
            sorted_from(r@, distances@),
            r@ == sorted(distances@),
    {
        let mut r = Ranges::empty();
        let mut i: usize = 0;
        while i < distances.len()
            invariant
                i <= distances@.len(),
                sorted_from(r@, distances@.take(i as int)),
            decreases distances@.len() - i,
        {
            let ghost before = distances@.take(i as int);
            r.insert(distances[i]);
            proof {
                let seen = distances@.take(i + 1);
                assert(seen =~= before.push(distances@[i as int]));
                assert forall|d: i32| r@.contains(d) <==> seen.contains(d) by {
                    if seen.contains(d) {
                        let k = choose|k: int| 0 <= k < seen.len() && seen[k] == d;
                        if k < i {
                            assert(before[k] == d);
                        }
                    }
                    if before.contains(d) {
                        let k = choose|k: int| 0 <= k < before.len() && before[k] == d;
                        assert(seen[k] == d);
                    }
                    assert(seen[i as int] == distances@[i as int]);
                }
            }
            i += 1;
        }
        assert(distances@.take(i as int) =~= distances@);
        proof {
            lemma_sorted_from_unique(r@, sorted(distances@), distances@);
        }
        r
    }

    fn insert(&mut self, meters: i32)
        requires
            increasing(old(self)@),
        ensures
            increasing(final(self)@),
            forall|d: i32|
                final(self)@.contains(d) <==> old(self)@.contains(d) || d == meters,
    {
        let mut at: usize = 0;
        while at < self.all.len() && self.all[at].meters < meters
            invariant
                at <= self.all@.len(),
                self@ == old(self)@,
                increasing(self@),
                forall|k: int| 0 <= k < at ==> self@[k] < meters,
            decreases self.all@.len() - at,
        {
            at += 1;
        }
        if at < self.all.len() && self.all[at].meters == meters {
            assert(self@[at as int] == meters);
            return;
        }
        let ghost before = self@;
        self.all.insert(at, Range { meters });
        proof {
            let after = self@;
            assert(after =~= before.insert(at as int, meters));
            assert forall|i: int, j: int| 0 <= i < j < after.len() implies after[i] < after[j] by {
                if at < before.len() {
                    assert(before[at as int] > meters);
                }
            }
            assert forall|d: i32| after.contains(d) <==> before.contains(d) || d == meters by {
                if after.contains(d) {
                    let k = choose|k: int| 0 <= k < after.len() && after[k] == d;
                    if k < at {
                        assert(before[k] == d);
                    } else if k > at {
                        assert(before[k - 1] == d);
                    }
                }
                if before.contains(d) {
                    let k = choose|k: int| 0 <= k < before.len() && before[k] == d;
                    if k < at {
                        assert(after[k] == d);
                    } else {
                        assert(after[k + 1] == d);
                    }
                }
                assert(after[at as int] == meters);
            }
        }
    }
}

} // verus!
