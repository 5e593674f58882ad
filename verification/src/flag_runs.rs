//! Runs of consecutive samples that meet a condition, such as the brake
//! above its threshold: what brake application counting is built from.

use vstd::prelude::*;

verus! {

/// The maximal runs of set flags among the first `n` flags, each as the
/// half-open range `start..end` of its positions, in order.
pub open spec fn runs_upto(f: Seq<bool>, n: nat) -> Seq<(int, int)>
    decreases n,
{
    if n == 0 {
        Seq::empty()
    } else {
        let prev = runs_upto(f, (n - 1) as nat);
        if !f[n - 1] {
            prev
        } else if n >= 2 && f[n - 2] {
            prev.update(prev.len() - 1, (prev.last().0, n as int))
        } else {
            prev.push(((n - 1) as int, n as int))
        }
    }
}

/// The maximal runs of set flags, in order.
pub open spec fn runs(f: Seq<bool>) -> Seq<(int, int)> {
    runs_upto(f, f.len())
}

/// The runs are the maximal blocks of set flags among the first `n`: each
/// is a non-empty range of set flags, the flag before it is clear, the one
/// after it (within the first `n`) is clear, they come in order, and every
/// set flag lies in one of them.
pub open spec fn runs_are_maximal(f: Seq<bool>, n: int, r: Seq<(int, int)>) -> bool {
    &&& forall|k: int| 0 <= k < r.len() ==> 0 <= #[trigger] r[k].0 < r[k].1 <= n
    &&& forall|k: int, j: int| 0 <= k < r.len() && r[k].0 <= j < r[k].1 ==> #[trigger] f[j]
        && #[trigger] r[k].1 > 0
    &&& forall|k: int| 0 <= k < r.len() && r[k].0 > 0 ==> !f[#[trigger] r[k].0 - 1]
    &&& forall|k: int| 0 <= k < r.len() && r[k].1 < n ==> !f[#[trigger] r[k].1]
    &&& forall|k: int| 0 <= k < r.len() - 1 ==> #[trigger] r[k].1 < r[k + 1].0
    &&& forall|j: int| 0 <= j < n && f[j] ==> exists|k: int| 0 <= k < r.len() && #[trigger] r[k].0 <= j < r[k].1
}

/// The runs of set flags are exactly the maximal blocks of set flags.
pub proof fn lemma_runs_maximal(f: Seq<bool>, n: nat)
    requires
        n <= f.len(),
    ensures
        runs_are_maximal(f, n as int, runs_upto(f, n)),
        n > 0 && f[n - 1] ==> runs_upto(f, n).len() > 0 && runs_upto(f, n).last().1 == n,
        n > 0 && !f[n - 1] ==> runs_upto(f, n).len() == 0 || runs_upto(f, n).last().1 < n,
    decreases n,
{
    if n > 0 {
        lemma_runs_maximal(f, (n - 1) as nat);
        let prev = runs_upto(f, (n - 1) as nat);
        let cur = runs_upto(f, n);
        if !f[n - 1] {
            assert forall|j: int| 0 <= j < n && f[j] implies exists|k: int|
                0 <= k < cur.len() && #[trigger] cur[k].0 <= j < cur[k].1 by {
                assert(j < n - 1);
            }
        } else if n >= 2 && f[n - 2] {
            let last = prev.len() - 1;
            assert forall|k: int, j: int| 0 <= k < cur.len() && cur[k].0 <= j < cur[k].1 implies #[trigger] f[j]
                && #[trigger] cur[k].1 > 0 by {
                if k < last {
                    assert(cur[k] == prev[k]);
                } else if j < n - 1 {
                    assert(prev[last].0 <= j < prev[last].1);
                }
            }
            assert forall|k: int| 0 <= k < cur.len() && cur[k].0 > 0 implies !f[#[trigger] cur[k].0 - 1] by {
                assert(cur[k].0 == prev[k].0);
            }
            assert forall|k: int| 0 <= k < cur.len() && cur[k].1 < n implies !f[#[trigger] cur[k].1] by {
                assert(cur[k] == prev[k]);
            }
            assert forall|k: int| 0 <= k < cur.len() - 1 implies #[trigger] cur[k].1 < cur[k + 1].0 by {
                assert(cur[k] == prev[k]);
                assert(cur[k + 1].0 == prev[k + 1].0);
            }
            assert forall|j: int| 0 <= j < n && f[j] implies exists|k: int|
                0 <= k < cur.len() && #[trigger] cur[k].0 <= j < cur[k].1 by {
                if j == n - 1 {
                    assert(cur[last].0 <= j < cur[last].1);
                } else {
                    let k0 = choose|k: int| 0 <= k < prev.len() && #[trigger] prev[k].0 <= j < prev[k].1;
                    assert(cur[k0].0 <= j < cur[k0].1);
                }
            }
        } else {
            assert(cur == prev.push(((n - 1) as int, n as int)));
            assert forall|k: int, j: int| 0 <= k < cur.len() && cur[k].0 <= j < cur[k].1 implies #[trigger] f[j]
                && #[trigger] cur[k].1 > 0 by {
                if k < prev.len() {
                    assert(cur[k] == prev[k]);
                }
            }
            assert forall|k: int| 0 <= k < cur.len() && cur[k].1 < n implies !f[#[trigger] cur[k].1] by {
                assert(cur[k] == prev[k]);
            }
            assert forall|k: int| 0 <= k < cur.len() && cur[k].0 > 0 implies !f[#[trigger] cur[k].0 - 1] by {
                if k < prev.len() {
                    assert(cur[k] == prev[k]);
                }
            }
            assert forall|j: int| 0 <= j < n && f[j] implies exists|k: int|
                0 <= k < cur.len() && #[trigger] cur[k].0 <= j < cur[k].1 by {
                if j == n - 1 {
                    assert(cur[cur.len() - 1].0 <= j < cur[cur.len() - 1].1);
                } else {
                    let k0 = choose|k: int| 0 <= k < prev.len() && #[trigger] prev[k].0 <= j < prev[k].1;
                    assert(cur[k0] == prev[k0]);
                }
            }
        }
    }
}

/// Finds the maximal runs of set flags, each as the range `start..end` of
/// its positions, in order.
pub fn flag_runs(flags: &[bool]) -> (r: Vec<(usize, usize)>)
    ensures
        r@.len() == runs(flags@).len(),
        forall|k: int|
            0 <= k < r@.len() ==> (#[trigger] r@[k]).0 as int == runs(flags@)[k].0 && r@[k].1 as int
                == runs(flags@)[k].1,
        runs_are_maximal(flags@, flags@.len() as int, runs(flags@)),
{
    proof {
        lemma_runs_maximal(flags@, flags@.len());
    }
    let mut r: Vec<(usize, usize)> = Vec::new();
    let mut i: usize = 0;
    while i < flags.len()
        invariant
            0 <= i <= flags@.len(),
            r@.len() == runs_upto(flags@, i as nat).len(),
            forall|k: int|
                0 <= k < r@.len() ==> (#[trigger] r@[k]).0 as int == runs_upto(flags@, i as nat)[k].0
                    && r@[k].1 as int == runs_upto(flags@, i as nat)[k].1,
        decreases flags@.len() - i,
    {
        proof {
            lemma_runs_maximal(flags@, i as nat);
        }
        if flags[i] {
            if i >= 1 && flags[i - 1] {
                let last = r.len() - 1;
                let start = r[last].0;
                r.set(last, (start, i + 1));
            } else {
                r.push((i, i + 1));
            }
        }
        i = i + 1;
    }
    r
}

/// The runs at least `min_len` positions long, in order.
pub open spec fn long_runs(f: Seq<bool>, min_len: int) -> Seq<(int, int)> {
    runs(f).filter(|run: (int, int)| run.1 - run.0 >= min_len)
}

/// Finds the runs of set flags that last at least `min_len` positions: a
/// condition must hold on that many consecutive samples to count.
pub fn debounced_runs(flags: &[bool], min_len: usize) -> (r: Vec<(usize, usize)>)
    ensures
        r@.len() == long_runs(flags@, min_len as int).len(),
        forall|k: int|
            0 <= k < r@.len() ==> (#[trigger] r@[k]).0 as int == long_runs(flags@, min_len as int)[k].0
                && r@[k].1 as int == long_runs(flags@, min_len as int)[k].1,
{
    let all = flag_runs(flags);
    let ghost rs = runs(flags@);
    let ghost pred = |run: (int, int)| run.1 - run.0 >= min_len;
    let mut r: Vec<(usize, usize)> = Vec::new();
    let mut i: usize = 0;
    proof {
        reveal(Seq::filter);
        assert(rs.take(0) =~= Seq::<(int, int)>::empty());
    }
    while i < all.len()
        invariant
            0 <= i <= all@.len(),
            all@.len() == rs.len(),
            rs == runs(flags@),
            pred == (|run: (int, int)| run.1 - run.0 >= min_len),
            runs_are_maximal(flags@, flags@.len() as int, rs),
            forall|k: int|
                0 <= k < all@.len() ==> (#[trigger] all@[k]).0 as int == rs[k].0 && all@[k].1 as int
                    == rs[k].1,
            r@.len() == rs.take(i as int).filter(pred).len(),
            forall|k: int|
                0 <= k < r@.len() ==> (#[trigger] r@[k]).0 as int == rs.take(i as int).filter(pred)[k].0
                    && r@[k].1 as int == rs.take(i as int).filter(pred)[k].1,
        decreases all@.len() - i,
    {
        let (s, e) = all[i];
        let ghost before = rs.take(i as int).filter(pred);
        proof {
            reveal(Seq::filter);
            let tn = rs.take(i + 1);
            assert(tn.drop_last() =~= rs.take(i as int));
            assert(tn.last() == rs[i as int]);
            assert(rs[i as int].0 < rs[i as int].1);
            assert(tn.filter(pred) == (if pred(tn.last()) {
                tn.drop_last().filter(pred).push(tn.last())
            } else {
                tn.drop_last().filter(pred)
            }));
            assert(pred(rs[i as int]) == (e - s >= min_len));
        }
        let ghost r_before = r@;
        if e - s >= min_len {
            r.push((s, e));
            proof {
                assert(rs.take(i + 1).filter(pred) == before.push(rs[i as int]));
                assert forall|k: int| 0 <= k < r@.len() implies (#[trigger] r@[k]).0 as int
                    == rs.take(i + 1).filter(pred)[k].0 && r@[k].1 as int == rs.take(i + 1).filter(
                    pred,
                )[k].1 by {
                    if k < before.len() {
                        assert(r@[k] == r_before[k]);
                    }
                }
            }
        }
        i = i + 1;
    }
    proof {
        assert(rs.take(all@.len() as int) =~= rs);
    }
    r
}

} // verus!
