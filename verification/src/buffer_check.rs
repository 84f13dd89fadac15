//! Comparing the storage buffers that executions of one shader on several
//! configurations leave, byte by byte where their types hold data.
use crate::layout::{law_ranges_inside_size, layout_fits, spec_ranges, spec_size, type_wf, as_int_pairs, Type};
use crate::metadata::ResourceKind;
use vstd::prelude::*;

verus! {

/// The indices of the storage buffers among the resources, from index `k` on.
pub open spec fn storage_indices(kinds: Seq<ResourceKind>, k: int) -> Seq<int>
    decreases kinds.len() - k,
{
    if k < 0 || k >= kinds.len() {
        Seq::empty()
    } else if kinds[k] == ResourceKind::StorageBuffer {
        seq![k] + storage_indices(kinds, k + 1)
    } else {
        storage_indices(kinds, k + 1)
    }
}

/// Two buffers hold the same bytes in every range.
pub open spec fn agree_on(a: Seq<u8>, b: Seq<u8>, ranges: Seq<(int, int)>) -> bool {
    forall|q: int|
        0 <= q < ranges.len() ==> #[trigger] a.subrange(ranges[q].0, ranges[q].0 + ranges[q].1) == b.subrange(
            ranges[q].0,
            ranges[q].0 + ranges[q].1,
        )
}

/// The `i`-th buffer that execution `k` left.
pub open spec fn buffer(buffers: Seq<Vec<Vec<u8>>>, k: int, i: int) -> Seq<u8> {
    buffers[k]@[i]@
}

/// Two executions agree on every storage buffer where its type holds data.
pub open spec fn executions_agree(
    buffers: Seq<Vec<Vec<u8>>>,
    kinds: Seq<ResourceKind>,
    types: Seq<Type>,
    k1: int,
    k2: int,
) -> bool {
    let st = storage_indices(kinds, 0);
    forall|i: int|
        0 <= i < st.len() ==> #[trigger] agree_on(buffer(buffers, k1, i), buffer(buffers, k2, i), spec_ranges(types[st[i]], 0))
}

/// Executions `k - 1` and `k` agree on the first `i` storage buffers.
pub open spec fn agree_before(
    buffers: Seq<Vec<Vec<u8>>>,
    kinds: Seq<ResourceKind>,
    types: Seq<Type>,
    k: int,
    i: int,
) -> bool {
    let st = storage_indices(kinds, 0);
    forall|i2: int|
        0 <= i2 < i ==> #[trigger] agree_on(buffer(buffers, k - 1, i2), buffer(buffers, k, i2), spec_ranges(types[st[i2]], 0))
}

/// Each execution before `k` agrees with the one before it.
pub open spec fn agree_through(buffers: Seq<Vec<Vec<u8>>>, kinds: Seq<ResourceKind>, types: Seq<Type>, k: int) -> bool {
    forall|k2: int| 0 < k2 < k ==> #[trigger] executions_agree(buffers, kinds, types, k2 - 1, k2)
}

/// The byte range `r` lies inside storage buffer `i` of executions `k - 1` and `k`.
pub open spec fn range_readable(buffers: Seq<Vec<Vec<u8>>>, k: int, i: int, r: (int, int)) -> bool {
    &&& 0 <= i < buffers[k - 1]@.len()
    &&& i < buffers[k]@.len()
    &&& r.0 + r.1 <= buffer(buffers, k - 1, i).len()
    &&& r.0 + r.1 <= buffer(buffers, k, i).len()
}

/// Checking storage buffer `i` of executions `k - 1` and `k` finds its type described,
/// and reads inside both buffers, range after range, up to the first range on which
/// they differ.
pub open spec fn buffer_reads_ok(
    buffers: Seq<Vec<Vec<u8>>>,
    kinds: Seq<ResourceKind>,
    types: Seq<Type>,
    k: int,
    i: int,
) -> bool {
    let st = storage_indices(kinds, 0);
    let r = spec_ranges(types[st[i]], 0);
    &&& 0 <= st[i] < types.len()
    &&& type_wf(types[st[i]])
    &&& layout_fits(types[st[i]])
    &&& forall|q: int|
        0 <= q < r.len() && #[trigger] agree_on(buffer(buffers, k - 1, i), buffer(buffers, k, i), r.take(q))
            ==> range_readable(buffers, k, i, r[q])
}

/// Comparing executions `k - 1` and `k` reads inside their buffers up to the first
/// storage buffer on which they differ.
pub open spec fn pair_reads_ok(buffers: Seq<Vec<Vec<u8>>>, kinds: Seq<ResourceKind>, types: Seq<Type>, k: int) -> bool {
    forall|i: int|
        0 <= i < storage_indices(kinds, 0).len() && agree_before(buffers, kinds, types, k, i)
            ==> #[trigger] buffer_reads_ok(buffers, kinds, types, k, i)
}

/// What `compare` reads lies inside the buffers: each pair of consecutive executions that
/// it reaches, all before having agreed, is read inside its buffers up to the first
/// difference. Nothing is read where there are fewer than two executions.
pub open spec fn compare_reads_ok(buffers: Seq<Vec<Vec<u8>>>, kinds: Seq<ResourceKind>, types: Seq<Type>) -> bool {
    forall|k: int|
        0 < k < buffers.len() && agree_through(buffers, kinds, types, k) ==> #[trigger] pair_reads_ok(
            buffers,
            kinds,
            types,
            k,
        )
}

fn storage_indices_exec(kinds: &Vec<ResourceKind>) -> (r: Vec<usize>)
    ensures
        r@.len() == storage_indices(kinds@, 0).len(),
        forall|i: int| 0 <= i < r@.len() ==> r@[i] == #[trigger] storage_indices(kinds@, 0)[i],
{
    let mut r: Vec<usize> = Vec::new();
    let mut j: usize = 0;
    while j < kinds.len()
        invariant
            j <= kinds.len(),
            r@.len() + storage_indices(kinds@, j as int).len() == storage_indices(kinds@, 0).len(),
            forall|i: int| 0 <= i < r@.len() ==> r@[i] == #[trigger] storage_indices(kinds@, 0)[i],
            forall|i: int|
                0 <= i < storage_indices(kinds@, j as int).len() ==> #[trigger] storage_indices(kinds@, j as int)[i]
                    == storage_indices(kinds@, 0)[r@.len() + i],
        decreases kinds.len() - j,
    {
        if kinds[j] == ResourceKind::StorageBuffer {
            assert(storage_indices(kinds@, 0)[r@.len() as int] == storage_indices(kinds@, j as int)[0]);
            r.push(j);
            assert forall|i: int| 0 <= i < storage_indices(kinds@, j + 1).len() implies #[trigger] storage_indices(
                kinds@,
                j + 1,
            )[i] == storage_indices(kinds@, 0)[r@.len() + i] by {
                assert(storage_indices(kinds@, j + 1)[i] == storage_indices(kinds@, j as int)[i + 1]);
            }
        }
        j = j + 1;
    }
    r
}

fn slices_equal(a: &Vec<u8>, b: &Vec<u8>, start: usize, end: usize) -> (r: bool)
    requires
        start <= end <= a@.len(),
        end <= b@.len(),
    ensures
        r == (a@.subrange(start as int, end as int) == b@.subrange(start as int, end as int)),
{
    let mut p: usize = start;
    while p < end
        invariant
            start <= p <= end,
            end <= a@.len(),
            end <= b@.len(),
            a@.subrange(start as int, p as int) == b@.subrange(start as int, p as int),
        decreases end - p,
    {
        if a[p] != b[p] {
            assert(a@.subrange(start as int, end as int)[p - start] != b@.subrange(start as int, end as int)[p - start]);
            return false;
        }
        assert(a@.subrange(start as int, p + 1) =~= a@.subrange(start as int, p as int).push(a@[p as int]));
        assert(b@.subrange(start as int, p + 1) =~= b@.subrange(start as int, p as int).push(b@[p as int]));
        p = p + 1;
    }
    true
}

/// Whether all executions agree: each storage buffer holds the same bytes as in the
/// execution before it, in every range where its type holds data.
pub fn compare(buffers: &Vec<Vec<Vec<u8>>>, kinds: &Vec<ResourceKind>, type_descs: &Vec<Type>) -> (r: bool)
    requires
        compare_reads_ok(buffers@, kinds@, type_descs@),
    ensures
        r == forall|k: int| 0 < k < buffers@.len() ==> #[trigger] executions_agree(buffers@, kinds@, type_descs@, k - 1, k),
{
    if buffers.len() < 2 {
        return true;
    }
    let storage = storage_indices_exec(kinds);
    let ghost st = storage_indices(kinds@, 0);
    let mut k: usize = 1;
    while k < buffers.len()
        invariant
            1 <= k <= buffers@.len(),
            compare_reads_ok(buffers@, kinds@, type_descs@),
            st == storage_indices(kinds@, 0),
            storage@.len() == st.len(),
            forall|i: int| 0 <= i < storage@.len() ==> storage@[i] == #[trigger] st[i],
            agree_through(buffers@, kinds@, type_descs@, k as int),
        decreases buffers.len() - k,
    {
        let prev = &buffers[k - 1];
        let execution = &buffers[k];
        assert(pair_reads_ok(buffers@, kinds@, type_descs@, k as int));
        let mut i: usize = 0;
        while i < storage.len()
            invariant
                1 <= k < buffers@.len(),
                *prev == buffers@[k - 1],
                *execution == buffers@[k as int],
                pair_reads_ok(buffers@, kinds@, type_descs@, k as int),
                st == storage_indices(kinds@, 0),
                storage@.len() == st.len(),
                forall|i2: int| 0 <= i2 < storage@.len() ==> storage@[i2] == #[trigger] st[i2],
                i <= storage.len(),
                agree_before(buffers@, kinds@, type_descs@, k as int, i as int),
            decreases storage.len() - i,
        {
            let j = storage[i];
            assert(buffer_reads_ok(buffers@, kinds@, type_descs@, k as int, i as int));
            let ghost t = type_descs@[j as int];
            let ghost a = buffer(buffers@, k - 1, i as int);
            let ghost b = buffer(buffers@, k as int, i as int);
            let ranges = type_descs[j].ranges();
            let mut q: usize = 0;
            while q < ranges.len()
                invariant
                    as_int_pairs(ranges@) == spec_ranges(t, 0),
                    st == storage_indices(kinds@, 0),
                    0 <= i < st.len(),
                    j == st[i as int],
                    t == type_descs@[st[i as int]],
                    *prev == buffers@[k - 1],
                    *execution == buffers@[k as int],
                    1 <= k < buffers@.len(),
                    a == buffer(buffers@, k - 1, i as int),
                    b == buffer(buffers@, k as int, i as int),
                    buffer_reads_ok(buffers@, kinds@, type_descs@, k as int, i as int),
                    q <= ranges.len(),
                    agree_on(a, b, spec_ranges(t, 0).take(q as int)),
                decreases ranges.len() - q,
            {
                let (offset, size) = ranges[q];
                let ghost r = spec_ranges(t, 0);
                assert(r[q as int] == (offset as int, size as int));
                assert(range_readable(buffers@, k as int, i as int, r[q as int]));
                let len = execution[i].len();
                assert(offset + size <= len);
                if !slices_equal(&execution[i], &prev[i], offset, offset + size) {
                    proof {
                        assert(a.subrange(r[q as int].0, r[q as int].0 + r[q as int].1)
                            != b.subrange(r[q as int].0, r[q as int].0 + r[q as int].1));
                        assert(!agree_on(a, b, r));
                        assert(!executions_agree(buffers@, kinds@, type_descs@, k - 1, k as int));
                    }
                    return false;
                }
                proof {
                    let r2 = r.take(q + 1);
                    assert forall|q2: int| 0 <= q2 < r2.len() implies #[trigger] a.subrange(r2[q2].0, r2[q2].0 + r2[q2].1)
                        == b.subrange(r2[q2].0, r2[q2].0 + r2[q2].1) by {
                        if q2 < q {
                            assert(r2[q2] == r.take(q as int)[q2]);
                        }
                    }
                }
                q = q + 1;
            }
            proof {
                assert(spec_ranges(t, 0).take(q as int) =~= spec_ranges(t, 0));
                assert(agree_on(buffer(buffers@, k - 1, i as int), buffer(buffers@, k as int, i as int), spec_ranges(type_descs@[st[i as int]], 0)));
            }
            i = i + 1;
        }
        assert(executions_agree(buffers@, kinds@, type_descs@, k - 1, k as int));
        k = k + 1;
    }
    true
}


/// When each execution agrees with the one before it, every execution agrees with the
/// first: a positive comparison means all configurations produced the same data.
pub proof fn law_compare_agrees_with_first(buffers: Seq<Vec<Vec<u8>>>, kinds: Seq<ResourceKind>, types: Seq<Type>, k: int)
    requires
        forall|k2: int| 0 < k2 < buffers.len() ==> #[trigger] executions_agree(buffers, kinds, types, k2 - 1, k2),
        0 <= k < buffers.len(),
    ensures
        executions_agree(buffers, kinds, types, 0, k),
    decreases k,
{
    if k > 0 {
        law_compare_agrees_with_first(buffers, kinds, types, k - 1);
        assert(executions_agree(buffers, kinds, types, k - 1, k));
        let st = storage_indices(kinds, 0);
        assert forall|i: int| 0 <= i < st.len() implies #[trigger] agree_on(
            buffer(buffers, 0, i),
            buffer(buffers, k, i),
            spec_ranges(types[st[i]], 0),
        ) by {
            let r = spec_ranges(types[st[i]], 0);
            assert(agree_on(buffer(buffers, 0, i), buffer(buffers, k - 1, i), r));
            assert(agree_on(buffer(buffers, k - 1, i), buffer(buffers, k, i), r));
            assert forall|q: int| 0 <= q < r.len() implies #[trigger] buffer(buffers, 0, i).subrange(
                r[q].0,
                r[q].0 + r[q].1,
            ) == buffer(buffers, k, i).subrange(r[q].0, r[q].0 + r[q].1) by {
                assert(buffer(buffers, 0, i).subrange(r[q].0, r[q].0 + r[q].1) == buffer(buffers, k - 1, i).subrange(
                    r[q].0,
                    r[q].0 + r[q].1,
                ));
                assert(buffer(buffers, k - 1, i).subrange(r[q].0, r[q].0 + r[q].1) == buffer(buffers, k, i).subrange(
                    r[q].0,
                    r[q].0 + r[q].1,
                ));
            }
        }
    }
}

} // verus!
