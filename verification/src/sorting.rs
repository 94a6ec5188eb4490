//! Verified insertion sorts that put query results into the fixed orders
//! promised by the accessors: every output is ascending in the table's
//! ordering key and holds exactly the input rows.

use vstd::prelude::*;
use vstd::multiset::Multiset;
use crate::records::HymnRecord;
use crate::records::ScriptureRecord;
use crate::records::hymn_le;
use crate::records::scripture_le;
use crate::records::hymns_sorted;
use crate::records::scriptures_sorted;
use crate::records::hymn_le_exec;
use crate::records::scripture_le_exec;

verus! {

/// Sorts hymn rows ascending by hymn number. The result holds exactly the
/// input rows: nothing is dropped, added or altered, whatever order the
/// rows arrived in.
pub fn sort_hymns(rows: Vec<HymnRecord>) -> (r: Vec<HymnRecord>)
    ensures
        hymns_sorted(r@),
        r@.to_multiset() == rows@.to_multiset(),
        r@.len() == rows@.len(),
{
    broadcast use vstd::seq_lib::group_to_multiset_ensures;
    broadcast use vstd::multiset::group_multiset_axioms;

    let ghost orig = rows@;
    let mut v = rows;
    let mut r: Vec<HymnRecord> = Vec::new();
    proof {
        assert(v@.to_multiset().add(r@.to_multiset()) =~= orig.to_multiset());
    }
    while v.len() > 0
        invariant
            hymns_sorted(r@),
            v@.to_multiset().add(r@.to_multiset()) == orig.to_multiset(),
            v@.len() + r@.len() == orig.len(),
        decreases v.len(),
    {
        let ghost v0 = v@;
        let x = v.pop().unwrap();
        proof {
            assert(v0 =~= v@.push(x));
            vstd::seq_lib::to_multiset_build(v@, x);
            assert(v0.to_multiset() == v@.to_multiset().insert(x));
        }
        let mut p: usize = 0;
        while p < r.len() && hymn_le_exec(&r[p], &x)
            invariant
                p <= r@.len(),
                forall|i: int| 0 <= i < p ==> hymn_le(#[trigger] r@[i], x),
            decreases r.len() - p,
        {
            p += 1;
        }
        let ghost r0 = r@;
        r.insert(p, x);
        proof {
            r0.insert_ensures(p as int, x);
            assert(r@ == r0.insert(p as int, x));
            vstd::seq_lib::to_multiset_insert(r0, p as int, x);
            assert(r@.to_multiset() == r0.to_multiset().insert(x));
            assert(v@.to_multiset().add(r@.to_multiset()) =~= orig.to_multiset());
            assert forall|i: int, j: int| 0 <= i < j < r@.len() implies hymn_le(
                #[trigger] r@[i],
                #[trigger] r@[j],
            ) by {
                if j < p {
                    assert(r@[i] == r0[i] && r@[j] == r0[j]);
                } else if j == p {
                    assert(r@[i] == r0[i] && r@[j] == x);
                } else {
                    assert(r@[j] == r0[j - 1]);
                    if i < p {
                        assert(r@[i] == r0[i]);
                        if p < r0.len() {
                            assert(hymn_le(r0[i], r0[p as int]));
                        }
                    } else if i == p {
                        assert(r@[i] == x);
                        assert(!hymn_le(r0[p as int], x));
                    } else {
                        assert(r@[i] == r0[i - 1]);
                    }
                }
            }
        }
    }
    proof {
        v@.to_multiset_ensures();
        assert(v@ =~= Seq::<HymnRecord>::empty());
        assert(v@.to_multiset() =~= Multiset::<HymnRecord>::empty());
        assert(r@.to_multiset() =~= orig.to_multiset());
    }
    r
}

/// Sorts scripture rows ascending by (book, chapter, verse start),
/// compared lexicographically. The result holds exactly the input rows.
pub fn sort_scriptures(rows: Vec<ScriptureRecord>) -> (r: Vec<ScriptureRecord>)
    ensures
        scriptures_sorted(r@),
        r@.to_multiset() == rows@.to_multiset(),
        r@.len() == rows@.len(),
{
    broadcast use vstd::seq_lib::group_to_multiset_ensures;
    broadcast use vstd::multiset::group_multiset_axioms;

    let ghost orig = rows@;
    let mut v = rows;
    let mut r: Vec<ScriptureRecord> = Vec::new();
    proof {
        assert(v@.to_multiset().add(r@.to_multiset()) =~= orig.to_multiset());
    }
    while v.len() > 0
        invariant
            scriptures_sorted(r@),
            v@.to_multiset().add(r@.to_multiset()) == orig.to_multiset(),
            v@.len() + r@.len() == orig.len(),
        decreases v.len(),
    {
        let ghost v0 = v@;
        let x = v.pop().unwrap();
        proof {
            assert(v0 =~= v@.push(x));
            vstd::seq_lib::to_multiset_build(v@, x);
            assert(v0.to_multiset() == v@.to_multiset().insert(x));
        }
        let mut p: usize = 0;
        while p < r.len() && scripture_le_exec(&r[p], &x)
            invariant
                p <= r@.len(),
                forall|i: int| 0 <= i < p ==> scripture_le(#[trigger] r@[i], x),
            decreases r.len() - p,
        {
            p += 1;
        }
        let ghost r0 = r@;
        r.insert(p, x);
        proof {
            r0.insert_ensures(p as int, x);
            assert(r@ == r0.insert(p as int, x));
            vstd::seq_lib::to_multiset_insert(r0, p as int, x);
            assert(r@.to_multiset() == r0.to_multiset().insert(x));
            assert(v@.to_multiset().add(r@.to_multiset()) =~= orig.to_multiset());
            assert forall|i: int, j: int| 0 <= i < j < r@.len() implies scripture_le(
                #[trigger] r@[i],
                #[trigger] r@[j],
            ) by {
                if j < p {
                    assert(r@[i] == r0[i] && r@[j] == r0[j]);
                } else if j == p {
                    assert(r@[i] == r0[i] && r@[j] == x);
                } else {
                    assert(r@[j] == r0[j - 1]);
                    if i < p {
                        assert(r@[i] == r0[i]);
                        if p < r0.len() {
                            assert(scripture_le(r0[i], r0[p as int]));
                        }
                    } else if i == p {
                        assert(r@[i] == x);
                        assert(!scripture_le(r0[p as int], x));
                    } else {
                        assert(r@[i] == r0[i - 1]);
                    }
                }
            }
        }
    }
    proof {
        v@.to_multiset_ensures();
        assert(v@ =~= Seq::<ScriptureRecord>::empty());
        assert(v@.to_multiset() =~= Multiset::<ScriptureRecord>::empty());
        assert(r@.to_multiset() =~= orig.to_multiset());
    }
    r
}

} // verus!
