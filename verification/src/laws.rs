//! General facts the library states and proves: lemmas the dispatcher's
//! proofs lean on, and the laws that hold of the registry operations.

use vstd::prelude::*;
use vstd::multiset::Multiset;
use vstd::assert_multisets_equal;
use crate::device::Record;
use crate::dispatch::matches_target;
use crate::store::keep_address;
use crate::store::keep_name;
use crate::store::no_rows;
use crate::store::row_views;

verus! {

/// Filtering a sequence extended by one element keeps the new element
/// exactly when the predicate holds of it.
pub proof fn lemma_filter_push<A>(s: Seq<A>, x: A, pred: spec_fn(A) -> bool)
    ensures
        s.push(x).filter(pred) == (if pred(x) {
            s.filter(pred).push(x)
        } else {
            s.filter(pred)
        }),
{
    reveal(Seq::filter);
    assert(s.push(x).drop_last() =~= s);
    assert(s.push(x).last() == x);
}

/// The views of a record sequence extended by one record are the views of
/// the sequence, extended by the record's view.
pub proof fn lemma_row_views_push(s: Seq<Record>, r: Record)
    ensures
        row_views(s.push(r)) == row_views(s).push(r@),
{
    assert(row_views(s.push(r)) =~= row_views(s).push(r@));
}

/// Collecting a filtered sequence into a multiset gives the same multiset
/// as filtering the collected sequence: to_multiset and filter commute.
pub proof fn lemma_to_multiset_filter<A>(s: Seq<A>, pred: spec_fn(A) -> bool)
    ensures
        s.filter(pred).to_multiset() == s.to_multiset().filter(pred),
    decreases s.len(),
{
    broadcast use vstd::seq_lib::group_to_multiset_ensures;
    broadcast use vstd::multiset::group_multiset_axioms;
    if s.len() == 0 {
        assert(s.filter(pred) =~= s) by {
            reveal(Seq::filter);
        }
        assert_multisets_equal!(s.to_multiset().filter(pred), s.to_multiset(), v => {
            assert(!s.contains(v));
        });
    } else {
        let t = s.drop_last();
        let x = s.last();
        lemma_to_multiset_filter(t, pred);
        lemma_filter_push(t, x, pred);
        assert(t.push(x) =~= s);
        let mt = t.to_multiset();
        assert(s.to_multiset() == mt.insert(x));
        if pred(x) {
            assert(s.filter(pred).to_multiset() == mt.filter(pred).insert(x));
            assert_multisets_equal!(mt.filter(pred).insert(x), mt.insert(x).filter(pred));
        } else {
            assert(s.filter(pred).to_multiset() == mt.filter(pred));
            assert_multisets_equal!(mt.filter(pred), mt.insert(x).filter(pred));
        }
    }
}

/// Law: insert/list round trip. Appending one record to the registry
/// leaves that record exactly once more often than before, every other
/// record exactly as often, and one record more in all — so a listing
/// taken afterwards contains the new record beside the pre-existing ones.
pub proof fn lemma_insert_round_trip(
    rows: Multiset<(Seq<char>, Seq<char>)>,
    rec: (Seq<char>, Seq<char>),
)
    ensures
        rows.insert(rec).count(rec) == rows.count(rec) + 1,
        forall|other: (Seq<char>, Seq<char>)|
            other != rec ==> #[trigger] rows.insert(rec).count(other) == rows.count(other),
        rows.insert(rec).len() == rows.len() + 1,
{
    broadcast use vstd::multiset::group_multiset_axioms;
    broadcast use vstd::multiset::lemma_insert_len;

}

/// Law: a delete is a no-op when its value matches no record. A delete by
/// address whose value is no record's address leaves the registry exactly
/// as it was — and so reports count 0, the length being unchanged.
pub proof fn lemma_delete_by_address_noop(rows: Multiset<(Seq<char>, Seq<char>)>, value: Seq<char>)
    requires
        forall|row: (Seq<char>, Seq<char>)| #[trigger] rows.count(row) > 0 ==> row.0 != value,
    ensures
        rows.filter(keep_address(value)) == rows,
{
    broadcast use vstd::multiset::group_multiset_axioms;
    assert_multisets_equal!(rows.filter(keep_address(value)), rows, row => {
        if rows.count(row) > 0 {
            assert(keep_address(value)(row));
        }
    });
}

/// Law: as `lemma_delete_by_address_noop`, for a delete by name.
pub proof fn lemma_delete_by_name_noop(rows: Multiset<(Seq<char>, Seq<char>)>, value: Seq<char>)
    requires
        forall|row: (Seq<char>, Seq<char>)| #[trigger] rows.count(row) > 0 ==> row.1 != value,
    ensures
        rows.filter(keep_name(value)) == rows,
{
    broadcast use vstd::multiset::group_multiset_axioms;
    assert_multisets_equal!(rows.filter(keep_name(value)), rows, row => {
        if rows.count(row) > 0 {
            assert(keep_name(value)(row));
        }
    });
}

/// Law: the address takes precedence. Whenever an address is supplied to
/// a state-toggle target, a row is selected exactly when its address
/// equals it: the name — supplied or not, equal or not — plays no part.
pub proof fn lemma_address_precedence(
    row: (Seq<char>, Seq<char>),
    address: Seq<char>,
    name: Option<Seq<char>>,
)
    ensures
        matches_target(row, Some(address), name) == (row.0 == address),
{
}

/// Law: a listing of the empty registry holds no records. Any record
/// sequence whose contents are the empty multiset is itself empty.
pub proof fn lemma_empty_listing(v: Seq<(Seq<char>, Seq<char>)>)
    requires
        v.to_multiset() == no_rows(),
    ensures
        v.len() == 0,
{
    broadcast use vstd::multiset::group_multiset_axioms;
    v.to_multiset_ensures();
    assert(v.to_multiset().len() == v.len());
}

} // verus!
