//! Data rows as JSON records keyed by column name.
use vstd::prelude::*;
use crate::json::{JsonObject, all_text_values, empty_object, insert_text, object_entries};

verus! {

/// The entries of a record built from the first `k` pairs of column name and
/// value; a later column replaces an earlier one of the same name.
pub open spec fn record_entries(names: Seq<Seq<char>>, row: Seq<Seq<char>>, k: int) -> Map<
    Seq<char>,
    Seq<char>,
>
    decreases k,
{
    if k <= 0 {
        Map::empty()
    } else {
        record_entries(names, row, k - 1).insert(names[k - 1], row[k - 1])
    }
}

/// The shorter of two lengths.
pub open spec fn min2(a: int, b: int) -> int {
    if a <= b {
        a
    } else {
        b
    }
}

/// The record of one data row: its values paired with the column names
/// position by position, as far as the shorter of the two goes.
pub open spec fn record_of(names: Seq<Seq<char>>, row: Seq<Seq<char>>) -> Map<Seq<char>, Seq<char>> {
    record_entries(names, row, min2(names.len() as int, row.len() as int))
}

/// The records of all data rows, in order.
pub open spec fn records_of(names: Seq<Seq<char>>, data: Seq<Seq<Seq<char>>>) -> Seq<
    Map<Seq<char>, Seq<char>>,
> {
    data.map_values(|row: Seq<Seq<char>>| record_of(names, row))
}

/// The JSON object of one data row.
pub fn json_record(column_names: &Vec<String>, row: &Vec<String>) -> (r: JsonObject)
    ensures
        object_entries(r) == record_of(column_names.deep_view(), row.deep_view()),
        all_text_values(r),
{
    let ghost names = column_names.deep_view();
    let ghost vals = row.deep_view();
    let n: usize = if column_names.len() <= row.len() {
        column_names.len()
    } else {
        row.len()
    };
    let mut obj = empty_object();
    assert(object_entries(obj) =~= record_entries(names, vals, 0));
    let mut k: usize = 0;
    while k < n
        invariant
            k <= n,
            n == min2(names.len() as int, vals.len() as int),
            names == column_names.deep_view(),
            vals == row.deep_view(),
            object_entries(obj) == record_entries(names, vals, k as int),
            all_text_values(obj),
        decreases n - k,
    {
        insert_text(&mut obj, column_names[k].clone(), row[k].clone());
        k += 1;
    }
    obj
}

/// The JSON objects of all data rows, in order.
pub fn json_records(column_names: &Vec<String>, data: &Vec<Vec<String>>) -> (r: Vec<JsonObject>)
    ensures
        r@.len() == data@.len(),
        forall|i: int| 0 <= i < r@.len() ==> #[trigger] object_entries(r@[i])
            == records_of(column_names.deep_view(), data.deep_view())[i],
        forall|i: int| 0 <= i < r@.len() ==> #[trigger] all_text_values(r@[i]),
{
    let mut out: Vec<JsonObject> = Vec::new();
    let mut i: usize = 0;
    while i < data.len()
        invariant
            i <= data@.len(),
            out@.len() == i,
            forall|k: int| 0 <= k < i ==> #[trigger] object_entries(out@[k])
                == records_of(column_names.deep_view(), data.deep_view())[k],
            forall|k: int| 0 <= k < i ==> #[trigger] all_text_values(out@[k]),
        decreases data@.len() - i,
    {
        let obj = json_record(column_names, &data[i]);
        out.push(obj);
        i += 1;
    }
    out
}

/// With pairwise distinct names among the first `k`, a record built from `k`
/// pairs has exactly `k` keys.
proof fn lemma_record_entries_len(names: Seq<Seq<char>>, row: Seq<Seq<char>>, k: int)
    requires
        0 <= k <= names.len(),
        k <= row.len(),
        forall|i: int, j: int| 0 <= i < j < k ==> names[i] != names[j],
    ensures
        record_entries(names, row, k).dom().finite(),
        record_entries(names, row, k).dom().len() == k,
        forall|x: Seq<char>| record_entries(names, row, k).dom().contains(x) <==> exists|i: int|
            0 <= i < k && #[trigger] names[i] == x,
    decreases k,
{
    if k > 0 {
        lemma_record_entries_len(names, row, k - 1);
        let prev = record_entries(names, row, k - 1);
        if prev.dom().contains(names[k - 1]) {
            let i = choose|i: int| 0 <= i < k - 1 && #[trigger] names[i] == names[k - 1];
            assert(names[i] != names[k - 1]);
        }
        assert forall|x: Seq<char>| record_entries(names, row, k).dom().contains(x) implies exists|i: int|
            0 <= i < k && #[trigger] names[i] == x by {
            if x != names[k - 1] {
                let i = choose|i: int| 0 <= i < k - 1 && #[trigger] names[i] == x;
                assert(0 <= i < k && names[i] == x);
            }
        }
    }
}

/// Each data row gives one record, and where the column names are pairwise
/// distinct, each record has as many keys as the shorter of the column names
/// and the row's values.
pub proof fn lemma_one_record_per_row(names: Seq<Seq<char>>, data: Seq<Seq<Seq<char>>>)
    requires
        forall|i: int, j: int| 0 <= i < j < names.len() ==> names[i] != names[j],
    ensures
        records_of(names, data).len() == data.len(),
        forall|r: int| 0 <= r < data.len() ==> {
            &&& (#[trigger] records_of(names, data)[r]).dom().finite()
            &&& records_of(names, data)[r].dom().len() == min2(
                names.len() as int,
                data[r].len() as int,
            )
        },
{
    assert forall|r: int| 0 <= r < data.len() implies {
        &&& (#[trigger] records_of(names, data)[r]).dom().finite()
        &&& records_of(names, data)[r].dom().len() == min2(names.len() as int, data[r].len() as int)
    } by {
        lemma_record_entries_len(names, data[r], min2(names.len() as int, data[r].len() as int));
    }
}

} // verus!
