//! The response decoder: from a native response record to a decoded value.

use vstd::prelude::*;
use vstd::slice::slice_to_vec;
use crate::error::{BridgeError, BridgeErrorView};
use crate::response::{CommandResponse, ResponseType, ResponseView, lemma_response_view, response_views};
use crate::value::{Value, ValueView, lemma_pairs_view, lemma_sequence_view, pair_views, value_views};

verus! {

/// What decoding a response gives: the decoded value, or the failure.
///
/// The discriminant chooses the payload field that is read; the other
/// fields are ignored. A null string, array, map or set payload gives the
/// absent value. A discriminant outside the table is a protocol failure
/// that names it. The children of an array or set are decoded in order; a
/// map's entries are read from the array payload.
pub open spec fn decoded(r: ResponseView) -> Result<ValueView, BridgeErrorView>
    decreases r, 0nat,
{
    match ResponseType::of_code(r.response_type) {
        None => Err(BridgeErrorView::Protocol(r.response_type)),
        Some(ResponseType::Null) => Ok(ValueView::Absent),
        Some(ResponseType::Int) => Ok(ValueView::Int(r.int_value)),
        Some(ResponseType::Float) => Ok(ValueView::Float(r.float_bits)),
        Some(ResponseType::Bool) => Ok(ValueView::Bool(r.bool_value)),
        Some(ResponseType::ByteString) => match r.string_value {
            None => Ok(ValueView::Absent),
            Some(bytes) => Ok(ValueView::Bytes(bytes)),
        },
        Some(ResponseType::Array) => match r.array_value {
            None => Ok(ValueView::Absent),
            Some(items) => match decoded_items(items, items.len()) {
                Ok(values) => Ok(ValueView::Sequence(values)),
                Err(e) => Err(e),
            },
        },
        Some(ResponseType::Mapping) => match r.array_value {
            None => Ok(ValueView::Absent),
            Some(entries) => match decoded_entries(entries, entries.len()) {
                Ok(pairs) => Ok(ValueView::Pairs(pairs)),
                Err(e) => Err(e),
            },
        },
        Some(ResponseType::Sets) => match r.sets_value {
            None => Ok(ValueView::Absent),
            Some(items) => match decoded_items(items, items.len()) {
                Ok(values) => Ok(ValueView::Sequence(values)),
                Err(e) => Err(e),
            },
        },
    }
}

/// Decoding the first `n` children of a list, in order: every decoded
/// child, or the failure of the first child that fails.
pub open spec fn decoded_items(items: Seq<ResponseView>, n: nat) -> Result<
    Seq<ValueView>,
    BridgeErrorView,
>
    decreases items, n,
{
    if n == 0 || n > items.len() {
        Ok(Seq::empty())
    } else {
        match decoded_items(items, (n - 1) as nat) {
            Err(e) => Err(e),
            Ok(done) => match decoded(items[n - 1]) {
                Err(e) => Err(e),
                Ok(value) => Ok(done.push(value)),
            },
        }
    }
}

/// Whether a map entry has both of its sides.
pub open spec fn is_complete_entry(entry: ResponseView) -> bool {
    entry.map_key is Some && entry.map_value is Some
}

/// Decoding the first `n` entries of a map, in order. An entry with a null
/// key or a null value is passed over; of the others the key is decoded
/// before the value.
pub open spec fn decoded_entries(entries: Seq<ResponseView>, n: nat) -> Result<
    Seq<(ValueView, ValueView)>,
    BridgeErrorView,
>
    decreases entries, n,
{
    if n == 0 || n > entries.len() {
        Ok(Seq::empty())
    } else {
        match decoded_entries(entries, (n - 1) as nat) {
            Err(e) => Err(e),
            Ok(done) => {
                let entry = entries[n - 1];
                match (entry.map_key, entry.map_value) {
                    (Some(key), Some(value)) => match decoded(*key) {
                        Err(e) => Err(e),
                        Ok(k) => match decoded(*value) {
                            Err(e) => Err(e),
                            Ok(v) => Ok(done.push((k, v))),
                        },
                    },
                    _ => Ok(done),
                }
            },
        }
    }
}

/// The mathematical content of a decoding outcome.
pub open spec fn outcome_view(out: Result<Value, BridgeError>) -> Result<ValueView, BridgeErrorView> {
    match out {
        Ok(value) => Ok(value@),
        Err(e) => Err(e@),
    }
}

/// A failure among the first `k` children is the failure of every longer
/// prefix.
pub proof fn lemma_items_failure_persists(items: Seq<ResponseView>, k: nat, n: nat)
    requires
        k <= n <= items.len(),
        decoded_items(items, k) is Err,
    ensures
        decoded_items(items, n) == decoded_items(items, k),
    decreases n,
{
    if n > k {
        lemma_items_failure_persists(items, k, (n - 1) as nat);
    }
}

/// A failure among the first `k` entries is the failure of every longer
/// prefix.
pub proof fn lemma_entries_failure_persists(entries: Seq<ResponseView>, k: nat, n: nat)
    requires
        k <= n <= entries.len(),
        decoded_entries(entries, k) is Err,
    ensures
        decoded_entries(entries, n) == decoded_entries(entries, k),
    decreases n,
{
    if n > k {
        lemma_entries_failure_persists(entries, k, (n - 1) as nat);
    }
}

/// Decodes the children of an array or a set, in order.
fn decode_items(items: &Vec<CommandResponse>) -> (out: Result<Vec<Value>, BridgeError>)
    ensures
        match out {
            Ok(values) => decoded_items(response_views(items@), items@.len()) == Ok::<
                Seq<ValueView>,
                BridgeErrorView,
            >(value_views(values@)),
            Err(e) => decoded_items(response_views(items@), items@.len()) == Err::<
                Seq<ValueView>,
                BridgeErrorView,
            >(e@),
        },
    decreases items,
{
    let ghost views = response_views(items@);
    let mut values: Vec<Value> = Vec::with_capacity(items.len());
    let mut i: usize = 0;
    assert(value_views(values@) =~= Seq::empty());
    while i < items.len()
        invariant
            i <= items@.len(),
            views == response_views(items@),
            decoded_items(views, i as nat) == Ok::<Seq<ValueView>, BridgeErrorView>(
                value_views(values@),
            ),
        decreases items@.len() - i,
    {
        let ghost before = value_views(values@);
        match decode(&items[i]) {
            Err(e) => {
                proof {
                    assert(views[i as int] == items@[i as int]@);
                    assert(decoded_items(views, (i + 1) as nat) is Err);
                    lemma_items_failure_persists(views, (i + 1) as nat, items@.len());
                }
                return Err(e);
            },
            Ok(value) => {
                proof {
                    assert(views[i as int] == items@[i as int]@);
                }
                let ghost one = value@;
                values.push(value);
                proof {
                    assert(value_views(values@) =~= before.push(one));
                }
            },
        }
        i += 1;
    }
    Ok(values)
}

/// Decodes the entries of a map, in order, leaving out the incomplete ones.
fn decode_entries(entries: &Vec<CommandResponse>) -> (out: Result<Vec<(Value, Value)>, BridgeError>)
    ensures
        match out {
            Ok(pairs) => decoded_entries(response_views(entries@), entries@.len()) == Ok::<
                Seq<(ValueView, ValueView)>,
                BridgeErrorView,
            >(pair_views(pairs@)),
            Err(e) => decoded_entries(response_views(entries@), entries@.len()) == Err::<
                Seq<(ValueView, ValueView)>,
                BridgeErrorView,
            >(e@),
        },
    decreases entries,
{
    let ghost views = response_views(entries@);
    let mut pairs: Vec<(Value, Value)> = Vec::new();
    let mut i: usize = 0;
    assert(pair_views(pairs@) =~= Seq::empty());
    while i < entries.len()
        invariant
            i <= entries@.len(),
            views == response_views(entries@),
            decoded_entries(views, i as nat) == Ok::<Seq<(ValueView, ValueView)>, BridgeErrorView>(
                pair_views(pairs@),
            ),
        decreases entries@.len() - i,
    {
        let ghost before = pair_views(pairs@);
        let entry = &entries[i];
        proof {
            assert(views[i as int] == entry@);
            lemma_response_view(entry);
        }
        match (&entry.map_key, &entry.map_value) {
            (Some(key), Some(value)) => {
                match decode(&**key) {
                    Err(e) => {
                        proof {
                            assert(decoded_entries(views, (i + 1) as nat) is Err);
                            lemma_entries_failure_persists(views, (i + 1) as nat, entries@.len());
                        }
                        return Err(e);
                    },
                    Ok(k) => {
                        match decode(&**value) {
                            Err(e) => {
                                proof {
                                    assert(decoded_entries(views, (i + 1) as nat) is Err);
                                    lemma_entries_failure_persists(
                                        views,
                                        (i + 1) as nat,
                                        entries@.len(),
                                    );
                                }
                                return Err(e);
                            },
                            Ok(v) => {
                                let ghost one = (k@, v@);
                                pairs.push((k, v));
                                proof {
                                    assert(pair_views(pairs@) =~= before.push(one));
                                }
                            },
                        }
                    },
                }
            },
            _ => {},
        }
        i += 1;
    }
    Ok(pairs)
}

/// Decodes a response into a value that holds no reference to it.
pub fn decode(response: &CommandResponse) -> (out: Result<Value, BridgeError>)
    ensures
        outcome_view(out) == decoded(response@),
    decreases response,
{
    proof {
        lemma_response_view(response);
    }
    match ResponseType::from_code(response.response_type) {
        None => Err(BridgeError::Protocol(response.response_type)),
        Some(ResponseType::Null) => Ok(Value::Absent),
        Some(ResponseType::Int) => Ok(Value::Int(response.int_value)),
        Some(ResponseType::Float) => Ok(Value::Float(response.float_bits)),
        Some(ResponseType::Bool) => Ok(Value::Bool(response.bool_value)),
        Some(ResponseType::ByteString) => match &response.string_value {
            None => Ok(Value::Absent),
            Some(bytes) => Ok(Value::Bytes(slice_to_vec(bytes.as_slice()))),
        },
        Some(ResponseType::Array) => match &response.array_value {
            None => Ok(Value::Absent),
            Some(items) => match decode_items(items) {
                Ok(values) => {
                    proof {
                        lemma_sequence_view(values);
                    }
                    Ok(Value::Sequence(values))
                },
                Err(e) => Err(e),
            },
        },
        Some(ResponseType::Mapping) => match &response.array_value {
            None => Ok(Value::Absent),
            Some(entries) => match decode_entries(entries) {
                Ok(pairs) => {
                    proof {
                        lemma_pairs_view(pairs);
                    }
                    Ok(Value::Pairs(pairs))
                },
                Err(e) => Err(e),
            },
        },
        Some(ResponseType::Sets) => match &response.sets_value {
            None => Ok(Value::Absent),
            Some(items) => match decode_items(items) {
                Ok(values) => {
                    proof {
                        lemma_sequence_view(values);
                    }
                    Ok(Value::Sequence(values))
                },
                Err(e) => Err(e),
            },
        },
    }
}

/// The decoded children of a list whose first `n` children all decode.
pub open spec fn children_of(items: Seq<ResponseView>, n: nat) -> Seq<ValueView> {
    Seq::new(n, |i: int| decoded(items[i])->Ok_0)
}

/// The test that picks the complete entries of a map.
pub open spec fn complete_entries() -> spec_fn(ResponseView) -> bool {
    |entry: ResponseView| is_complete_entry(entry)
}

/// Whether both sides of an entry decode, where the entry is complete.
pub open spec fn sides_decode(entry: ResponseView) -> bool {
    is_complete_entry(entry) ==> decoded(*entry.map_key->0) is Ok && decoded(
        *entry.map_value->0,
    ) is Ok
}

/// From a complete entry to its decoded key and value.
pub open spec fn pair_of_entry() -> spec_fn(ResponseView) -> (ValueView, ValueView) {
    |entry: ResponseView| (decoded(*entry.map_key->0)->Ok_0, decoded(*entry.map_value->0)->Ok_0)
}

/// Where every one of the first `n` children decodes, they decode to a
/// sequence of the same length, in the same order, each element being what
/// its child decodes to: nothing is dropped, merged or reordered.
pub proof fn law_children_decode_in_order(items: Seq<ResponseView>, n: nat)
    requires
        n <= items.len(),
        forall|i: int| 0 <= i < n ==> (#[trigger] decoded(items[i])) is Ok,
    ensures
        decoded_items(items, n) == Ok::<Seq<ValueView>, BridgeErrorView>(children_of(items, n)),
    decreases n,
{
    if n > 0 {
        law_children_decode_in_order(items, (n - 1) as nat);
        assert(decoded(items[n - 1]) is Ok);
        assert(children_of(items, n) =~= children_of(items, (n - 1) as nat).push(
            decoded(items[n - 1])->Ok_0,
        ));
    } else {
        assert(children_of(items, n) =~= Seq::empty());
    }
}

/// Where a child fails and every child before it decodes, the whole list
/// fails as that child does.
pub proof fn law_first_failing_child_decides(items: Seq<ResponseView>, k: nat, n: nat)
    requires
        k < n <= items.len(),
        forall|i: int| 0 <= i < k ==> (#[trigger] decoded(items[i])) is Ok,
        decoded(items[k as int]) is Err,
    ensures
        decoded_items(items, n) == Err::<Seq<ValueView>, BridgeErrorView>(
            decoded(items[k as int])->Err_0,
        ),
{
    law_children_decode_in_order(items, k);
    assert(decoded_items(items, (k + 1) as nat) is Err);
    lemma_items_failure_persists(items, (k + 1) as nat, n);
}

/// Where both sides of every complete entry among the first `n` decode, the
/// map decodes to the pairs of its complete entries, in order. An entry
/// with a null key or a null value leaves no trace, and a key that occurs
/// twice gives two pairs.
pub proof fn law_entries_leave_out_incomplete(entries: Seq<ResponseView>, n: nat)
    requires
        n <= entries.len(),
        forall|i: int| 0 <= i < n ==> #[trigger] sides_decode(entries[i]),
    ensures
        decoded_entries(entries, n) == Ok::<Seq<(ValueView, ValueView)>, BridgeErrorView>(
            entries.take(n as int).filter(complete_entries()).map_values(pair_of_entry()),
        ),
    decreases n,
{
    reveal(Seq::filter);
    let taken = entries.take(n as int);
    if n > 0 {
        let before = entries.take(n - 1);
        law_entries_leave_out_incomplete(entries, (n - 1) as nat);
        assert(taken.drop_last() =~= before);
        assert(taken.last() == entries[n - 1]);
        assert(sides_decode(entries[n - 1]));
        let kept = before.filter(complete_entries());
        if is_complete_entry(entries[n - 1]) {
            assert(taken.filter(complete_entries()) == kept.push(entries[n - 1]));
            assert(kept.push(entries[n - 1]).map_values(pair_of_entry()) =~= kept.map_values(
                pair_of_entry(),
            ).push(pair_of_entry()(entries[n - 1])));
        } else {
            assert(taken.filter(complete_entries()) == kept);
        }
    } else {
        assert(taken =~= Seq::empty());
        assert(taken.filter(complete_entries()).map_values(pair_of_entry()) =~= Seq::empty());
    }
}

/// Decoding matches the native payload field for field. For every
/// discriminant of the table, the decoded value is of the form that the
/// table gives and holds what the payload field of that discriminant
/// holds: the same integer, the same bits, the same boolean, the same
/// bytes in the same number, the children or entries in arrival order. A
/// null payload of a string, array, map or set is the absent value, and so
/// is not an empty collection. Any other discriminant is a protocol
/// failure that names it.
pub proof fn law_decoding_matches_payload(r: ResponseView)
    ensures
        r.response_type == 0 ==> decoded(r) == Ok::<ValueView, BridgeErrorView>(ValueView::Absent),
        r.response_type == 1 ==> decoded(r) == Ok::<ValueView, BridgeErrorView>(
            ValueView::Int(r.int_value),
        ),
        r.response_type == 2 ==> decoded(r) == Ok::<ValueView, BridgeErrorView>(
            ValueView::Float(r.float_bits),
        ),
        r.response_type == 3 ==> decoded(r) == Ok::<ValueView, BridgeErrorView>(
            ValueView::Bool(r.bool_value),
        ),
        r.response_type == 4 && r.string_value is Some ==> {
            &&& decoded(r) matches Ok(ValueView::Bytes(bytes))
            &&& bytes.len() == r.string_value->0.len()
            &&& forall|i: int| 0 <= i < bytes.len() ==> bytes[i] == r.string_value->0[i]
        },
        r.response_type == 4 && r.string_value is None ==> decoded(r) == Ok::<
            ValueView,
            BridgeErrorView,
        >(ValueView::Absent),
        (r.response_type == 5 || r.response_type == 6) && r.array_value is None ==> decoded(r)
            == Ok::<ValueView, BridgeErrorView>(ValueView::Absent),
        r.response_type == 7 && r.sets_value is None ==> decoded(r) == Ok::<
            ValueView,
            BridgeErrorView,
        >(ValueView::Absent),
        r.response_type == 5 && r.array_value is Some && (forall|i: int|
            0 <= i < r.array_value->0.len() ==> (#[trigger] decoded(r.array_value->0[i])) is Ok)
            ==> {
            &&& decoded(r) matches Ok(ValueView::Sequence(values))
            &&& values.len() == r.array_value->0.len()
            &&& forall|i: int|
                0 <= i < values.len() ==> Ok::<ValueView, BridgeErrorView>(values[i]) == decoded(
                    r.array_value->0[i],
                )
        },
        r.response_type == 7 && r.sets_value is Some && (forall|i: int|
            0 <= i < r.sets_value->0.len() ==> (#[trigger] decoded(r.sets_value->0[i])) is Ok)
            ==> {
            &&& decoded(r) matches Ok(ValueView::Sequence(values))
            &&& values.len() == r.sets_value->0.len()
            &&& forall|i: int|
                0 <= i < values.len() ==> Ok::<ValueView, BridgeErrorView>(values[i]) == decoded(
                    r.sets_value->0[i],
                )
        },
        r.response_type == 6 && r.array_value is Some && (forall|i: int|
            0 <= i < r.array_value->0.len() ==> #[trigger] sides_decode(r.array_value->0[i]))
            ==> decoded(r) == Ok::<ValueView, BridgeErrorView>(
            ValueView::Pairs(
                r.array_value->0.filter(complete_entries()).map_values(pair_of_entry()),
            ),
        ),
        r.response_type > 7 ==> decoded(r) == Err::<ValueView, BridgeErrorView>(
            BridgeErrorView::Protocol(r.response_type),
        ),
{
    if r.response_type == 5 && r.array_value is Some && (forall|i: int|
        0 <= i < r.array_value->0.len() ==> (#[trigger] decoded(r.array_value->0[i])) is Ok) {
        law_children_decode_in_order(r.array_value->0, r.array_value->0.len());
    }
    if r.response_type == 7 && r.sets_value is Some && (forall|i: int|
        0 <= i < r.sets_value->0.len() ==> (#[trigger] decoded(r.sets_value->0[i])) is Ok) {
        law_children_decode_in_order(r.sets_value->0, r.sets_value->0.len());
    }
    if r.response_type == 6 && r.array_value is Some && (forall|i: int|
        0 <= i < r.array_value->0.len() ==> #[trigger] sides_decode(r.array_value->0[i])) {
        let entries = r.array_value->0;
        law_entries_leave_out_incomplete(entries, entries.len());
        assert(entries.take(entries.len() as int) =~= entries);
    }
}

/// Whether a failure is a protocol failure that names a discriminant
/// outside the table.
pub open spec fn names_unknown_discriminant(e: BridgeErrorView) -> bool {
    e matches BridgeErrorView::Protocol(discriminant) && ResponseType::of_code(discriminant)
        is None
}

/// Decoding fails in one way only, at whatever depth: as a protocol
/// failure that names a discriminant outside the table. No response is
/// turned away for any other reason, and none with an unknown discriminant
/// is given a default.
pub proof fn law_decoding_fails_only_on_unknown_discriminant(r: ResponseView)
    ensures
        decoded(r) matches Err(e) ==> names_unknown_discriminant(e),
        ResponseType::of_code(r.response_type) is None ==> decoded(r) is Err,
    decreases r, 0nat,
{
    match ResponseType::of_code(r.response_type) {
        Some(ResponseType::Array) => {
            if r.array_value is Some {
                lemma_items_fail_only_on_unknown_discriminant(
                    r.array_value->0,
                    r.array_value->0.len(),
                );
            }
        },
        Some(ResponseType::Mapping) => {
            if r.array_value is Some {
                lemma_entries_fail_only_on_unknown_discriminant(
                    r.array_value->0,
                    r.array_value->0.len(),
                );
            }
        },
        Some(ResponseType::Sets) => {
            if r.sets_value is Some {
                lemma_items_fail_only_on_unknown_discriminant(
                    r.sets_value->0,
                    r.sets_value->0.len(),
                );
            }
        },
        _ => {},
    }
}

/// The same, of the first `n` children of a list.
pub proof fn lemma_items_fail_only_on_unknown_discriminant(items: Seq<ResponseView>, n: nat)
    ensures
        decoded_items(items, n) matches Err(e) ==> names_unknown_discriminant(e),
    decreases items, n,
{
    if 0 < n <= items.len() {
        lemma_items_fail_only_on_unknown_discriminant(items, (n - 1) as nat);
        law_decoding_fails_only_on_unknown_discriminant(items[n - 1]);
    }
}

/// The same, of the first `n` entries of a map.
pub proof fn lemma_entries_fail_only_on_unknown_discriminant(entries: Seq<ResponseView>, n: nat)
    ensures
        decoded_entries(entries, n) matches Err(e) ==> names_unknown_discriminant(e),
    decreases entries, n,
{
    if 0 < n <= entries.len() {
        lemma_entries_fail_only_on_unknown_discriminant(entries, (n - 1) as nat);
        let entry = entries[n - 1];
        if is_complete_entry(entry) {
            law_decoding_fails_only_on_unknown_discriminant(*entry.map_key->0);
            law_decoding_fails_only_on_unknown_discriminant(*entry.map_value->0);
        }
    }
}

} // verus!
