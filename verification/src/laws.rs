//! Laws of extraction, stated over [`extraction`] and proved.

use crate::declaration::DeclarationItem;
use crate::extract::{
    binding, extraction, first_missing, last_declaration, lemma_first_missing,
    lemma_first_offending, lemma_last_declaration, offending, ExtractionFailure,
};
use vstd::prelude::*;

verus! {

/// Whether some item of `items` declares `name`.
pub open spec fn declared(items: Seq<DeclarationItem>, name: Seq<char>) -> bool {
    exists|i: int| 0 <= i < items.len() && (#[trigger] items[i]).declares(name)
}

/// Whether every declaration of a field of `names` in `items` resolves to a
/// single identifier.
pub open spec fn resolvable(items: Seq<DeclarationItem>, names: Seq<Seq<char>>) -> bool {
    forall|i: int| 0 <= i < items.len() ==> !offending(#[trigger] items[i], names)
}

/// Whether item `i` is the last one of `items` that declares `name`.
pub open spec fn is_last_declaration(items: Seq<DeclarationItem>, name: Seq<char>, i: int) -> bool {
    &&& 0 <= i < items.len()
    &&& items[i].declares(name)
    &&& forall|j: int| i < j < items.len() ==> !(#[trigger] items[j]).declares(name)
}

/// Whether no field of `names` is declared by two items of `items`.
pub open spec fn no_duplicate_fields(items: Seq<DeclarationItem>, names: Seq<Seq<char>>) -> bool {
    forall|i: int, j: int, k: int|
        0 <= i < j < items.len() && 0 <= k < names.len() ==> !((#[trigger] items[i]).declares(
            #[trigger] names[k],
        ) && (#[trigger] items[j]).declares(names[k]))
}

/// A sequence that declares every field of the schema, each time with an
/// expression that resolves, extracts successfully. The record pairs each
/// field, in schema order, with the identifier that the last declaration of
/// that field resolves to, whatever stands before or between the
/// declarations.
pub proof fn lemma_complete_sequence_extracts(items: Seq<DeclarationItem>, names: Seq<Seq<char>>)
    requires
        forall|k: int| 0 <= k < names.len() ==> declared(items, #[trigger] names[k]),
        resolvable(items, names),
    ensures
        extraction(items, names) matches Ok(record) && record.len() == names.len() && forall|
            k: int,
        |
            0 <= k < names.len() ==> (#[trigger] record[k]).0 == names[k] && exists|i: int|
                is_last_declaration(items, names[k], i) && (#[trigger] items[i]).resolved() == Some(
                    record[k].1,
                ),
{
    lemma_first_offending(items, names);
    lemma_first_missing(items, names);
    assert forall|k: int| 0 <= k < names.len() implies last_declaration(
        items,
        #[trigger] names[k],
    ).is_some() by {
        lemma_last_declaration(items, names[k]);
        assert(declared(items, names[k]));
    }
    let record = extraction(items, names)->Ok_0;
    assert forall|k: int| 0 <= k < names.len() implies (#[trigger] record[k]).0 == names[k]
        && exists|i: int|
        is_last_declaration(items, names[k], i) && (#[trigger] items[i]).resolved() == Some(
            record[k].1,
        ) by {
        lemma_last_declaration(items, names[k]);
        let i = last_declaration(items, names[k])->0;
        assert(!offending(items[i], names));
        assert(is_last_declaration(items, names[k], i));
    }
}

/// A successful extraction binds each field to what its last declaration
/// resolves to, and only a complete, resolvable sequence extracts
/// successfully.
pub proof fn lemma_extraction_success(items: Seq<DeclarationItem>, names: Seq<Seq<char>>)
    ensures
        extraction(items, names) is Ok <==> resolvable(items, names) && forall|k: int|
            0 <= k < names.len() ==> declared(items, #[trigger] names[k]),
{
    lemma_first_offending(items, names);
    lemma_first_missing(items, names);
    if extraction(items, names) is Ok {
        assert forall|k: int| 0 <= k < names.len() implies declared(items, #[trigger] names[k]) by {
            lemma_last_declaration(items, names[k]);
            let i = last_declaration(items, names[k])->0;
            assert(items[i].declares(names[k]));
        }
    }
    if resolvable(items, names) && forall|k: int|
        0 <= k < names.len() ==> declared(items, #[trigger] names[k]) {
        lemma_complete_sequence_extracts(items, names);
    }
}

/// Where field `k` is the first of the schema that no item declares, and
/// every declaration of a schema field resolves, extraction fails and names
/// that field as missing.
pub proof fn lemma_missing_field_is_reported(
    items: Seq<DeclarationItem>,
    names: Seq<Seq<char>>,
    k: int,
)
    requires
        0 <= k < names.len(),
        !declared(items, names[k]),
        forall|j: int| 0 <= j < k ==> declared(items, #[trigger] names[j]),
        resolvable(items, names),
    ensures
        extraction(items, names) == Err::<Seq<(Seq<char>, Seq<char>)>, _>(
            ExtractionFailure::MissingField(names[k]),
        ),
{
    lemma_first_offending(items, names);
    lemma_first_missing(items, names);
    lemma_last_declaration(items, names[k]);
    assert(last_declaration(items, names[k]).is_none()) by {
        if last_declaration(items, names[k]).is_some() {
            let i = last_declaration(items, names[k])->0;
            assert(items[i].declares(names[k]));
        }
    }
    assert forall|j: int| 0 <= j < k implies last_declaration(items, #[trigger] names[j]).is_some() by {
        lemma_last_declaration(items, names[j]);
        assert(declared(items, names[j]));
    }
}

/// Where field `k` is the only one that no item declares, extraction names it
/// as missing, and succeeds once a declaration of it that resolves is
/// appended: the record then binds field `k` to what that declaration
/// resolves to.
pub proof fn lemma_appended_declaration_completes(
    items: Seq<DeclarationItem>,
    names: Seq<Seq<char>>,
    k: int,
    declaration: DeclarationItem,
)
    requires
        0 <= k < names.len(),
        !declared(items, names[k]),
        forall|j: int| 0 <= j < names.len() && j != k ==> declared(items, #[trigger] names[j]),
        resolvable(items, names),
        declaration.declares(names[k]),
        declaration.resolved().is_some(),
    ensures
        extraction(items, names) == Err::<Seq<(Seq<char>, Seq<char>)>, _>(
            ExtractionFailure::MissingField(names[k]),
        ),
        extraction(items.push(declaration), names) matches Ok(record) && record[k] == (
            names[k],
            declaration.resolved()->0,
        ),
{
    lemma_missing_field_is_reported(items, names, k);
    let extended = items.push(declaration);
    assert(extended.drop_last() =~= items);
    assert(extended.last() == declaration);
    assert forall|i: int| 0 <= i < extended.len() implies !offending(
        #[trigger] extended[i],
        names,
    ) by {
        if i < items.len() {
            assert(extended[i] == items[i]);
        }
    }
    assert forall|j: int| 0 <= j < names.len() implies declared(extended, #[trigger] names[j]) by {
        if j == k {
            assert(extended[items.len() as int].declares(names[j]));
        } else {
            let i = choose|i: int| 0 <= i < items.len() && (#[trigger] items[i]).declares(names[j]);
            assert(extended[i].declares(names[j]));
        }
    }
    lemma_complete_sequence_extracts(extended, names);
    assert(last_declaration(extended, names[k]) == Some(items.len() as int));
}

/// The order of the items does not matter where no field is declared twice:
/// a rearrangement of such a sequence declares the same fields and binds
/// them to the same identifiers, so unless a declaration fails to resolve it
/// extracts to the same record or misses the same field.
pub proof fn lemma_order_independence(
    items: Seq<DeclarationItem>,
    rearranged: Seq<DeclarationItem>,
    names: Seq<Seq<char>>,
)
    requires
        no_duplicate_fields(items, names),
        items.to_multiset() == rearranged.to_multiset(),
    ensures
        resolvable(items, names) <==> resolvable(rearranged, names),
        resolvable(items, names) ==> extraction(rearranged, names) == extraction(items, names),
        extraction(items, names) is Ok ==> extraction(rearranged, names) == extraction(
            items,
            names,
        ),
{
    items.to_multiset_ensures();
    rearranged.to_multiset_ensures();
    assert forall|x: DeclarationItem| items.contains(x) <==> rearranged.contains(x) by {
        assert(items.contains(x) <==> items.to_multiset().count(x) > 0);
        assert(rearranged.contains(x) <==> rearranged.to_multiset().count(x) > 0);
    }
    assert(resolvable(items, names) <==> resolvable(rearranged, names)) by {
        if resolvable(items, names) {
            assert forall|i: int| 0 <= i < rearranged.len() implies !offending(
                #[trigger] rearranged[i],
                names,
            ) by {
                assert(rearranged.contains(rearranged[i]));
                let j = choose|j: int| 0 <= j < items.len() && items[j] == rearranged[i];
                assert(!offending(items[j], names));
            }
        }
        if resolvable(rearranged, names) {
            assert forall|i: int| 0 <= i < items.len() implies !offending(
                #[trigger] items[i],
                names,
            ) by {
                assert(items.contains(items[i]));
                let j = choose|j: int| 0 <= j < rearranged.len() && rearranged[j] == items[i];
                assert(!offending(rearranged[j], names));
            }
        }
    }
    lemma_first_offending(items, names);
    lemma_first_offending(rearranged, names);
    if resolvable(items, names) {
        assert forall|k: int| 0 <= k < names.len() implies last_declaration(
            items,
            #[trigger] names[k],
        ).is_some() == last_declaration(rearranged, names[k]).is_some() && binding(
            items,
            names[k],
        ) == binding(rearranged, names[k]) by {
            lemma_last_declaration(items, names[k]);
            lemma_last_declaration(rearranged, names[k]);
            match last_declaration(rearranged, names[k]) {
                Some(r) => {
                    assert(rearranged.contains(rearranged[r]));
                    let i = choose|i: int| 0 <= i < items.len() && items[i] == rearranged[r];
                    assert(items[i].declares(names[k]));
                    let l = last_declaration(items, names[k])->0;
                    assert(l == i) by {
                        if l != i {
                            assert(items[l].declares(names[k]) && items[i].declares(names[k]));
                        }
                    }
                },
                None => {
                    if last_declaration(items, names[k]).is_some() {
                        let l = last_declaration(items, names[k])->0;
                        assert(items.contains(items[l]));
                        let r = choose|r: int|
                            0 <= r < rearranged.len() && rearranged[r] == items[l];
                        assert(rearranged[r].declares(names[k]));
                    }
                },
            }
        }
        lemma_first_missing(items, names);
        lemma_first_missing(rearranged, names);
        assert(first_missing(items, names) == first_missing(rearranged, names));
        if first_missing(items, names).is_none() {
            assert(extraction(items, names)->Ok_0 =~= extraction(rearranged, names)->Ok_0);
        }
    }
}

} // verus!
