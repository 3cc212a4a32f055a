//! The field extractor: scans a declaration sequence for the fields of a
//! schema and validates that every one of them was declared.

use crate::declaration::DeclarationItem;
use crate::resolver::fetch_ident;
use crate::schema::FieldSchema;
use crate::template::{bound, bound_from};
use vstd::prelude::*;

verus! {

/// Why an extraction produced no record.
#[derive(Debug, PartialEq, Eq)]
pub enum ExtractionError {
    /// No declaration binds the named field.
    MissingField(String),
    /// The named declaration binds a schema field to an expression that does
    /// not reduce to a single identifier.
    UnresolvableTypeExpression(String),
}

/// The mathematical content of an [`ExtractionError`].
pub enum ExtractionFailure {
    MissingField(Seq<char>),
    UnresolvableTypeExpression(Seq<char>),
}

impl View for ExtractionError {
    type V = ExtractionFailure;

    open spec fn view(&self) -> ExtractionFailure {
        match self {
            ExtractionError::MissingField(name) => ExtractionFailure::MissingField(name@),
            ExtractionError::UnresolvableTypeExpression(name) =>
                ExtractionFailure::UnresolvableTypeExpression(name@),
        }
    }
}

/// The diagnostic that names the field of a failure.
pub open spec fn failure_message(failure: ExtractionFailure) -> Seq<char> {
    match failure {
        ExtractionFailure::MissingField(name) => "`type "@ + name
            + "` not specified, but required"@,
        ExtractionFailure::UnresolvableTypeExpression(name) => "`type "@ + name
            + "` does not resolve to a single identifier"@,
    }
}

impl ExtractionError {
    /// The diagnostic for this error. It names the field concerned.
    pub fn message(&self) -> (r: String)
        ensures
            r@ == failure_message(self@),
    {
        let mut out = String::from_str("`type ");
        match self {
            ExtractionError::MissingField(name) => {
                out.append(name.as_str());
                out.append("` not specified, but required");
            },
            ExtractionError::UnresolvableTypeExpression(name) => {
                out.append(name.as_str());
                out.append("` does not resolve to a single identifier");
            },
        }
        out
    }
}

/// The position of the last item that declares `name`, if any does.
pub open spec fn last_declaration(items: Seq<DeclarationItem>, name: Seq<char>) -> Option<int>
    decreases items.len(),
{
    if items.len() == 0 {
        None
    } else if items.last().declares(name) {
        Some(items.len() - 1)
    } else {
        last_declaration(items.drop_last(), name)
    }
}

/// The identifier bound to `name`: what the last declaration of `name`
/// resolves to.
pub open spec fn binding(items: Seq<DeclarationItem>, name: Seq<char>) -> Option<Seq<char>> {
    match last_declaration(items, name) {
        Some(i) => items[i].resolved(),
        None => None,
    }
}

/// Whether `item` declares one of `names` with an expression that does not
/// reduce to a single identifier.
pub open spec fn offending(item: DeclarationItem, names: Seq<Seq<char>>) -> bool {
    item.resolved().is_none() && exists|k: int|
        0 <= k < names.len() && item.declares(#[trigger] names[k])
}

/// The position of the first offending item, if there is one.
pub open spec fn first_offending(items: Seq<DeclarationItem>, names: Seq<Seq<char>>) -> Option<
    int,
>
    decreases items.len(),
{
    if items.len() == 0 {
        None
    } else {
        match first_offending(items.drop_last(), names) {
            Some(i) => Some(i),
            None => if offending(items.last(), names) {
                Some(items.len() - 1)
            } else {
                None
            },
        }
    }
}

/// The position in `names` of the first field that no item declares, if
/// there is one.
pub open spec fn first_missing(items: Seq<DeclarationItem>, names: Seq<Seq<char>>) -> Option<int>
    decreases names.len(),
{
    if names.len() == 0 {
        None
    } else {
        match first_missing(items, names.drop_last()) {
            Some(k) => Some(k),
            None => if last_declaration(items, names.last()).is_none() {
                Some(names.len() - 1)
            } else {
                None
            },
        }
    }
}

/// What extraction yields: the first offending declaration, else the first
/// missing field, else each field paired with its binding, in schema order.
pub open spec fn extraction(items: Seq<DeclarationItem>, names: Seq<Seq<char>>) -> Result<
    Seq<(Seq<char>, Seq<char>)>,
    ExtractionFailure,
> {
    match first_offending(items, names) {
        Some(i) => Err(ExtractionFailure::UnresolvableTypeExpression(items[i].alias_name())),
        None => match first_missing(items, names) {
            Some(k) => Err(ExtractionFailure::MissingField(names[k])),
            None => Ok(Seq::new(names.len(), |k: int| (names[k], binding(items, names[k])->0))),
        },
    }
}

/// The last declaration of `name` is a declaration of `name` that no later
/// one follows; where there is none, no item declares `name`.
pub proof fn lemma_last_declaration(items: Seq<DeclarationItem>, name: Seq<char>)
    ensures
        match last_declaration(items, name) {
            Some(i) => {
                &&& 0 <= i < items.len()
                &&& items[i].declares(name)
                &&& forall|j: int| i < j < items.len() ==> !(#[trigger] items[j]).declares(name)
            },
            None => forall|j: int| 0 <= j < items.len() ==> !(#[trigger] items[j]).declares(name),
        },
    decreases items.len(),
{
    if items.len() > 0 && !items.last().declares(name) {
        let front = items.drop_last();
        lemma_last_declaration(front, name);
        assert forall|j: int| 0 <= j < front.len() implies #[trigger] items[j] == front[j] by {}
    }
}

/// The first offending item is offending and no earlier one is; where there
/// is none, no item is offending.
pub proof fn lemma_first_offending(items: Seq<DeclarationItem>, names: Seq<Seq<char>>)
    ensures
        match first_offending(items, names) {
            Some(i) => {
                &&& 0 <= i < items.len()
                &&& offending(items[i], names)
                &&& forall|j: int| 0 <= j < i ==> !offending(#[trigger] items[j], names)
            },
            None => forall|j: int| 0 <= j < items.len() ==> !offending(#[trigger] items[j], names),
        },
    decreases items.len(),
{
    if items.len() > 0 {
        let front = items.drop_last();
        lemma_first_offending(front, names);
        assert forall|j: int| 0 <= j < front.len() implies #[trigger] items[j] == front[j] by {}
    }
}

/// The first missing field is declared nowhere and every field before it is
/// declared; where there is none, every field is declared.
pub proof fn lemma_first_missing(items: Seq<DeclarationItem>, names: Seq<Seq<char>>)
    ensures
        match first_missing(items, names) {
            Some(k) => {
                &&& 0 <= k < names.len()
                &&& last_declaration(items, names[k]).is_none()
                &&& forall|j: int|
                    0 <= j < k ==> last_declaration(items, #[trigger] names[j]).is_some()
            },
            None => forall|j: int|
                0 <= j < names.len() ==> last_declaration(items, #[trigger] names[j]).is_some(),
        },
    decreases names.len(),
{
    if names.len() > 0 {
        let front = names.drop_last();
        lemma_first_missing(items, front);
        assert forall|j: int| 0 <= j < front.len() implies #[trigger] names[j] == front[j] by {}
    }
}

/// An offending item found in a prefix is the first one of the whole
/// sequence too.
proof fn lemma_first_offending_prefix(
    items: Seq<DeclarationItem>,
    names: Seq<Seq<char>>,
    n: int,
)
    requires
        0 <= n <= items.len(),
        first_offending(items.take(n), names).is_some(),
    ensures
        first_offending(items, names) == first_offending(items.take(n), names),
    decreases items.len() - n,
{
    if n < items.len() {
        assert(items.take(n + 1).drop_last() =~= items.take(n));
        lemma_first_offending_prefix(items, names, n + 1);
    } else {
        assert(items.take(n) =~= items);
    }
}

/// A validated mapping from each field of a schema to the identifier bound
/// to it. Every value is a non-empty identifier.
#[derive(Debug)]
pub struct FieldRecord {
    names: Vec<String>,
    values: Vec<String>,
}

impl View for FieldRecord {
    type V = Seq<(Seq<char>, Seq<char>)>;

    closed spec fn view(&self) -> Seq<(Seq<char>, Seq<char>)> {
        Seq::new(self.names@.len(), |k: int| (self.names@[k]@, self.values@[k]@))
    }
}

impl FieldRecord {
    #[verifier::type_invariant]
    spec fn valid(self) -> bool {
        &&& self.names@.len() == self.values@.len()
        &&& forall|k: int| 0 <= k < self.values@.len() ==> (#[trigger] self.values@[k])@.len() > 0
    }

    /// The number of fields.
    pub fn len(&self) -> (n: usize)
        ensures
            n == self@.len(),
    {
        self.names.len()
    }

    /// The name of field `k`, in schema order.
    pub fn name(&self, k: usize) -> (r: &String)
        requires
            k < self@.len(),
        ensures
            r@ == self@[k as int].0,
    {
        &self.names[k]
    }

    /// The identifier bound to the field `name`, if the record has such a
    /// field.
    pub fn get(&self, name: &str) -> (r: Option<&String>)
        ensures
            match r {
                Some(value) => bound(self@, name@) == Some(value@) && value@.len() > 0,
                None => bound(self@, name@).is_none(),
            },
    {
        proof {
            use_type_invariant(self);
        }
        let wanted = name.to_owned();
        let mut k: usize = 0;
        while k < self.names.len()
            invariant
                self.names@.len() == self.values@.len(),
                k <= self.names@.len(),
                wanted@ == name@,
                bound(self@, name@) == bound_from(self@, name@, k as int),
            decreases self.names@.len() - k,
        {
            proof {
                use_type_invariant(self);
                assert(self@[k as int] == (self.names@[k as int]@, self.values@[k as int]@));
            }
            if self.names[k].eq(&wanted) {
                return Some(&self.values[k]);
            }
            k += 1;
        }
        None
    }

    /// The identifier bound to field `k`, in schema order. It is not empty.
    pub fn value(&self, k: usize) -> (r: &String)
        requires
            k < self@.len(),
        ensures
            r@ == self@[k as int].1,
            r@.len() > 0,
    {
        proof {
            use_type_invariant(self);
        }
        &self.values[k]
    }
}

/// What a slot holds while a scan is under way.
spec fn slot_view(slot: Option<String>) -> Option<Seq<char>> {
    match slot {
        Some(id) => Some(id@),
        None => None,
    }
}

/// Scans `items` in order and collects, for each field of `schema`, the
/// identifier of its last declaration. Stops at the first offending item.
fn scan(items: &[DeclarationItem], schema: &FieldSchema) -> (r: Result<
    Vec<Option<String>>,
    (usize, usize),
>)
    ensures
        match r {
            Ok(slots) => {
                &&& first_offending(items@, schema@).is_none()
                &&& slots@.len() == schema@.len()
                &&& forall|k: int|
                    0 <= k < schema@.len() ==> {
                        &&& slot_view(#[trigger] slots@[k]) == binding(items@, schema@[k])
                        &&& slots@[k].is_none() <==> last_declaration(items@, schema@[k]).is_none()
                        &&& slots@[k] matches Some(id) ==> id@.len() > 0
                    }
            },
            Err((i, k)) => {
                &&& first_offending(items@, schema@) == Some(i as int)
                &&& i < items@.len()
                &&& k < schema@.len()
                &&& items@[i as int].declares(schema@[k as int])
            },
        },
{
    let count: usize = schema.names.len();
    let mut slots: Vec<Option<String>> = Vec::new();
    let mut k: usize = 0;
    while k < count
        invariant
            count == schema@.len(),
            k <= count,
            slots@.len() == k,
            forall|j: int| 0 <= j < k ==> (#[trigger] slots@[j]).is_none(),
        decreases count - k,
    {
        slots.push(None);
        k += 1;
    }
    let mut i: usize = 0;
    assert(items@.take(0) =~= Seq::empty());
    while i < items.len()
        invariant
            count == schema@.len(),
            count == schema.names@.len(),
            i <= items@.len(),
            slots@.len() == count,
            first_offending(items@.take(i as int), schema@).is_none(),
            forall|k: int|
                0 <= k < count ==> {
                    &&& slot_view(#[trigger] slots@[k]) == binding(
                        items@.take(i as int),
                        schema@[k],
                    )
                    &&& slots@[k].is_none() <==> last_declaration(
                        items@.take(i as int),
                        schema@[k],
                    ).is_none()
                    &&& slots@[k] matches Some(id) ==> id@.len() > 0
                },
        decreases items@.len() - i,
    {
        let ghost before = items@.take(i as int);
        let ghost after = items@.take(i + 1);
        assert(after.drop_last() =~= before);
        assert(after.last() == items@[i as int]);
        match &items[i] {
            DeclarationItem::TypeAlias { name, expression } => {
                let resolved = fetch_ident(expression);
                let mut k: usize = 0;
                while k < count
                    invariant
                        count == schema@.len(),
                        count == schema.names@.len(),
                        k <= count,
                        i < items@.len(),
                        slots@.len() == count,
                        before == items@.take(i as int),
                        after == items@.take(i + 1),
                        after.drop_last() == before,
                        after.last() == items@[i as int],
                        items@[i as int] == (DeclarationItem::TypeAlias {
                            name: *name,
                            expression: *expression,
                        }),
                        slot_view(resolved) == expression.terminal(),
                        resolved matches Some(id) ==> id@.len() > 0,
                        first_offending(before, schema@).is_none(),
                        resolved.is_none() ==> forall|j: int|
                            0 <= j < k ==> !items@[i as int].declares(#[trigger] schema@[j]),
                        forall|j: int|
                            0 <= j < count ==> {
                                let seen = if j < k {
                                    after
                                } else {
                                    before
                                };
                                &&& slot_view(#[trigger] slots@[j]) == binding(seen, schema@[j])
                                &&& slots@[j].is_none() <==> last_declaration(
                                    seen,
                                    schema@[j],
                                ).is_none()
                                &&& slots@[j] matches Some(id) ==> id@.len() > 0
                            },
                    decreases count - k,
                {
                    proof {
                        assert(schema@[k as int] == schema.names@[k as int]@);
                        lemma_last_declaration(before, schema@[k as int]);
                    }
                    if schema.names[k].eq(name) {
                        match &resolved {
                            Some(id) => {
                                slots[k] = Some(id.clone());
                            },
                            None => {
                                proof {
                                    assert(offending(after.last(), schema@));
                                    lemma_first_offending_prefix(items@, schema@, i + 1);
                                }
                                return Err((i, k));
                            },
                        }
                    }
                    k += 1;
                }
                assert(!offending(after.last(), schema@)) by {
                    if resolved.is_none() {
                        assert forall|j: int| 0 <= j < schema@.len() implies !after.last().declares(
                            #[trigger] schema@[j],
                        ) by {}
                    }
                }
            },
            DeclarationItem::Other => {
                assert(!offending(after.last(), schema@));
                assert forall|k: int| 0 <= k < count implies binding(after, #[trigger] schema@[k])
                    == binding(before, schema@[k]) by {
                    lemma_last_declaration(before, schema@[k]);
                }
            },
        }
        i += 1;
    }
    assert(items@.take(i as int) =~= items@);
    Ok(slots)
}

/// The first slot that was never set, if there is one.
fn first_unset(slots: &Vec<Option<String>>) -> (r: Option<usize>)
    ensures
        match r {
            Some(k) => {
                &&& k < slots@.len()
                &&& slots@[k as int].is_none()
                &&& forall|j: int| 0 <= j < k ==> (#[trigger] slots@[j]).is_some()
            },
            None => forall|j: int| 0 <= j < slots@.len() ==> (#[trigger] slots@[j]).is_some(),
        },
{
    let mut k: usize = 0;
    while k < slots.len()
        invariant
            k <= slots@.len(),
            forall|j: int| 0 <= j < k ==> (#[trigger] slots@[j]).is_some(),
        decreases slots@.len() - k,
    {
        if slots[k].is_none() {
            return Some(k);
        }
        k += 1;
    }
    None
}

/// The position of the last item of `items` that declares `name`: the
/// declaration that an extraction takes the binding of `name` from.
pub fn declaration_position(items: &[DeclarationItem], name: &str) -> (r: Option<usize>)
    ensures
        match r {
            Some(i) => last_declaration(items@, name@) == Some(i as int),
            None => last_declaration(items@, name@).is_none(),
        },
{
    let wanted = name.to_owned();
    let mut found: Option<usize> = None;
    let mut i: usize = 0;
    assert(items@.take(0) =~= Seq::empty());
    while i < items.len()
        invariant
            i <= items@.len(),
            wanted@ == name@,
            match found {
                Some(at) => last_declaration(items@.take(i as int), name@) == Some(at as int),
                None => last_declaration(items@.take(i as int), name@).is_none(),
            },
        decreases items@.len() - i,
    {
        proof {
            let seen = items@.take(i + 1);
            assert(seen.drop_last() =~= items@.take(i as int));
            assert(seen.last() == items@[i as int]);
        }
        match &items[i] {
            DeclarationItem::TypeAlias { name: alias, .. } => {
                if alias.eq(&wanted) {
                    found = Some(i);
                }
            },
            DeclarationItem::Other => {},
        }
        i += 1;
    }
    assert(items@.take(i as int) =~= items@);
    found
}

/// Where an extraction fell short, by position in the schema.
#[derive(Debug, PartialEq, Eq)]
pub enum Shortfall {
    /// No declaration binds the field at this position.
    Missing(usize),
    /// A declaration binds the field at this position to an expression that
    /// does not reduce to a single identifier.
    Unresolvable(usize),
}

/// Extracts the fields of `schema` from `items`, and reports a failure by the
/// position of the field concerned. See [`extract`].
pub fn extract_indexed(items: &[DeclarationItem], schema: &FieldSchema) -> (r: Result<
    FieldRecord,
    Shortfall,
>)
    ensures
        match r {
            Ok(record) => extraction(items@, schema@) == Ok::<_, ExtractionFailure>(record@),
            Err(Shortfall::Missing(k)) => k < schema@.len() && extraction(items@, schema@) == Err::<
                Seq<(Seq<char>, Seq<char>)>,
                _,
            >(ExtractionFailure::MissingField(schema@[k as int])),
            Err(Shortfall::Unresolvable(k)) => k < schema@.len() && extraction(items@, schema@)
                == Err::<Seq<(Seq<char>, Seq<char>)>, _>(
                ExtractionFailure::UnresolvableTypeExpression(schema@[k as int]),
            ),
        },
{
    let slots = match scan(items, schema) {
        Ok(slots) => slots,
        Err((i, k)) => {
            assert(items@[i as int].alias_name() == schema@[k as int]);
            return Err(Shortfall::Unresolvable(k));
        },
    };
    proof {
        lemma_first_missing(items@, schema@);
    }
    match first_unset(&slots) {
        Some(k) => {
            assert(first_missing(items@, schema@) == Some(k as int)) by {
                assert(slots@[k as int].is_none());
                assert forall|j: int| 0 <= j < k implies last_declaration(
                    items@,
                    #[trigger] schema@[j],
                ).is_some() by {
                    assert(slots@[j].is_some());
                }
            }
            Err(Shortfall::Missing(k))
        },
        None => {
            let count: usize = schema.names.len();
            let mut names: Vec<String> = Vec::new();
            let mut values: Vec<String> = Vec::new();
            let mut k: usize = 0;
            while k < count
                invariant
                    count == schema.names@.len(),
                    count == schema@.len(),
                    slots@.len() == count,
                    k <= count,
                    names@.len() == k,
                    values@.len() == k,
                    forall|j: int|
                        0 <= j < count ==> {
                            &&& (#[trigger] slots@[j]).is_some()
                            &&& slot_view(slots@[j]) == binding(items@, schema@[j])
                            &&& slots@[j] matches Some(id) ==> id@.len() > 0
                        },
                    forall|j: int| 0 <= j < k ==> (#[trigger] names@[j])@ == schema@[j],
                    forall|j: int|
                        0 <= j < k ==> {
                            &&& Some((#[trigger] values@[j])@) == binding(items@, schema@[j])
                            &&& values@[j]@.len() > 0
                        },
                decreases count - k,
            {
                assert(schema@[k as int] == schema.names@[k as int]@);
                assert(slots@[k as int].is_some());
                names.push(schema.names[k].clone());
                values.push(slots[k].as_ref().unwrap().clone());
                k += 1;
            }
            let record = FieldRecord { names, values };
            proof {
                assert forall|j: int| 0 <= j < schema@.len() implies last_declaration(
                    items@,
                    #[trigger] schema@[j],
                ).is_some() by {
                    assert(slots@[j].is_some());
                }
                assert(first_missing(items@, schema@).is_none());
                let expected = extraction(items@, schema@)->Ok_0;
                assert(record@.len() == expected.len());
                assert forall|j: int| 0 <= j < record@.len() implies record@[j] == expected[j] by {
                    assert(names@[j]@ == schema@[j]);
                    assert(Some(values@[j]@) == binding(items@, schema@[j]));
                }
                assert(record@ =~= expected);
            }
            Ok(record)
        },
    }
}

/// Extracts the fields of `schema` from `items`.
///
/// Items are scanned in order. A type alias named after a schema field binds
/// that field to the identifier its expression resolves to, and a later
/// binding of the same field replaces an earlier one; every other item is
/// passed over. The extraction fails at the first alias of a schema field
/// whose expression does not reduce to a single identifier, and otherwise at
/// the first field, in schema order, that no item declares.
pub fn extract(items: &[DeclarationItem], schema: &FieldSchema) -> (r: Result<
    FieldRecord,
    ExtractionError,
>)
    ensures
        match r {
            Ok(record) => extraction(items@, schema@) == Ok::<_, ExtractionFailure>(record@),
            Err(e) => extraction(items@, schema@) == Err::<Seq<(Seq<char>, Seq<char>)>, _>(e@),
        },
{
    match extract_indexed(items, schema) {
        Ok(record) => Ok(record),
        Err(Shortfall::Missing(k)) => {
            assert(schema@[k as int] == schema.names@[k as int]@);
            Err(ExtractionError::MissingField(schema.names[k].clone()))
        },
        Err(Shortfall::Unresolvable(k)) => {
            assert(schema@[k as int] == schema.names@[k as int]@);
            Err(ExtractionError::UnresolvableTypeExpression(schema.names[k].clone()))
        },
    }
}

} // verus!
