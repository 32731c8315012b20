//! Finds the `set_collectable` methods of the `Collectable` trait that a
//! value's type reaches.
//!
//! A type implements `Collectable` when its values own heap memory that must
//! be handed over to the collector when the value itself becomes collected.
//! Marking a value collectable calls `set_collectable` on every component of
//! it whose type implements the trait. Two pieces of logic decide which
//! methods are involved:
//!
//! * the monomorphization collector must instantiate every such method that
//!   a type could reach, whatever enum variants are active at run time;
//! * the generated code calls them on the components of a concrete value,
//!   following only the active variant of each enum.
//!
//! Types and values are given as tables: the entries that make up an entry
//! come after it in the table.

use vstd::prelude::*;

verus! {

// ---------------------------------------------------------------------------
// Instances the monomorphization collector must add
// ---------------------------------------------------------------------------
#[derive(Clone, Debug)]
pub enum MonoTyKind {
    /// Booleans, numbers, characters, the never type, function items and
    /// pointers, string slices and generator witnesses.
    Scalar,
    RawPtr { pointee: usize },
    Ref { referent: usize },
    /// A struct, enum or union. `variant_fields` are the field types of all
    /// variants with the generic arguments substituted (read for enums only),
    /// `fields` the declared field types of all variants.
    Adt { is_collectable: bool, is_enum: bool, variant_fields: Vec<usize>, fields: Vec<usize> },
    Tuple { fields: Vec<usize> },
    Array { elem: usize },
    Slice { elem: usize },
    /// Any other type.
    Other,
}

/// The components the collector descends into from type `t`, in order.
pub open spec fn mono_children(table: Seq<MonoTyKind>, t: int) -> Seq<usize> {
    match table[t] {
        MonoTyKind::RawPtr { pointee } => seq![pointee],
        MonoTyKind::Ref { referent } => seq![referent],
        MonoTyKind::Adt { is_enum, variant_fields, fields, .. } => if is_enum {
            variant_fields@ + fields@
        } else {
            fields@
        },
        MonoTyKind::Tuple { fields } => fields@,
        MonoTyKind::Array { elem } => seq![elem],
        MonoTyKind::Slice { elem } => seq![elem],
        _ => Seq::empty(),
    }
}

/// The types whose `set_collectable` method the collector adds when it
/// reaches type `t`, in the order added: `t` itself if it is a collectable
/// struct, enum or union, then those reached from its components in order.
pub open spec fn mono_items(table: Seq<MonoTyKind>, t: int) -> Seq<usize>
    decreases table.len() - t, 1int, 0int,
{
    if !(0 <= t < table.len()) {
        Seq::empty()
    } else {
        let own = match table[t] {
            MonoTyKind::Adt { is_collectable, .. } => if is_collectable {
                seq![t as usize]
            } else {
                Seq::empty()
            },
            _ => Seq::empty(),
        };
        own + mono_items_list(table, t, mono_children(table, t), 0)
    }
}

/// The types added when the collector reaches `cs[i..]` in order.
pub open spec fn mono_items_list(table: Seq<MonoTyKind>, parent: int, cs: Seq<usize>, i: int) -> Seq<usize>
    decreases table.len() - parent, 0int, cs.len() - i,
{
    if !(0 <= i < cs.len()) {
        Seq::empty()
    } else if parent < cs[i] < table.len() {
        mono_items(table, cs[i] as int) + mono_items_list(table, parent, cs, i + 1)
    } else {
        mono_items_list(table, parent, cs, i + 1)
    }
}

/// Whether components come after the types they belong to.
pub open spec fn mono_table_wf(table: Seq<MonoTyKind>) -> bool {
    forall|t: int, i: int|
        0 <= t < table.len() && 0 <= i < mono_children(table, t).len() ==> t
            < #[trigger] mono_children(table, t)[i] < table.len()
}

fn collect_list(table: &Vec<MonoTyKind>, parent: usize, cs: &Vec<usize>, output: &mut Vec<usize>)
    requires
        mono_table_wf(table@),
        parent < table@.len(),
        forall|i: int| 0 <= i < cs@.len() ==> parent < #[trigger] cs@[i] < table@.len(),
    ensures
        final(output)@ == old(output)@ + mono_items_list(table@, parent as int, cs@, 0),
    decreases table@.len() - parent, 0int,
{
    let ghost base = output@;
    let mut i: usize = 0;
    while i < cs.len()
        invariant
            mono_table_wf(table@),
            parent < table@.len(),
            forall|k: int| 0 <= k < cs@.len() ==> parent < #[trigger] cs@[k] < table@.len(),
            i <= cs@.len(),
            base + mono_items_list(table@, parent as int, cs@, 0) == output@ + mono_items_list(
                table@,
                parent as int,
                cs@,
                i as int,
            ),
        decreases cs@.len() - i,
    {
        let c = cs[i];
        let ghost before = output@;
        collect_mono(table, c, output);
        assert(before + mono_items_list(table@, parent as int, cs@, i as int) =~= output@
            + mono_items_list(table@, parent as int, cs@, i + 1));
        i = i + 1;
    }
    assert(mono_items_list(table@, parent as int, cs@, i as int) =~= Seq::<usize>::empty());
    assert(output@ =~= base + mono_items_list(table@, parent as int, cs@, 0));
}

/// Appends to `output` every type whose `set_collectable` method is reached
/// from type `ty`, in the order the monomorphization collector adds them.
pub fn collect_mono(table: &Vec<MonoTyKind>, ty: usize, output: &mut Vec<usize>)
    requires
        mono_table_wf(table@),
        ty < table@.len(),
    ensures
        final(output)@ == old(output)@ + mono_items(table@, ty as int),
    decreases table@.len() - ty, 1int,
{
    proof {
        assert forall|i: int| 0 <= i < mono_children(table@, ty as int).len() implies (ty as int)
            < #[trigger] mono_children(table@, ty as int)[i] < table@.len() by {}
    }
    match &table[ty] {
        MonoTyKind::RawPtr { pointee } => {
            let p = *pointee;
            let mut cs: Vec<usize> = Vec::new();
            cs.push(p);
            assert(cs@ =~= mono_children(table@, ty as int));
            collect_list(table, ty, &cs, output);
        },
        MonoTyKind::Ref { referent } => {
            let p = *referent;
            let mut cs: Vec<usize> = Vec::new();
            cs.push(p);
            assert(cs@ =~= mono_children(table@, ty as int));
            collect_list(table, ty, &cs, output);
        },
        MonoTyKind::Adt { is_collectable, is_enum, variant_fields, fields } => {
            if *is_collectable {
                output.push(ty);
            }
            let ghost mid = output@;
            if *is_enum {
                proof {
                    assert forall|i: int| 0 <= i < variant_fields@.len() implies (ty as int)
                        < #[trigger] variant_fields@[i] < table@.len() by {
                        assert(mono_children(table@, ty as int)[i] == variant_fields@[i]);
                    }
                    assert forall|i: int| 0 <= i < fields@.len() implies (ty as int)
                        < #[trigger] fields@[i] < table@.len() by {
                        assert(mono_children(table@, ty as int)[variant_fields@.len() + i]
                            == fields@[i]);
                    }
                    lemma_mono_items_list_append(table@, ty as int, variant_fields@, fields@, 0);
                }
                collect_list(table, ty, variant_fields, output);
                collect_list(table, ty, fields, output);
            } else {
                assert(mono_children(table@, ty as int) == fields@);
                collect_list(table, ty, fields, output);
            }
        },
        MonoTyKind::Tuple { fields } => {
            assert(mono_children(table@, ty as int) == fields@);
            collect_list(table, ty, fields, output);
        },
        MonoTyKind::Array { elem } => {
            let p = *elem;
            let mut cs: Vec<usize> = Vec::new();
            cs.push(p);
            assert(cs@ =~= mono_children(table@, ty as int));
            collect_list(table, ty, &cs, output);
        },
        MonoTyKind::Slice { elem } => {
            let p = *elem;
            let mut cs: Vec<usize> = Vec::new();
            cs.push(p);
            assert(cs@ =~= mono_children(table@, ty as int));
            collect_list(table, ty, &cs, output);
        },
        _ => {
            assert(mono_items(table@, ty as int) =~= Seq::<usize>::empty());
        },
    }
    assert(mono_items_list(table@, ty as int, mono_children(table@, ty as int), mono_children(
        table@,
        ty as int,
    ).len() as int) =~= Seq::<usize>::empty());
}

proof fn lemma_mono_items_list_append(
    table: Seq<MonoTyKind>,
    parent: int,
    a: Seq<usize>,
    b: Seq<usize>,
    i: int,
)
    requires
        0 <= i <= a.len(),
    ensures
        mono_items_list(table, parent, a + b, i) == mono_items_list(table, parent, a, i)
            + mono_items_list(table, parent, b, 0),
    decreases a.len() - i,
{
    if i < a.len() {
        lemma_mono_items_list_append(table, parent, a, b, i + 1);
        assert((a + b)[i] == a[i]);
        assert(mono_items_list(table, parent, a + b, i) =~= mono_items_list(table, parent, a, i)
            + mono_items_list(table, parent, b, 0));
    } else {
        lemma_mono_items_list_suffix(table, parent, a, b, 0);
        assert(mono_items_list(table, parent, a, i) =~= Seq::<usize>::empty());
        assert(mono_items_list(table, parent, a + b, i) =~= mono_items_list(table, parent, a, i)
            + mono_items_list(table, parent, b, 0));
    }
}

proof fn lemma_mono_items_list_suffix(
    table: Seq<MonoTyKind>,
    parent: int,
    a: Seq<usize>,
    b: Seq<usize>,
    j: int,
)
    requires
        0 <= j <= b.len(),
    ensures
        mono_items_list(table, parent, a + b, a.len() + j) == mono_items_list(table, parent, b, j),
    decreases b.len() - j,
{
    if j < b.len() {
        lemma_mono_items_list_suffix(table, parent, a, b, j + 1);
        assert((a + b)[a.len() + j] == b[j]);
    }
}

/// Whether a method is a `set_collectable` method: the `Collectable` trait
/// exists (`collectable_trait`), and the method belongs to an impl
/// (`method_impl` is `Some`) of that trait (the impl's trait, if any, is the
/// inner option).
pub fn is_collectable_trait_method(collectable_trait: Option<u64>, method_impl: Option<Option<u64>>) -> (r:
    bool)
    ensures
        r == (collectable_trait is Some && method_impl is Some && method_impl->0 is Some
            && method_impl->0->0 == collectable_trait->0),
{
    match collectable_trait {
        Some(col) => match method_impl {
            Some(trait_of_impl) => match trait_of_impl {
                Some(t) => t == col,
                None => false,
            },
            None => false,
        },
        None => false,
    }
}

// ---------------------------------------------------------------------------
// Calls the generated code makes on a value
// ---------------------------------------------------------------------------
#[derive(Clone, Debug)]
pub enum ValueKind {
    /// Booleans, numbers, characters, function items and pointers, string
    /// slices, and raw pointers, which are never followed because they might
    /// dangle.
    Scalar,
    /// A reference; the value it refers to is visited.
    Ref { target: usize },
    Struct { is_collectable: bool, fields: Vec<usize> },
    /// A union: which field is active is unknown, so none is visited.
    Union { is_collectable: bool },
    /// An enum value; `active_fields` are the fields of its active variant.
    Enum { is_collectable: bool, active_fields: Vec<usize> },
    /// A tuple, array or slice with its elements.
    Aggregate { elems: Vec<usize> },
    /// A trait object whose type implements `Collectable` or not.
    TraitObject { is_collectable: bool },
}

pub open spec fn is_collectable_value(k: ValueKind) -> bool {
    match k {
        ValueKind::Struct { is_collectable, .. } => is_collectable,
        ValueKind::Union { is_collectable } => is_collectable,
        ValueKind::Enum { is_collectable, .. } => is_collectable,
        ValueKind::TraitObject { is_collectable } => is_collectable,
        _ => false,
    }
}

/// The components of value `v` that are visited, in order.
pub open spec fn value_children(values: Seq<ValueKind>, v: int) -> Seq<usize> {
    match values[v] {
        ValueKind::Ref { target } => seq![target],
        ValueKind::Struct { fields, .. } => fields@,
        ValueKind::Enum { active_fields, .. } => active_fields@,
        ValueKind::Aggregate { elems } => elems@,
        _ => Seq::empty(),
    }
}

/// The values on which `set_collectable` is called when value `v` is made
/// collectable, in call order: `v` itself if its type is collectable, then
/// those reached from its visited components in order.
pub open spec fn value_calls(values: Seq<ValueKind>, v: int) -> Seq<usize>
    decreases values.len() - v, 1int, 0int,
{
    if !(0 <= v < values.len()) {
        Seq::empty()
    } else {
        (if is_collectable_value(values[v]) {
            seq![v as usize]
        } else {
            Seq::empty()
        }) + value_calls_list(values, v, value_children(values, v), 0)
    }
}

pub open spec fn value_calls_list(values: Seq<ValueKind>, parent: int, cs: Seq<usize>, i: int) -> Seq<
    usize,
>
    decreases values.len() - parent, 0int, cs.len() - i,
{
    if !(0 <= i < cs.len()) {
        Seq::empty()
    } else if parent < cs[i] < values.len() {
        value_calls(values, cs[i] as int) + value_calls_list(values, parent, cs, i + 1)
    } else {
        value_calls_list(values, parent, cs, i + 1)
    }
}

/// Whether components come after the values they belong to.
pub open spec fn value_table_wf(values: Seq<ValueKind>) -> bool {
    forall|v: int, i: int|
        0 <= v < values.len() && 0 <= i < value_children(values, v).len() ==> v
            < #[trigger] value_children(values, v)[i] < values.len()
}

fn calls_for_list(values: &Vec<ValueKind>, parent: usize, cs: &Vec<usize>, calls: &mut Vec<usize>)
    requires
        value_table_wf(values@),
        parent < values@.len(),
        forall|i: int| 0 <= i < cs@.len() ==> parent < #[trigger] cs@[i] < values@.len(),
    ensures
        final(calls)@ == old(calls)@ + value_calls_list(values@, parent as int, cs@, 0),
    decreases values@.len() - parent, 0int,
{
    let ghost base = calls@;
    let mut i: usize = 0;
    while i < cs.len()
        invariant
            value_table_wf(values@),
            parent < values@.len(),
            forall|k: int| 0 <= k < cs@.len() ==> parent < #[trigger] cs@[k] < values@.len(),
            i <= cs@.len(),
            base + value_calls_list(values@, parent as int, cs@, 0) == calls@ + value_calls_list(
                values@,
                parent as int,
                cs@,
                i as int,
            ),
        decreases cs@.len() - i,
    {
        let c = cs[i];
        let ghost before = calls@;
        collectable_calls_for_value(values, c, calls);
        assert(before + value_calls_list(values@, parent as int, cs@, i as int) =~= calls@
            + value_calls_list(values@, parent as int, cs@, i + 1));
        i = i + 1;
    }
    assert(value_calls_list(values@, parent as int, cs@, i as int) =~= Seq::<usize>::empty());
    assert(calls@ =~= base + value_calls_list(values@, parent as int, cs@, 0));
}

/// Calls for the active variant of an enum value: its fields in order.
fn collectable_calls_for_enum(
    values: &Vec<ValueKind>,
    v: usize,
    active_fields: &Vec<usize>,
    calls: &mut Vec<usize>,
)
    requires
        value_table_wf(values@),
        v < values@.len(),
        forall|i: int| 0 <= i < active_fields@.len() ==> v < #[trigger] active_fields@[i] < values@.len(),
    ensures
        final(calls)@ == old(calls)@ + value_calls_list(values@, v as int, active_fields@, 0),
    decreases values@.len() - v, 1int,
{
    calls_for_list(values, v, active_fields, calls);
}

/// Appends to `calls` the values on which `set_collectable` is called when
/// value `v` is made collectable, in call order.
pub fn collectable_calls_for_value(values: &Vec<ValueKind>, v: usize, calls: &mut Vec<usize>)
    requires
        value_table_wf(values@),
        v < values@.len(),
    ensures
        final(calls)@ == old(calls)@ + value_calls(values@, v as int),
    decreases values@.len() - v, 2int,
{
    proof {
        assert forall|i: int| 0 <= i < value_children(values@, v as int).len() implies (v as int)
            < #[trigger] value_children(values@, v as int)[i] < values@.len() by {}
    }
    match &values[v] {
        ValueKind::Scalar => {},
        ValueKind::Ref { target } => {
            let mut cs: Vec<usize> = Vec::new();
            cs.push(*target);
            assert(cs@ =~= value_children(values@, v as int));
            calls_for_list(values, v, &cs, calls);
        },
        ValueKind::Struct { is_collectable, fields } => {
            if *is_collectable {
                calls.push(v);
            }
            assert(fields@ == value_children(values@, v as int));
            calls_for_list(values, v, fields, calls);
        },
        ValueKind::Union { is_collectable } => {
            if *is_collectable {
                calls.push(v);
            }
        },
        ValueKind::Enum { is_collectable, active_fields } => {
            if *is_collectable {
                calls.push(v);
            }
            assert(active_fields@ == value_children(values@, v as int));
            collectable_calls_for_enum(values, v, active_fields, calls);
        },
        ValueKind::Aggregate { elems } => {
            assert(elems@ == value_children(values@, v as int));
            calls_for_list(values, v, elems, calls);
        },
        ValueKind::TraitObject { is_collectable } => {
            if *is_collectable {
                calls.push(v);
            }
        },
    }
    assert(value_calls_list(values@, v as int, value_children(values@, v as int), value_children(
        values@,
        v as int,
    ).len() as int) =~= Seq::<usize>::empty());
    assert(calls@ =~= old(calls)@ + value_calls(values@, v as int));
}

proof fn lemma_list_contains(
    table: Seq<MonoTyKind>,
    parent: int,
    cs: Seq<usize>,
    k: int,
    i: int,
    x: usize,
)
    requires
        0 <= k <= i < cs.len(),
        parent < cs[i] < table.len(),
        mono_items(table, cs[i] as int).contains(x),
    ensures
        mono_items_list(table, parent, cs, k).contains(x),
    decreases i - k,
{
    if k == i {
        let a = mono_items(table, cs[i] as int);
        let idx = choose|j: int| 0 <= j < a.len() && a[j] == x;
        assert((a + mono_items_list(table, parent, cs, i + 1))[idx] == x);
    } else {
        lemma_list_contains(table, parent, cs, k + 1, i, x);
        let rest = mono_items_list(table, parent, cs, k + 1);
        let idx = choose|j: int| 0 <= j < rest.len() && rest[j] == x;
        if parent < cs[k] < table.len() {
            let a = mono_items(table, cs[k] as int);
            assert((a + rest)[a.len() + idx] == x);
        }
    }
}

/// Marking a value of an enum type collectable may reach any of its
/// variants, so the collector adds every `set_collectable` method reachable
/// through the fields of any variant, whichever variant a program creates.
pub proof fn lemma_all_variants_collected(table: Seq<MonoTyKind>, t: int, i: int, x: usize)
    requires
        mono_table_wf(table),
        0 <= t < table.len(),
        table[t] matches MonoTyKind::Adt { is_enum, variant_fields, .. } && is_enum && 0 <= i
            < variant_fields@.len() && mono_items(table, variant_fields@[i] as int).contains(x),
    ensures
        mono_items(table, t).contains(x),
{
    let cs = mono_children(table, t);
    match table[t] {
        MonoTyKind::Adt { variant_fields, .. } => {
            assert(cs[i] == variant_fields@[i]);
            assert(t < cs[i] < table.len());
            lemma_list_contains(table, t, cs, 0, i, x);
            let own = if table[t] matches MonoTyKind::Adt { is_collectable, .. } && is_collectable {
                seq![t as usize]
            } else {
                Seq::empty()
            };
            let rest = mono_items_list(table, t, cs, 0);
            let idx = choose|j: int| 0 <= j < rest.len() && rest[j] == x;
            assert(mono_items(table, t) == own + rest);
            assert((own + rest)[own.len() + idx] == x);
        },
        _ => {},
    }
}

/// `set_collectable` is only ever called on values whose type implements
/// `Collectable`.
pub proof fn lemma_calls_only_on_collectable(values: Seq<ValueKind>, v: int, k: int)
    requires
        0 <= k < value_calls(values, v).len(),
        values.len() <= usize::MAX,
    ensures
        ({
            let c = value_calls(values, v)[k] as int;
            0 <= c < values.len() && is_collectable_value(values[c])
        }),
    decreases values.len() - v, 1int, 0int,
{
    if 0 <= v < values.len() {
        let own = if is_collectable_value(values[v]) {
            seq![v as usize]
        } else {
            Seq::<usize>::empty()
        };
        let rest = value_calls_list(values, v, value_children(values, v), 0);
        assert(value_calls(values, v) == own + rest);
        if k >= own.len() {
            lemma_list_calls_only_on_collectable(values, v, value_children(values, v), 0, k - own.len());
        }
    }
}

proof fn lemma_list_calls_only_on_collectable(
    values: Seq<ValueKind>,
    parent: int,
    cs: Seq<usize>,
    i: int,
    k: int,
)
    requires
        0 <= k < value_calls_list(values, parent, cs, i).len(),
        values.len() <= usize::MAX,
    ensures
        ({
            let c = value_calls_list(values, parent, cs, i)[k] as int;
            0 <= c < values.len() && is_collectable_value(values[c])
        }),
    decreases values.len() - parent, 0int, cs.len() - i,
{
    if 0 <= i < cs.len() {
        if parent < cs[i] < values.len() {
            let a = value_calls(values, cs[i] as int);
            let rest = value_calls_list(values, parent, cs, i + 1);
            if k < a.len() {
                lemma_calls_only_on_collectable(values, cs[i] as int, k);
            } else {
                lemma_list_calls_only_on_collectable(values, parent, cs, i + 1, k - a.len());
            }
        } else {
            lemma_list_calls_only_on_collectable(values, parent, cs, i + 1, k);
        }
    }
}

proof fn lemma_value_list_reaches(
    values: Seq<ValueKind>,
    parent: int,
    cs: Seq<usize>,
    k: int,
    i: int,
    x: usize,
)
    requires
        0 <= k <= i < cs.len(),
        parent < cs[i] < values.len(),
        value_calls(values, cs[i] as int).contains(x),
    ensures
        value_calls_list(values, parent, cs, k).contains(x),
    decreases i - k,
{
    if k == i {
        let a = value_calls(values, cs[i] as int);
        let idx = choose|j: int| 0 <= j < a.len() && a[j] == x;
        assert((a + value_calls_list(values, parent, cs, i + 1))[idx] == x);
    } else {
        lemma_value_list_reaches(values, parent, cs, k + 1, i, x);
        let rest = value_calls_list(values, parent, cs, k + 1);
        let idx = choose|j: int| 0 <= j < rest.len() && rest[j] == x;
        if parent < cs[k] < values.len() {
            let a = value_calls(values, cs[k] as int);
            assert((a + rest)[a.len() + idx] == x);
        }
    }
}

/// Making a value collectable reaches through its components, whatever its
/// own type implements: every call made for a field of a struct, a field of
/// the active variant of an enum, an element of a tuple, array or slice, or
/// the value a reference points to, is also made for the value itself. And
/// when the value's own type implements `Collectable`, its own
/// `set_collectable` comes first.
pub proof fn lemma_components_reached(values: Seq<ValueKind>, v: int, i: int, x: usize)
    requires
        0 <= v < values.len(),
        match values[v] {
            ValueKind::Struct { fields, .. } => 0 <= i < fields@.len() && v < fields@[i]
                < values.len() && value_calls(values, fields@[i] as int).contains(x),
            ValueKind::Enum { active_fields, .. } => 0 <= i < active_fields@.len() && v
                < active_fields@[i] < values.len() && value_calls(
                values,
                active_fields@[i] as int,
            ).contains(x),
            ValueKind::Aggregate { elems } => 0 <= i < elems@.len() && v < elems@[i] < values.len()
                && value_calls(values, elems@[i] as int).contains(x),
            ValueKind::Ref { target } => i == 0 && v < target < values.len() && value_calls(
                values,
                target as int,
            ).contains(x),
            _ => false,
        },
    ensures
        value_calls(values, v).contains(x),
{
    let cs = value_children(values, v);
    match values[v] {
        ValueKind::Struct { fields, .. } => {
            assert(cs == fields@);
        },
        ValueKind::Enum { active_fields, .. } => {
            assert(cs == active_fields@);
        },
        ValueKind::Aggregate { elems } => {
            assert(cs == elems@);
        },
        ValueKind::Ref { target } => {
            assert(cs[0] == target);
        },
        _ => {},
    }
    lemma_value_list_reaches(values, v, cs, 0, i, x);
    let own = if is_collectable_value(values[v]) {
        seq![v as usize]
    } else {
        Seq::<usize>::empty()
    };
    let rest = value_calls_list(values, v, cs, 0);
    let idx = choose|j: int| 0 <= j < rest.len() && rest[j] == x;
    assert(value_calls(values, v) == own + rest);
    assert((own + rest)[own.len() + idx] == x);
}

/// A struct, union, enum or trait object whose type implements `Collectable`
/// gets its own `set_collectable` call first, before any call for its
/// components; a value of any other kind gets none of its own.
pub proof fn lemma_own_call_first(values: Seq<ValueKind>, v: int)
    requires
        0 <= v < values.len(),
        values.len() <= usize::MAX,
    ensures
        (match values[v] {
            ValueKind::Struct { is_collectable, .. } => is_collectable,
            ValueKind::Union { is_collectable } => is_collectable,
            ValueKind::Enum { is_collectable, .. } => is_collectable,
            ValueKind::TraitObject { is_collectable } => is_collectable,
            _ => false,
        }) ==> value_calls(values, v).len() > 0 && value_calls(values, v)[0] == v,
{
    if is_collectable_value(values[v]) {
        let own = seq![v as usize];
        let rest = value_calls_list(values, v, value_children(values, v), 0);
        assert(value_calls(values, v) == own + rest);
        assert((own + rest)[0] == v as usize);
    }
}

} // verus!
