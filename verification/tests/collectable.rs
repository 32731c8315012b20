use alloy_gc::collectable::{
    collect_mono, collectable_calls_for_value, is_collectable_trait_method, MonoTyKind, ValueKind,
};

fn adt(is_collectable: bool, fields: Vec<usize>) -> MonoTyKind {
    MonoTyKind::Adt { is_collectable, is_enum: false, variant_fields: vec![], fields }
}
fn mono(table: &Vec<MonoTyKind>, ty: usize) -> Vec<usize> {
    let mut out = Vec::new();
    collect_mono(table, ty, &mut out);
    out
}

#[test]
fn mono_items_of_structs() {
    // S(usize): S itself.
    let table = vec![adt(true, vec![1]), MonoTyKind::Scalar];
    assert_eq!(mono(&table, 0), vec![0]);
    // T(U(usize)): only U.
    let table = vec![adt(false, vec![1]), adt(true, vec![2]), MonoTyKind::Scalar];
    assert_eq!(mono(&table, 0), vec![1]);
    // V(*const X): V, and X through the raw pointer.
    let table = vec![adt(true, vec![1]), MonoTyKind::RawPtr { pointee: 2 }, adt(true, vec![3]), MonoTyKind::Scalar];
    assert_eq!(mono(&table, 0), vec![0, 2]);
}

#[test]
fn mono_items_of_enums_cover_every_variant() {
    // enum E { EA(EA), EB(EB), EC(EC) }: every variant's type, from both the
    // variants' and the declared fields.
    let table = vec![
        MonoTyKind::Adt {
            is_collectable: false,
            is_enum: true,
            variant_fields: vec![1, 2, 3],
            fields: vec![1, 2, 3],
        },
        adt(true, vec![]),
        adt(true, vec![]),
        adt(true, vec![]),
    ];
    assert_eq!(mono(&table, 0), vec![1, 2, 3, 1, 2, 3]);
}

#[test]
fn mono_items_of_tuples_arrays_and_slices() {
    let table = vec![MonoTyKind::Tuple { fields: vec![1, 2] }, adt(true, vec![]), adt(true, vec![])];
    assert_eq!(mono(&table, 0), vec![1, 2]);
    let table = vec![MonoTyKind::Array { elem: 1 }, adt(true, vec![])];
    assert_eq!(mono(&table, 0), vec![1]);
    // &[SliceElem; 1]
    let table = vec![MonoTyKind::Ref { referent: 1 }, MonoTyKind::Array { elem: 2 }, adt(true, vec![])];
    assert_eq!(mono(&table, 0), vec![2]);
    let table = vec![MonoTyKind::Slice { elem: 1 }, adt(true, vec![])];
    assert_eq!(mono(&table, 0), vec![1]);
    let table = vec![MonoTyKind::Other, adt(true, vec![])];
    assert_eq!(mono(&table, 0), Vec::<usize>::new());
}

#[test]
fn set_collectable_methods_are_recognised() {
    assert!(is_collectable_trait_method(Some(7), Some(Some(7))));
    assert!(!is_collectable_trait_method(Some(7), Some(Some(8))));
    assert!(!is_collectable_trait_method(Some(7), Some(None)));
    assert!(!is_collectable_trait_method(Some(7), None));
    assert!(!is_collectable_trait_method(None, Some(Some(7))));
}

fn calls(values: &Vec<ValueKind>, v: usize) -> Vec<usize> {
    let mut out = Vec::new();
    collectable_calls_for_value(values, v, &mut out);
    out
}

// A `Box<usize>` value: collectable, its pointer field is not followed.
fn boxed() -> ValueKind {
    ValueKind::Struct { is_collectable: true, fields: vec![] }
}

#[test]
fn test_adt() {
    // A box on its own.
    assert_eq!(calls(&vec![boxed()], 0), vec![0]);
    // S(Box<usize>)
    let v = vec![ValueKind::Struct { is_collectable: false, fields: vec![1] }, boxed()];
    assert_eq!(calls(&v, 0), vec![1]);
    // T(S(Box), Box, usize)
    let v = vec![
        ValueKind::Struct { is_collectable: false, fields: vec![1, 3, 4] },
        ValueKind::Struct { is_collectable: false, fields: vec![2] },
        boxed(),
        boxed(),
        ValueKind::Scalar,
    ];
    assert_eq!(calls(&v, 0), vec![2, 3]);
    // Named { a: Box, b: &Box, c: usize }
    let v = vec![
        ValueKind::Struct { is_collectable: false, fields: vec![1, 2, 4] },
        boxed(),
        ValueKind::Ref { target: 3 },
        boxed(),
        ValueKind::Scalar,
    ];
    assert_eq!(calls(&v, 0), vec![1, 3]);
    // MaybeCollectable::Yes(Box) and ::No(usize)
    let v = vec![ValueKind::Enum { is_collectable: false, active_fields: vec![1] }, boxed()];
    assert_eq!(calls(&v, 0), vec![1]);
    let v = vec![ValueKind::Enum { is_collectable: false, active_fields: vec![1] }, ValueKind::Scalar];
    assert_eq!(calls(&v, 0), Vec::<usize>::new());
    // MaybeCollectableFields::Yes(Box, S(Box)): both boxes.
    let v = vec![
        ValueKind::Enum { is_collectable: false, active_fields: vec![1, 2] },
        boxed(),
        ValueKind::Struct { is_collectable: false, fields: vec![3] },
        boxed(),
    ];
    assert_eq!(calls(&v, 0), vec![1, 3]);
    // MaybeCollectableNested::Yes(MaybeCollectable::Yes(Box)): the inner box.
    let v = vec![
        ValueKind::Enum { is_collectable: false, active_fields: vec![1] },
        ValueKind::Enum { is_collectable: false, active_fields: vec![2] },
        boxed(),
    ];
    assert_eq!(calls(&v, 0), vec![2]);
    // MultiVariant::One(S(Box)): the box inside the active variant's S.
    let v = vec![
        ValueKind::Enum { is_collectable: false, active_fields: vec![1] },
        ValueKind::Struct { is_collectable: false, fields: vec![2] },
        boxed(),
    ];
    assert_eq!(calls(&v, 0), vec![2]);
    // B::V1(ColMe) where both B and ColMe are collectable: two calls.
    let v = vec![
        ValueKind::Enum { is_collectable: true, active_fields: vec![1] },
        ValueKind::Struct { is_collectable: true, fields: vec![2] },
        ValueKind::Scalar,
    ];
    assert_eq!(calls(&v, 0).len(), 2);
    // A tuple, an array, and a slice behind a reference, of two boxes.
    let v = vec![ValueKind::Aggregate { elems: vec![1, 2] }, boxed(), boxed()];
    assert_eq!(calls(&v, 0), vec![1, 2]);
    let v = vec![ValueKind::Ref { target: 1 }, ValueKind::Aggregate { elems: vec![2, 3] }, boxed(), boxed()];
    assert_eq!(calls(&v, 0), vec![2, 3]);
    // A trait object whose type implements the trait.
    let v = vec![ValueKind::Ref { target: 1 }, ValueKind::TraitObject { is_collectable: true }];
    assert_eq!(calls(&v, 0), vec![1]);
    // A union is not looked into.
    let v = vec![ValueKind::Union { is_collectable: false }];
    assert_eq!(calls(&v, 0), Vec::<usize>::new());
}
