use alloy_gc::packed_layout::{check_item, has_correct_alignment, AlignError, Item, TyKind, TyNode};

// Builds a table for a packed struct whose fields are given; the table holds
// the struct at index 0 and then the field types in order, with the extra
// entries given after them.
fn node(kind: TyKind, size: Option<usize>) -> TyNode {
    TyNode { kind, size }
}
fn u16_ty() -> TyNode {
    node(TyKind::Uint { bit_width: Some(16) }, Some(2))
}
fn u32_ty() -> TyNode {
    node(TyKind::Uint { bit_width: Some(32) }, Some(4))
}
fn usize_ty() -> TyNode {
    node(TyKind::Uint { bit_width: None }, Some(8))
}
fn u8_ty() -> TyNode {
    node(TyKind::Uint { bit_width: Some(8) }, Some(1))
}

fn packed(fields: Vec<TyNode>, extra: Vec<TyNode>) -> (Vec<TyNode>, Option<AlignError>) {
    let n = fields.len();
    let ids: Vec<usize> = (1..=n).collect();
    let mut table = vec![node(TyKind::Adt { fields: ids }, None)];
    table.extend(fields);
    table.extend(extra);
    let r = check_item(&table, Item::Struct { packed: true, ty: 0 });
    (table, r)
}

#[test]
fn packed_usize_is_refused() {
    let (_, r) = packed(vec![u16_ty(), usize_ty()], vec![]);
    assert_eq!(r, Some(AlignError::MisalignedUInt(2)));
    assert_eq!(r.unwrap().ty(), 2);
}

#[test]
fn packed_usize_aligned_is_accepted() {
    let (_, r) = packed(vec![u16_ty(), u16_ty(), u32_ty(), usize_ty()], vec![]);
    assert_eq!(r, None);
}

#[test]
fn packed_i64_and_u64_are_refused() {
    let i64_ty = node(TyKind::Int { bit_width: Some(64) }, Some(8));
    let (_, r) = packed(vec![u16_ty(), i64_ty], vec![]);
    assert_eq!(r, Some(AlignError::MisalignedInt(2)));
    let u64_ty = node(TyKind::Uint { bit_width: Some(64) }, Some(8));
    let (_, r) = packed(vec![u16_ty(), u64_ty], vec![]);
    assert_eq!(r, Some(AlignError::MisalignedUInt(2)));
}

#[test]
fn packed_references_and_raw_pointers() {
    let (_, r) = packed(vec![u16_ty(), node(TyKind::Ref, Some(8))], vec![]);
    assert_eq!(r, Some(AlignError::MisalignedPointer(2)));
    let (_, r) = packed(vec![u16_ty(), u16_ty(), u32_ty(), node(TyKind::Ref, Some(8))], vec![]);
    assert_eq!(r, None);
    let (_, r) = packed(vec![u16_ty(), node(TyKind::RawPtr, Some(8))], vec![]);
    assert_eq!(r, Some(AlignError::MisalignedPointer(2)));
    let (_, r) = packed(vec![u16_ty(), u16_ty(), u32_ty(), node(TyKind::RawPtr, Some(8))], vec![]);
    assert_eq!(r, None);
}

#[test]
fn packed_tuple_is_refused() {
    // (usize, u8) at offset 2.
    let tuple = node(TyKind::Tuple { fields: vec![3, 4] }, Some(16));
    let (_, r) = packed(vec![u16_ty(), tuple], vec![usize_ty(), u8_ty()]);
    assert_eq!(r, Some(AlignError::MisalignedUInt(3)));
}

#[test]
fn packed_array_is_refused() {
    // [usize; 3] at offset 2.
    let array = node(TyKind::Array { elem: 3, len: 3 }, Some(24));
    let (_, r) = packed(vec![u16_ty(), array], vec![usize_ty()]);
    assert_eq!(r, Some(AlignError::MisalignedUInt(3)));
}

#[test]
fn packed_array_offset_is_refused() {
    // usize, then [u16; 3], then u64.
    let array = node(TyKind::Array { elem: 4, len: 3 }, Some(6));
    let u64_ty = node(TyKind::Uint { bit_width: Some(64) }, Some(8));
    let (_, r) = packed(vec![usize_ty(), array, u64_ty], vec![u16_ty()]);
    assert_eq!(r, Some(AlignError::MisalignedUInt(3)));
}

#[test]
fn packed_adt_is_refused() {
    // A struct holding a raw pointer, at offset 2.
    let raw = node(TyKind::Adt { fields: vec![3] }, Some(8));
    let (_, r) = packed(vec![u16_ty(), raw], vec![node(TyKind::RawPtr, Some(8))]);
    assert_eq!(r, Some(AlignError::MisalignedPointer(3)));
}

#[test]
fn unknown_size_is_refused() {
    let (_, r) = packed(vec![node(TyKind::Other, None)], vec![]);
    assert_eq!(r, Some(AlignError::TySizeUnavailable(1)));
}

#[test]
fn only_packed_structs_are_checked() {
    let table = vec![
        node(TyKind::Adt { fields: vec![1, 2] }, Some(16)),
        u16_ty(),
        usize_ty(),
    ];
    assert_eq!(check_item(&table, Item::Struct { packed: false, ty: 0 }), None);
    assert_eq!(check_item(&table, Item::Other), None);
    assert_eq!(
        check_item(&table, Item::Struct { packed: true, ty: 0 }),
        Some(AlignError::MisalignedUInt(2))
    );
}

#[test]
fn offset_advances_by_field_sizes() {
    let table = vec![
        node(TyKind::Adt { fields: vec![1, 2, 1] }, None),
        u16_ty(),
        u32_ty(),
    ];
    let mut offset = 0;
    assert_eq!(has_correct_alignment(&mut offset, &table, 0), Ok(()));
    assert_eq!(offset, 8);
    // An array moves the offset past all of its elements.
    let table = vec![node(TyKind::Array { elem: 1, len: 5 }, Some(20)), u32_ty()];
    let mut offset = 100;
    assert_eq!(has_correct_alignment(&mut offset, &table, 0), Ok(()));
    assert_eq!(offset, 120);
    // A refusal leaves the offset where the refused field starts.
    let table = vec![node(TyKind::Adt { fields: vec![1, 2] }, None), u16_ty(), usize_ty()];
    let mut offset = 0;
    assert_eq!(has_correct_alignment(&mut offset, &table, 0), Err(AlignError::MisalignedUInt(2)));
    assert_eq!(offset, 2);
}

#[test]
fn word_aligned_after_array_is_accepted() {
    // usize, then [u16; 4], then u64 at byte 16.
    let array = node(TyKind::Array { elem: 4, len: 4 }, Some(8));
    let u64_ty = node(TyKind::Uint { bit_width: Some(64) }, Some(8));
    let (table, r) = packed(vec![usize_ty(), array, u64_ty], vec![u16_ty()]);
    assert_eq!(r, None);
    let mut offset = 0;
    assert_eq!(has_correct_alignment(&mut offset, &table, 0), Ok(()));
    assert_eq!(offset, 24);
}
