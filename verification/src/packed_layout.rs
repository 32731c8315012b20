//! Checks that a packed struct keeps every field the collector must trace
//! (references, raw pointers and word-sized integers) at a word-aligned
//! offset, so that a conservative scan of memory still finds them.
//!
//! Types are given as a table: each entry describes one type, and the
//! entries that make up a compound type come after it in the table.

use vstd::prelude::*;

verus! {

/// Alignment of a machine word in bytes; fields the collector traces must
/// start at a multiple of it.
pub const MIN_ALIGN: usize = 8;

/// Width in bits of a machine word.
pub const WORD_BITS: u64 = 64;

/// The shape of a type, as far as the layout check reads it.
#[derive(Clone, Debug)]
pub enum TyKind {
    /// A reference.
    Ref,
    /// A raw pointer.
    RawPtr,
    /// An unsigned integer; `bit_width` is `None` for the pointer-sized one.
    Uint { bit_width: Option<u64> },
    /// A signed integer; `bit_width` is `None` for the pointer-sized one.
    Int { bit_width: Option<u64> },
    /// A tuple with the given component types.
    Tuple { fields: Vec<usize> },
    /// An array of `len` elements of type `elem`.
    Array { elem: usize, len: u64 },
    /// A struct, enum or union with the given field types.
    Adt { fields: Vec<usize> },
    /// Any other type.
    Other,
}

/// One entry of the type table: its shape and its size in bytes, where the
/// size is known.
#[derive(Clone, Debug)]
pub struct TyNode {
    pub kind: TyKind,
    pub size: Option<usize>,
}

/// Why a packed struct was refused, with the type at fault.
#[derive(Clone, Copy, Debug, PartialEq, Eq, Structural)]
pub enum AlignError {
    MisalignedPointer(usize),
    MisalignedUInt(usize),
    MisalignedInt(usize),
    TySizeUnavailable(usize),
}

impl AlignError {
    pub open spec fn spec_ty(self) -> usize {
        match self {
            AlignError::MisalignedPointer(t) => t,
            AlignError::MisalignedUInt(t) => t,
            AlignError::MisalignedInt(t) => t,
            AlignError::TySizeUnavailable(t) => t,
        }
    }

    /// The type at fault.
    pub fn ty(&self) -> (t: usize)
        ensures
            t == self.spec_ty(),
    {
        match self {
            AlignError::MisalignedPointer(t) => *t,
            AlignError::MisalignedUInt(t) => *t,
            AlignError::MisalignedInt(t) => *t,
            AlignError::TySizeUnavailable(t) => *t,
        }
    }
}

/// Outcome of walking a type from a given offset: the offset after it, a
/// refusal together with the offset reached when it was found, or an offset
/// computation that leaves the range of `usize` (on which the walk would
/// panic).
pub enum Walk {
    Done(int),
    Fail(AlignError, int),
    Overflow,
}

/// Whether an integer of this width must sit at a word-aligned offset.
pub open spec fn is_word_width(bit_width: Option<u64>) -> bool {
    bit_width is None || bit_width == Some(WORD_BITS)
}

/// Advances `offset` past type `t` by its size.
pub open spec fn add_size(table: Seq<TyNode>, t: int, offset: int) -> Walk {
    match table[t].size {
        None => Walk::Fail(AlignError::TySizeUnavailable(t as usize), offset),
        Some(s) => if offset + s > usize::MAX {
            Walk::Overflow
        } else {
            Walk::Done(offset + s)
        },
    }
}

/// Walks type `t` starting at byte `offset`.
pub open spec fn walk(table: Seq<TyNode>, t: int, offset: int) -> Walk
    decreases table.len() - t, 1int, 0int,
{
    if !(0 <= t < table.len()) {
        Walk::Overflow
    } else {
        match table[t].kind {
            TyKind::Ref | TyKind::RawPtr => if offset % (MIN_ALIGN as int) != 0 {
                Walk::Fail(AlignError::MisalignedPointer(t as usize), offset)
            } else {
                add_size(table, t, offset)
            },
            TyKind::Uint { bit_width } => if is_word_width(bit_width) && offset % (
            MIN_ALIGN as int) != 0 {
                Walk::Fail(AlignError::MisalignedUInt(t as usize), offset)
            } else {
                add_size(table, t, offset)
            },
            TyKind::Int { bit_width } => if is_word_width(bit_width) && offset % (
            MIN_ALIGN as int) != 0 {
                Walk::Fail(AlignError::MisalignedInt(t as usize), offset)
            } else {
                add_size(table, t, offset)
            },
            TyKind::Tuple { fields } => walk_fields(table, t, fields@, 0, offset),
            TyKind::Adt { fields } => walk_fields(table, t, fields@, 0, offset),
            TyKind::Array { elem, len } => if !(t < elem < table.len()) {
                Walk::Overflow
            } else {
                match walk(table, elem as int, offset) {
                    Walk::Done(o) => match table[elem as int].size {
                        None => Walk::Fail(AlignError::TySizeUnavailable(elem), o),
                        Some(s) => if len > usize::MAX || offset + s * len > usize::MAX {
                            Walk::Overflow
                        } else {
                            Walk::Done(offset + s * len)
                        },
                    },
                    other => other,
                }
            },
            TyKind::Other => add_size(table, t, offset),
        }
    }
}

/// Walks the fields `fields[i..]` of type `parent` in order, starting at
/// byte `offset`, stopping at the first refusal.
pub open spec fn walk_fields(
    table: Seq<TyNode>,
    parent: int,
    fields: Seq<usize>,
    i: int,
    offset: int,
) -> Walk
    decreases table.len() - parent, 0int, fields.len() - i,
{
    if !(0 <= i <= fields.len()) {
        Walk::Overflow
    } else if i == fields.len() {
        Walk::Done(offset)
    } else if !(parent < fields[i] < table.len()) {
        Walk::Overflow
    } else {
        match walk(table, fields[i] as int, offset) {
            Walk::Done(o) => walk_fields(table, parent, fields, i + 1, o),
            other => other,
        }
    }
}

fn type_size(table: &Vec<TyNode>, t: usize) -> (r: Result<usize, AlignError>)
    requires
        t < table@.len(),
    ensures
        r == (match table@[t as int].size {
            Some(s) => Ok::<usize, AlignError>(s),
            None => Err(AlignError::TySizeUnavailable(t)),
        }),
{
    match table[t].size {
        Some(s) => Ok(s),
        None => Err(AlignError::TySizeUnavailable(t)),
    }
}

fn advance_by_size(offset: &mut usize, table: &Vec<TyNode>, t: usize) -> (r: Result<(), AlignError>)
    requires
        t < table@.len(),
        !(add_size(table@, t as int, *old(offset) as int) is Overflow),
    ensures
        match add_size(table@, t as int, *old(offset) as int) {
            Walk::Done(o) => r is Ok && *final(offset) == o,
            Walk::Fail(e, o) => r == Err::<(), AlignError>(e) && *final(offset) == o,
            Walk::Overflow => false,
        },
{
    let s = type_size(table, t)?;
    *offset = *offset + s;
    Ok(())
}

/// Checks type `ty`, whose first byte lies at `*offset` within a packed
/// struct, and advances `*offset` past it. Refuses a reference, a raw
/// pointer, or a word-sized integer at an offset that is not word-aligned,
/// and any type whose size is unknown.
///
/// An array is checked through its first element, whose layout every other
/// element repeats; the offset then moves past all of its elements.
pub fn has_correct_alignment(offset: &mut usize, table: &Vec<TyNode>, ty: usize) -> (r: Result<
    (),
    AlignError,
>)
    requires
        !(walk(table@, ty as int, *old(offset) as int) is Overflow),
    ensures
        match walk(table@, ty as int, *old(offset) as int) {
            Walk::Done(o) => r is Ok && *final(offset) == o,
            Walk::Fail(e, o) => r == Err::<(), AlignError>(e) && *final(offset) == o,
            Walk::Overflow => false,
        },
    decreases table@.len() - ty,
{
    match &table[ty].kind {
        TyKind::Ref | TyKind::RawPtr => {
            if *offset % MIN_ALIGN != 0 {
                return Err(AlignError::MisalignedPointer(ty));
            }
            advance_by_size(offset, table, ty)
        },
        TyKind::Uint { bit_width } => {
            let word = match bit_width {
                None => true,
                Some(w) => *w == WORD_BITS,
            };
            if word && *offset % MIN_ALIGN != 0 {
                return Err(AlignError::MisalignedUInt(ty));
            }
            advance_by_size(offset, table, ty)
        },
        TyKind::Int { bit_width } => {
            let word = match bit_width {
                None => true,
                Some(w) => *w == WORD_BITS,
            };
            if word && *offset % MIN_ALIGN != 0 {
                return Err(AlignError::MisalignedInt(ty));
            }
            advance_by_size(offset, table, ty)
        },
        TyKind::Tuple { fields } => check_fields(offset, table, ty, fields),
        TyKind::Adt { fields } => check_fields(offset, table, ty, fields),
        TyKind::Array { elem, len } => {
            let elem = *elem;
            let len = *len;
            let start = *offset;
            match has_correct_alignment(offset, table, elem) {
                Ok(()) => {},
                Err(e) => {
                    return Err(e);
                },
            }
            let s = match type_size(table, elem) {
                Ok(s) => s,
                Err(e) => {
                    return Err(e);
                },
            };
            let count = len as usize;
            assert(start + s * count <= usize::MAX);
            *offset = start + s * count;
            Ok(())
        },
        TyKind::Other => advance_by_size(offset, table, ty),
    }
}

fn check_fields(offset: &mut usize, table: &Vec<TyNode>, parent: usize, fields: &Vec<usize>) -> (r:
    Result<(), AlignError>)
    requires
        parent < table@.len(),
        !(walk_fields(table@, parent as int, fields@, 0, *old(offset) as int) is Overflow),
    ensures
        match walk_fields(table@, parent as int, fields@, 0, *old(offset) as int) {
            Walk::Done(o) => r is Ok && *final(offset) == o,
            Walk::Fail(e, o) => r == Err::<(), AlignError>(e) && *final(offset) == o,
            Walk::Overflow => false,
        },
    decreases table@.len() - parent, 0int,
{
    let ghost start = *offset as int;
    let mut i: usize = 0;
    while i < fields.len()
        invariant
            parent < table@.len(),
            i <= fields@.len(),
            start == *old(offset) as int,
            walk_fields(table@, parent as int, fields@, 0, start) == walk_fields(
                table@,
                parent as int,
                fields@,
                i as int,
                *offset as int,
            ),
            !(walk_fields(table@, parent as int, fields@, i as int, *offset as int) is Overflow),
        decreases fields@.len() - i,
    {
        let f = fields[i];
        let ghost before = *offset as int;
        assert(walk_fields(table@, parent as int, fields@, i as int, before) == match walk(
            table@,
            f as int,
            before,
        ) {
            Walk::Done(o) => walk_fields(table@, parent as int, fields@, i + 1, o),
            other => other,
        });
        match has_correct_alignment(offset, table, f) {
            Ok(()) => {},
            Err(e) => {
                return Err(e);
            },
        }
        i = i + 1;
    }
    Ok(())
}

/// An item of the program, as far as the lint reads it.
#[derive(Clone, Copy, Debug, PartialEq, Eq, Structural)]
pub enum Item {
    /// A struct of type `ty`, with or without a packed representation.
    Struct { packed: bool, ty: usize },
    Other,
}

/// The refusal the lint reports for an item, if any: only packed structs are
/// checked, from offset zero.
pub open spec fn item_error(table: Seq<TyNode>, item: Item) -> Option<AlignError> {
    match item {
        Item::Struct { packed, ty } => if packed {
            match walk(table, ty as int, 0) {
                Walk::Fail(e, _) => Some(e),
                _ => None,
            }
        } else {
            None
        },
        Item::Other => None,
    }
}

/// Checks an item: a packed struct must keep every traced field at a
/// word-aligned offset. Returns the refusal to report, if any.
pub fn check_item(table: &Vec<TyNode>, item: Item) -> (r: Option<AlignError>)
    requires
        item matches Item::Struct { packed, ty } ==> (packed ==> !(walk(table@, ty as int, 0) is Overflow)),
    ensures
        r == item_error(table@, item),
{
    match item {
        Item::Struct { packed, ty } => {
            if !packed {
                return None;
            }
            let mut offset: usize = 0;
            match has_correct_alignment(&mut offset, table, ty) {
                Ok(()) => None,
                Err(e) => Some(e),
            }
        },
        Item::Other => None,
    }
}

/// What a refusal claims: a reference or raw pointer, or a word-sized
/// integer, that starts at an offset that is not word-aligned; or a type
/// whose size is unknown.
pub open spec fn refusal_explained(table: Seq<TyNode>, e: AlignError, offset: int) -> bool {
    match e {
        AlignError::MisalignedPointer(t) => 0 <= t < table.len() && (table[t as int].kind is Ref
            || table[t as int].kind is RawPtr) && offset % (MIN_ALIGN as int) != 0,
        AlignError::MisalignedUInt(t) => 0 <= t < table.len() && (table[t as int].kind matches TyKind::Uint {
            bit_width,
        } && is_word_width(bit_width)) && offset % (MIN_ALIGN as int) != 0,
        AlignError::MisalignedInt(t) => 0 <= t < table.len() && (table[t as int].kind matches TyKind::Int {
            bit_width,
        } && is_word_width(bit_width)) && offset % (MIN_ALIGN as int) != 0,
        AlignError::TySizeUnavailable(t) => 0 <= t < table.len() && table[t as int].size is None,
    }
}

/// Every refusal is justified: the type it names is a traced field at a
/// misaligned offset, or a type whose size is unknown.
pub proof fn lemma_refusal_explained(table: Seq<TyNode>, t: int, offset: int)
    requires
        table.len() <= usize::MAX,
    ensures
        walk(table, t, offset) matches Walk::Fail(e, o) ==> refusal_explained(table, e, o),
    decreases table.len() - t, 1int, 0int,
{
    if 0 <= t < table.len() {
        match table[t].kind {
            TyKind::Tuple { fields } => lemma_fields_refusal_explained(table, t, fields@, 0, offset),
            TyKind::Adt { fields } => lemma_fields_refusal_explained(table, t, fields@, 0, offset),
            TyKind::Array { elem, len } => {
                if t < elem < table.len() {
                    lemma_refusal_explained(table, elem as int, offset);
                }
            },
            _ => {},
        }
    }
}

proof fn lemma_fields_refusal_explained(
    table: Seq<TyNode>,
    parent: int,
    fields: Seq<usize>,
    i: int,
    offset: int,
)
    requires
        table.len() <= usize::MAX,
    ensures
        walk_fields(table, parent, fields, i, offset) matches Walk::Fail(e, o) ==> refusal_explained(
            table,
            e,
            o,
        ),
    decreases table.len() - parent, 0int, fields.len() - i,
{
    if 0 <= i < fields.len() && parent < fields[i] < table.len() {
        lemma_refusal_explained(table, fields[i] as int, offset);
        match walk(table, fields[i] as int, offset) {
            Walk::Done(o) => lemma_fields_refusal_explained(table, parent, fields, i + 1, o),
            _ => {},
        }
    }
}

/// A machine word is eight bytes: the offsets the lint accepts for traced
/// fields are the multiples of eight.
pub proof fn lemma_word_alignment()
    ensures
        MIN_ALIGN == 8,
        WORD_BITS == 64,
{
}

/// A reference or raw pointer is refused exactly when it starts at an offset
/// that is not a multiple of eight bytes; otherwise the walk moves past it by
/// its size.
pub proof fn lemma_pointer_alignment(table: Seq<TyNode>, t: int, offset: int)
    requires
        0 <= t < table.len(),
        table[t].kind is Ref || table[t].kind is RawPtr,
    ensures
        offset % 8 != 0 ==> walk(table, t, offset) == Walk::Fail(
            AlignError::MisalignedPointer(t as usize),
            offset,
        ),
        offset % 8 == 0 ==> walk(table, t, offset) == add_size(table, t, offset),
{
}

/// A word-sized integer, signed or unsigned, is refused exactly when it
/// starts at an offset that is not a multiple of eight bytes; an integer of
/// another width is never refused for its offset.
pub proof fn lemma_word_integer_alignment(table: Seq<TyNode>, t: int, offset: int)
    requires
        0 <= t < table.len(),
    ensures
        table[t].kind matches TyKind::Uint { bit_width } ==> (if (bit_width is None || bit_width
            == Some(64u64)) && offset % 8 != 0 {
            walk(table, t, offset) == Walk::Fail(AlignError::MisalignedUInt(t as usize), offset)
        } else {
            walk(table, t, offset) == add_size(table, t, offset)
        }),
        table[t].kind matches TyKind::Int { bit_width } ==> (if (bit_width is None || bit_width
            == Some(64u64)) && offset % 8 != 0 {
            walk(table, t, offset) == Walk::Fail(AlignError::MisalignedInt(t as usize), offset)
        } else {
            walk(table, t, offset) == add_size(table, t, offset)
        }),
{
}

/// Within a struct or tuple, a field that is a reference or raw pointer and
/// is reached at an offset that is not a multiple of eight bytes stops the
/// walk with a refusal naming that field's type at that offset.
pub proof fn lemma_misaligned_pointer_field_refused(
    table: Seq<TyNode>,
    parent: int,
    fields: Seq<usize>,
    i: int,
    offset: int,
)
    requires
        0 <= i < fields.len(),
        parent < fields[i] < table.len(),
        table[fields[i] as int].kind is Ref || table[fields[i] as int].kind is RawPtr,
        offset % 8 != 0,
    ensures
        walk_fields(table, parent, fields, i, offset) == Walk::Fail(
            AlignError::MisalignedPointer(fields[i]),
            offset,
        ),
{
    lemma_pointer_alignment(table, fields[i] as int, offset);
}

/// An array is checked through its first element: a refusal of the element
/// at the array's offset is the array's refusal, and an accepted element of
/// known size `s` makes the array occupy `s * len` bytes from its offset.
pub proof fn lemma_array_walk(table: Seq<TyNode>, t: int, elem: usize, len: u64, offset: int)
    requires
        0 <= t < table.len(),
        table[t].kind == (TyKind::Array { elem, len }),
        t < elem < table.len(),
    ensures
        walk(table, elem as int, offset) is Fail ==> walk(table, t, offset) == walk(
            table,
            elem as int,
            offset,
        ),
        walk(table, elem as int, offset) is Done ==> match table[elem as int].size {
            Some(s) => len <= usize::MAX && offset + s * len <= usize::MAX ==> walk(table, t, offset) == Walk::Done(
                offset + s * len,
            ),
            None => walk(table, t, offset) is Fail,
        },
{
}

} // verus!
