use crate::ast::{Field, Struct, Ty};
use crate::text::{decimal, push_decimal};
use crate::types::le::{i16le, i32le, i64le, u16le, u32le, u64le};
use crate::yule::Wire;
use vstd::prelude::*;

verus! {

/// The alignment every record is padded to.
pub const RECORD_ALIGN: usize = 8;

/// Size and alignment of a field or of a record, in bytes.
#[derive(Debug, Clone, Copy, PartialEq, Eq, Structural)]
pub struct Layout {
    pub size: usize,
    pub align: usize,
}

/// Why a record is refused.
#[derive(Debug, Clone, Copy, PartialEq, Eq, Structural)]
pub enum LayoutError {
    /// The field cannot follow the fields before it without a gap of `pad`
    /// bytes.
    Padding { pad: usize },
    /// The record does not fit the address space.
    Overflow,
}

/// The first offset at or behind `size` that is a multiple of `align`.
pub open spec fn offset_after(size: int, align: int) -> int {
    if size % align == 0 {
        size
    } else {
        size + (align - size % align)
    }
}

/// What the checker answers to a field of the given layout behind `size`
/// bytes of fields: a padding error with the size of the gap where the
/// field cannot start at `size`, an overflow where the record would exceed
/// the largest size of an object, else acceptance.
pub open spec fn field_outcome(size: usize, layout: Layout) -> Result<(), LayoutError> {
    let offset = offset_after(size as int, layout.align as int);
    if offset > size {
        Err(LayoutError::Padding { pad: (offset - size) as usize })
    } else if size + layout.size > isize::MAX {
        Err(LayoutError::Overflow)
    } else {
        Ok(())
    }
}

/// The zero bytes that bring a record of `size` bytes to the record
/// alignment.
pub open spec fn pad_after(size: int) -> int {
    (8 - size % 8) % 8
}

/// The sum of the sizes of the layouts.
pub open spec fn total_size(layouts: Seq<Layout>) -> int
    decreases layouts.len(),
{
    if layouts.len() == 0 {
        0
    } else {
        total_size(layouts.drop_last()) + layouts.last().size
    }
}

/// Whether each layout can follow the ones before it without a gap: the sum
/// of the sizes before it is a multiple of its alignment.
pub open spec fn gapless(layouts: Seq<Layout>) -> bool {
    forall|i: int| 0 <= i < layouts.len() ==> #[trigger] starts_aligned(layouts, i)
}

/// Whether layout `i` starts, behind the layouts before it, at a multiple
/// of its alignment.
pub open spec fn starts_aligned(layouts: Seq<Layout>, i: int) -> bool {
    layouts[i].align > 0 && total_size(layouts.take(i)) % (layouts[i].align as int) == 0
}

impl LayoutError {
    /// The text that describes this error.
    pub open spec fn text(self) -> Seq<char> {
        match self {
            LayoutError::Padding { pad } =>
                "types must have no internal padding required, try reordering your values: pad amount "@
                    + decimal(pad as nat),
            LayoutError::Overflow => "layout does not fit the address space"@,
        }
    }

    /// Renders the error as a sentence.
    pub fn message(&self) -> (s: String)
        ensures
            s@ == self.text(),
    {
        match self {
            LayoutError::Padding { pad } => {
                let mut s =
                    "types must have no internal padding required, try reordering your values: pad amount ".to_string();
                push_decimal(&mut s, *pad);
                s
            },
            LayoutError::Overflow => "layout does not fit the address space".to_string(),
        }
    }
}

/// Lays the fields of a record out one after the other and refuses a field
/// that would need a gap before it.
pub struct LayoutChecker {
    layout: Layout,
    seen: Ghost<Seq<Layout>>,
}

impl LayoutChecker {
    /// The fields accepted so far.
    pub closed spec fn fields(self) -> Seq<Layout> {
        self.seen@
    }

    /// The size of the record so far.
    pub closed spec fn size(self) -> usize {
        self.layout.size
    }

    /// The alignment of the record so far.
    pub closed spec fn align(self) -> usize {
        self.layout.align
    }

    /// The size is the sum of the field sizes, and no field needed a gap.
    pub closed spec fn wf(self) -> bool {
        &&& self.layout.size == total_size(self.seen@)
        &&& self.layout.size <= isize::MAX
        &&& self.layout.align > 0
        &&& gapless(self.seen@)
    }

    /// The size of the record so far.
    pub fn len(&self) -> (n: usize)
        ensures
            n == self.size(),
    {
        self.layout.size
    }

    /// The alignment of the record so far: the largest alignment of a field
    /// taken, and 1 where none was.
    pub fn alignment(&self) -> (n: usize)
        ensures
            n == self.align(),
    {
        self.layout.align
    }

    /// Takes the next field. A field that needs a gap before it is refused
    /// with the size of the gap, and one that makes the record too large
    /// with an overflow; the checker is then unchanged.
    pub fn next_field(&mut self, layout: Layout) -> (r: Result<(), LayoutError>)
        requires
            old(self).wf(),
            layout.align > 0,
        ensures
            final(self).wf(),
            r == field_outcome(old(self).size(), layout),
            r is Ok ==> final(self).fields() == old(self).fields().push(layout),
            r is Ok ==> final(self).size() == old(self).size() + layout.size,
            r is Ok ==> final(self).align() == (if layout.align > old(self).align() {
                layout.align
            } else {
                old(self).align()
            }),
            r is Err ==> *final(self) == *old(self),
    {
        let last = self.layout.size;
        let r = last % layout.align;
        if r != 0 {
            return Err(LayoutError::Padding { pad: layout.align - r });
        }
        if layout.size > (isize::MAX as usize) - last {
            return Err(LayoutError::Overflow);
        }
        let align = if layout.align > self.layout.align {
            layout.align
        } else {
            self.layout.align
        };
        proof {
            let before = self.seen@;
            let after = before.push(layout);
            assert(after.drop_last() =~= before);
            assert(total_size(after) == last + layout.size);
            assert forall|i: int| 0 <= i < after.len() implies #[trigger] starts_aligned(
                after,
                i,
            ) by {
                if i < before.len() {
                    assert(after.take(i) =~= before.take(i));
                    assert(after[i] == before[i]);
                    assert(starts_aligned(before, i));
                } else {
                    assert(after.take(i) =~= before);
                    assert(after[i] == layout);
                    assert(total_size(before) == last);
                }
            }
            assert(gapless(after));
        }
        self.layout = Layout { size: last + layout.size, align };
        self.seen = Ghost(self.seen@.push(layout));
        Ok(())
    }

    /// The number of zero bytes that bring the record to a multiple of
    /// eight bytes.
    pub fn final_pad(&self) -> (pad: usize)
        ensures
            pad == pad_after(self.size() as int),
            pad < 8,
            (self.size() + pad) % 8 == 0,
    {
        let r = self.layout.size % RECORD_ALIGN;
        if r == 0 {
            0
        } else {
            RECORD_ALIGN - r
        }
    }
}

impl Default for LayoutChecker {
    /// A checker for a record without fields.
    fn default() -> (checker: Self)
        ensures
            checker.wf(),
            checker.fields() == Seq::<Layout>::empty(),
            checker.size() == 0,
            checker.align() == 1,
    {
        let checker = LayoutChecker { layout: Layout { size: 0, align: 1 }, seen: Ghost(Seq::empty()) };
        assert(checker.seen@.len() == 0);
        checker
    }
}

/// The size that stands for a type too large for any object. A record with
/// a field of that size is refused whatever else it holds.
pub const OVERSIZE: usize = usize::MAX;

impl Ty {
    /// The alignment of a field of this type: that of a number is its size,
    /// that of an array is that of its elements, and a named or extern type
    /// counts as aligned to eight.
    pub open spec fn spec_align(self) -> nat
        decreases self,
    {
        match self {
            Ty::U64 | Ty::I64 | Ty::F64 => 8,
            Ty::U32 | Ty::I32 | Ty::F32 => 4,
            Ty::U16 | Ty::I16 => 2,
            Ty::U8 | Ty::I8 | Ty::Bool => 1,
            Ty::Array { ty, .. } => ty.spec_align(),
            Ty::Unresolved { .. } => 8,
            Ty::Extern(_) => 8,
        }
    }

    /// The number of bytes that a field of this type takes: a number takes
    /// its width and a boolean one byte; an array takes its length times the
    /// size of an element; a named or extern type counts as eight bytes.
    pub open spec fn spec_size(self) -> nat
        decreases self,
    {
        match self {
            Ty::U64 | Ty::I64 | Ty::F64 => 8,
            Ty::U32 | Ty::I32 | Ty::F32 => 4,
            Ty::U16 | Ty::I16 => 2,
            Ty::U8 | Ty::I8 | Ty::Bool => 1,
            Ty::Array { ty, len } => (len * ty.spec_size()) as nat,
            Ty::Unresolved { .. } => 8,
            Ty::Extern(_) => 8,
        }
    }

    /// Whether a field of this type fits an object at all.
    pub open spec fn fits(self) -> bool {
        self.spec_size() <= isize::MAX
    }

    /// The layout the checker takes for a field of this type: its size and
    /// alignment, with `OVERSIZE` for the size of a type that does not fit.
    pub open spec fn spec_layout(self) -> Layout {
        Layout {
            size: if self.fits() {
                self.spec_size() as usize
            } else {
                OVERSIZE
            },
            align: self.spec_align() as usize,
        }
    }

    /// The alignment of a type is 1, 2, 4 or 8.
    pub proof fn lemma_layout_align(self)
        ensures
            self.spec_align() == 1 || self.spec_align() == 2 || self.spec_align() == 4
                || self.spec_align() == 8,
            self.spec_layout().align > 0,
        decreases self,
    {
        match self {
            Ty::Array { ty, .. } => {
                ty.lemma_layout_align();
            },
            _ => {},
        }
    }

    /// The alignment of a field of this type.
    pub fn align(&self) -> (n: usize)
        ensures
            n == self.spec_align(),
        decreases self,
    {
        match self {
            Ty::U64 | Ty::I64 | Ty::F64 => 8,
            Ty::U32 | Ty::I32 | Ty::F32 => 4,
            Ty::U16 | Ty::I16 => 2,
            Ty::U8 | Ty::I8 | Ty::Bool => 1,
            Ty::Array { ty, .. } => ty.align(),
            Ty::Unresolved { .. } => 8,
            Ty::Extern(_) => 8,
        }
    }

    /// The size of a field of this type, or none where it does not fit an
    /// object.
    pub fn size(&self) -> (n: Option<usize>)
        ensures
            n matches Some(k) ==> self.fits() && k == self.spec_size(),
            n is None ==> !self.fits(),
        decreases self,
    {
        match self {
            Ty::U64 | Ty::I64 | Ty::F64 => Some(8),
            Ty::U32 | Ty::I32 | Ty::F32 => Some(4),
            Ty::U16 | Ty::I16 => Some(2),
            Ty::U8 | Ty::I8 | Ty::Bool => Some(1),
            Ty::Array { ty, len } => {
                if *len == 0 {
                    assert(0 * ty.spec_size() == 0) by (nonlinear_arith);
                    return Some(0);
                }
                let elem = match ty.size() {
                    Some(elem) => elem,
                    None => {
                        assert(*len * ty.spec_size() > isize::MAX) by (nonlinear_arith)
                            requires
                                *len >= 1,
                                ty.spec_size() > isize::MAX,
                        ;
                        return None;
                    },
                };
                match len.checked_mul(elem) {
                    Some(total) => {
                        if total > isize::MAX as usize {
                            None
                        } else {
                            Some(total)
                        }
                    },
                    None => None,
                }
            },
            Ty::Unresolved { .. } => Some(8),
            Ty::Extern(_) => Some(8),
        }
    }

    /// The layout of a field of this type: its size and alignment, or an
    /// overflow where the type does not fit an object.
    pub fn layout(&self) -> (r: Result<Layout, LayoutError>)
        ensures
            self.fits() ==> r == Ok::<Layout, LayoutError>(self.spec_layout()),
            !self.fits() ==> r == Err::<Layout, LayoutError>(LayoutError::Overflow),
    {
        let align = self.align();
        match self.size() {
            Some(size) => Ok(Layout { size, align }),
            None => Err(LayoutError::Overflow),
        }
    }

    /// The layout the checker takes for a field of this type, with
    /// `OVERSIZE` for the size of a type that does not fit.
    pub fn layout_or_oversize(&self) -> (l: Layout)
        ensures
            l == self.spec_layout(),
    {
        let align = self.align();
        match self.size() {
            Some(size) => Layout { size, align },
            None => Layout { size: OVERSIZE, align },
        }
    }
}

/// The sizes and alignments of the primitive types are those of the wire
/// types that are written for them, and an array takes its length times the
/// size of its element, as the wire form of an array does.
pub proof fn law_layout_of_wire_types(elem: Ty, len: usize)
    ensures
        Ty::U8.spec_size() == <u8 as Wire>::wire_size(),
        Ty::U8.spec_align() == <u8 as Wire>::wire_align(),
        Ty::I8.spec_size() == <i8 as Wire>::wire_size(),
        Ty::I8.spec_align() == <i8 as Wire>::wire_align(),
        Ty::Bool.spec_size() == <bool as Wire>::wire_size(),
        Ty::Bool.spec_align() == <bool as Wire>::wire_align(),
        Ty::U16.spec_size() == <u16le as Wire>::wire_size(),
        Ty::U16.spec_align() == <u16le as Wire>::wire_align(),
        Ty::U32.spec_size() == <u32le as Wire>::wire_size(),
        Ty::U32.spec_align() == <u32le as Wire>::wire_align(),
        Ty::U64.spec_size() == <u64le as Wire>::wire_size(),
        Ty::U64.spec_align() == <u64le as Wire>::wire_align(),
        Ty::I16.spec_size() == <i16le as Wire>::wire_size(),
        Ty::I16.spec_align() == <i16le as Wire>::wire_align(),
        Ty::I32.spec_size() == <i32le as Wire>::wire_size(),
        Ty::I32.spec_align() == <i32le as Wire>::wire_align(),
        Ty::I64.spec_size() == <i64le as Wire>::wire_size(),
        Ty::I64.spec_align() == <i64le as Wire>::wire_align(),
        (Ty::Array { ty: Box::new(elem), len }).spec_size() == len * elem.spec_size(),
        (Ty::Array { ty: Box::new(elem), len }).spec_align() == elem.spec_align(),
{
    assert(0 <= len * elem.spec_size()) by (nonlinear_arith)
        requires
            0 <= len,
            0 <= elem.spec_size(),
    ;
}

/// The layouts of the fields, in order.
pub open spec fn field_layouts(fields: Seq<Field>) -> Seq<Layout> {
    fields.map_values(|f: Field| f.ty.spec_layout())
}

/// A record whose fields follow each other without a gap has the size of
/// the sum of its fields, and with its final pad a multiple of eight bytes.
pub proof fn law_no_hidden_gaps(checker: LayoutChecker)
    requires
        checker.wf(),
    ensures
        checker.size() == total_size(checker.fields()),
        checker.size() <= isize::MAX,
        gapless(checker.fields()),
        (total_size(checker.fields()) + pad_after(checker.size() as int)) % 8 == 0,
        0 <= pad_after(checker.size() as int) < 8,
{
}

} // verus!
