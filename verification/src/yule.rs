use vstd::prelude::*;
use vstd::slice::slice_subrange;

verus! {

/// The byte sequence of `n` zero bytes.
pub open spec fn zeros(n: nat) -> Seq<u8> {
    Seq::new(n, |i: int| 0u8)
}

/// Whether `addr` is a multiple of `align`.
pub open spec fn aligned(addr: int, align: int) -> bool {
    align > 0 && addr % align == 0
}

/// Whether `align` is one of the alignments a wire type may ask for.
pub open spec fn wire_alignment(align: nat) -> bool {
    align == 1 || align == 2 || align == 4 || align == 8
}

/// The wire form of a plain-data type: its size and alignment, which byte
/// patterns are values, and how values and bytes correspond.
///
/// An implementation gives the five spec functions, proves the laws about
/// them, and supplies the byte-level operations that compute them.
pub trait Wire: Sized {
    /// Number of bytes a value occupies.
    spec fn wire_size() -> nat;

    /// The alignment the first byte of a value must have.
    spec fn wire_align() -> nat;

    /// The per-field content check on exactly `wire_size()` bytes.
    spec fn wire_valid(bytes: Seq<u8>) -> bool;

    /// The value that `wire_size()` valid bytes stand for.
    spec fn from_wire(bytes: Seq<u8>) -> Self;

    /// The bytes of a value.
    spec fn to_wire(self) -> Seq<u8>;

    /// The alignment is one a wire type may ask for.
    proof fn lemma_layout()
        ensures
            wire_alignment(Self::wire_align()),
    ;

    /// Every value has `wire_size()` bytes, they pass the content check, and
    /// they stand for that value again.
    proof fn lemma_round_trip(v: Self)
        ensures
            v.to_wire().len() == Self::wire_size(),
            Self::wire_valid(v.to_wire()),
            Self::from_wire(v.to_wire()) == v,
    ;

    /// The all-zero pattern passes the content check.
    proof fn lemma_zero_valid()
        ensures
            Self::wire_valid(zeros(Self::wire_size())),
    ;

    /// `wire_size()` as a machine integer; none where it is larger than any
    /// buffer can be.
    fn size() -> (n: Option<usize>)
        ensures
            n matches Some(k) ==> k == Self::wire_size(),
            n is None ==> Self::wire_size() > usize::MAX,
    ;

    /// `wire_align()` as a machine integer.
    fn align() -> (n: usize)
        ensures
            n == Self::wire_align(),
    ;

    /// Runs the content check.
    fn check_bytes(bytes: &[u8]) -> (ok: bool)
        requires
            bytes@.len() == Self::wire_size(),
        ensures
            ok == Self::wire_valid(bytes@),
    ;

    /// Reads the value out of bytes that passed the content check.
    fn read(bytes: &[u8]) -> (v: Self)
        requires
            bytes@.len() == Self::wire_size(),
            Self::wire_valid(bytes@),
        ensures
            v == Self::from_wire(bytes@),
    ;

    /// Appends the bytes of the value to `out`.
    fn write(&self, out: &mut Vec<u8>)
        ensures
            final(out)@ == old(out)@ + self.to_wire(),
    ;

    /// The value of the all-zero pattern.
    fn zeroed() -> (v: Self)
        ensures
            v == Self::from_wire(zeros(Self::wire_size())),
    ;
}

/// What `validate` decides: enough bytes, an aligned start, valid content.
pub open spec fn valid_at<T: Wire>(addr: int, bytes: Seq<u8>) -> bool {
    &&& bytes.len() >= T::wire_size()
    &&& aligned(addr, T::wire_align() as int)
    &&& T::wire_valid(bytes.take(T::wire_size() as int))
}

/// What `from_slice` returns: the value where the bytes are valid, else none.
pub open spec fn value_at<T: Wire>(addr: int, bytes: Seq<u8>) -> Option<T> {
    if valid_at::<T>(addr, bytes) {
        Some(T::from_wire(bytes.take(T::wire_size() as int)))
    } else {
        None
    }
}

/// A plain-data type that can be read from and written to raw bytes in place:
/// fixed size, fixed layout, no padding, and the all-zero pattern is a value.
///
/// The trait adds nothing to implement: the validating and converting
/// functions come with it.
pub trait Yule: Wire + Clone {
    /// Whether the bytes that start at address `addr` can be read as a value:
    /// there are at least `wire_size()` of them, `addr` has the alignment of
    /// the type, and the first `wire_size()` bytes pass the content check.
    fn validate(addr: usize, slice: &[u8]) -> (ok: bool)
        ensures
            ok == valid_at::<Self>(addr as int, slice@),
    {
        let given = slice.len();
        let size = match Self::size() {
            Some(size) => size,
            None => {
                return false;
            },
        };
        let align = Self::align();
        proof {
            Self::lemma_layout();
        }
        if given < size {
            return false;
        }
        if addr % align != 0 {
            return false;
        }
        Self::check_bytes(slice_subrange(slice, 0, size))
    }

    /// Validates, then reads the value; `None` when validation fails.
    fn from_slice(addr: usize, slice: &[u8]) -> (v: Option<Self>)
        ensures
            v == value_at::<Self>(addr as int, slice@),
    {
        if Self::validate(addr, slice) {
            Some(Self::from_slice_unchecked(addr, slice))
        } else {
            None
        }
    }

    /// Reads the value without validating. The caller guarantees that the
    /// bytes are valid at that address.
    fn from_slice_unchecked(addr: usize, slice: &[u8]) -> (v: Self)
        requires
            valid_at::<Self>(addr as int, slice@),
        ensures
            v == Self::from_wire(slice@.take(Self::wire_size() as int)),
    {
        let given = slice.len();
        match Self::size() {
            Some(size) => Self::read(slice_subrange(slice, 0, size)),
            None => Self::zeroed(),
        }
    }

    /// Validates as `from_slice` does and, where the bytes are valid, puts
    /// `value` in their place: the first `wire_size()` bytes then hold
    /// `value`, and the value that they held before is returned. Where
    /// validation fails, the bytes stay as they are.
    fn from_mut_slice(addr: usize, slice: &mut [u8], value: &Self) -> (was: Option<Self>)
        ensures
            was == value_at::<Self>(addr as int, old(slice)@),
            was is Some ==> final(slice)@ == value.to_wire() + old(slice)@.skip(
                Self::wire_size() as int,
            ),
            was is None ==> final(slice)@ == old(slice)@,
    {
        if Self::validate(addr, slice) {
            Some(Self::from_mut_slice_unchecked(addr, slice, value))
        } else {
            None
        }
    }

    /// Puts `value` in the place of the value in the first `wire_size()`
    /// bytes, without validating, and returns the value that was there. The
    /// caller guarantees that the bytes are valid at that address.
    fn from_mut_slice_unchecked(addr: usize, slice: &mut [u8], value: &Self) -> (was: Self)
        requires
            valid_at::<Self>(addr as int, old(slice)@),
        ensures
            was == Self::from_wire(old(slice)@.take(Self::wire_size() as int)),
            final(slice)@ == value.to_wire() + old(slice)@.skip(Self::wire_size() as int),
    {
        let was = Self::from_slice_unchecked(addr, slice);
        let bytes = value.as_slice();
        let n = bytes.len();
        let mut i: usize = 0;
        while i < n
            invariant
                i <= n,
                n == Self::wire_size(),
                n == bytes@.len(),
                bytes@ == value.to_wire(),
                slice@.len() == old(slice)@.len(),
                n <= slice@.len(),
                forall|j: int| 0 <= j < i ==> slice@[j] == bytes@[j],
                forall|j: int| i <= j < slice@.len() ==> slice@[j] == old(slice)@[j],
            decreases n - i,
        {
            slice[i] = bytes[i];
            i += 1;
        }
        assert(slice@ =~= value.to_wire() + old(slice)@.skip(Self::wire_size() as int));
        was
    }

    /// The bytes of the value, `wire_size()` of them.
    fn as_slice(&self) -> (bytes: Vec<u8>)
        ensures
            bytes@ == self.to_wire(),
            bytes@.len() == Self::wire_size(),
    {
        let mut bytes: Vec<u8> = Vec::new();
        self.write(&mut bytes);
        proof {
            Self::lemma_round_trip(*self);
            assert(bytes@ =~= self.to_wire());
        }
        bytes
    }
}

/// A vector of `n` zero bytes.
pub fn zero_bytes(n: usize) -> (bytes: Vec<u8>)
    ensures
        bytes@ == zeros(n as nat),
{
    let mut bytes: Vec<u8> = Vec::new();
    let mut i: usize = 0;
    while i < n
        invariant
            i <= n,
            bytes@ == zeros(i as nat),
        decreases n - i,
    {
        bytes.push(0u8);
        i += 1;
        assert(bytes@ =~= zeros(i as nat));
    }
    bytes
}

/// Reading back the bytes of a value, at any address with the alignment of
/// its type, yields that value.
pub proof fn law_round_trip<T: Wire>(v: T, addr: int)
    requires
        aligned(addr, T::wire_align() as int),
    ensures
        valid_at::<T>(addr, v.to_wire()),
        value_at::<T>(addr, v.to_wire()) == Some(v),
{
    T::lemma_round_trip(v);
    assert(v.to_wire().take(T::wire_size() as int) =~= v.to_wire());
}

/// A buffer of `wire_size()` zero bytes at an aligned address is valid.
pub proof fn law_zero_valid<T: Wire>(addr: int)
    requires
        aligned(addr, T::wire_align() as int),
    ensures
        valid_at::<T>(addr, zeros(T::wire_size())),
{
    T::lemma_zero_valid();
    assert(zeros(T::wire_size()).take(T::wire_size() as int) =~= zeros(T::wire_size()));
}

} // verus!
