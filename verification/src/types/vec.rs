use crate::types::array::items_wire;
use crate::types::le::u64le;
use crate::yule::{zeros, Wire, Yule};
use vstd::array::array_as_slice;
use vstd::laws_eq::obeys_concrete_eq;
use vstd::prelude::*;
use vstd::slice::slice_subrange;
use vstd::std_specs::cmp::PartialEqSpecImpl;

verus! {

/// Number of bytes the length field of a bounded vector occupies.
pub const LEN_BYTES: usize = 8;

/// A vector of at most `N` elements with a fixed wire form: the length as
/// eight little-endian bytes, then `N` element slots, of which the first
/// `len` hold the elements. A length above `N` counts as `N`.
#[derive(Debug, Copy)]
pub struct Vec<T, const N: usize> {
    len: u64le,
    buf: [T; N],
}

impl<T, const N: usize> View for Vec<T, N> {
    type V = Seq<T>;

    closed spec fn view(&self) -> Seq<T> {
        if self.len.value() < N {
            self.buf@.take(self.len.value() as int)
        } else {
            self.buf@
        }
    }
}

impl<T, const N: usize> Vec<T, N> {
    /// The length field, which may exceed `N` in a vector that came off the
    /// wire.
    pub closed spec fn stored_len(self) -> u64 {
        self.len.value()
    }

    /// The slots, used or not.
    pub closed spec fn slots(self) -> Seq<T> {
        self.buf@
    }

    /// A bounded vector holds the first `len` of its slots, and never more
    /// than `N` elements.
    pub proof fn lemma_view(self)
        ensures
            self@.len() <= N,
            self.slots().len() == N,
            self@ == self.slots().take(self@.len() as int),
            self@.len() == (if self.stored_len() < N {
                self.stored_len() as int
            } else {
                N as int
            }),
    {
        assert(self.buf@.take(N as int) =~= self.buf@);
    }

    /// Number of elements held, which never exceeds `N`.
    pub fn len(&self) -> (n: usize)
        ensures
            n == self@.len(),
            n <= N,
    {
        let stored = self.len.get();
        if stored < N as u64 {
            stored as usize
        } else {
            N
        }
    }

    /// Appends `elem`, or hands it back when the vector is full.
    pub fn push(&mut self, elem: T) -> (r: Result<(), T>)
        ensures
            old(self)@.len() < N ==> r == Ok::<(), T>(()) && final(self)@ == old(self)@.push(elem),
            old(self)@.len() >= N ==> r == Err::<(), T>(elem) && final(self)@ == old(self)@,
    {
        if self.len.get() >= N as u64 {
            return Err(elem);
        }
        self.push_unchecked(elem);
        Ok(())
    }

    /// Appends `elem` to a vector that is known to have room.
    pub fn push_unchecked(&mut self, elem: T)
        requires
            old(self)@.len() < N,
        ensures
            final(self)@ == old(self)@.push(elem),
    {
        let n = self.len.get();
        self.buf[n as usize] = elem;
        self.len = u64le::new(n + 1);
        assert(self@ =~= old(self)@.push(elem));
    }

    /// Replaces the element at `index`.
    pub fn set(&mut self, index: usize, elem: T)
        requires
            index < old(self)@.len(),
        ensures
            final(self)@ == old(self)@.update(index as int, elem),
    {
        self.buf[index] = elem;
        assert(self@ =~= old(self)@.update(index as int, elem));
    }

    /// The elements, in order.
    pub fn as_slice(&self) -> (s: &[T])
        ensures
            s@ == self@,
    {
        let n = self.len();
        let s = slice_subrange(array_as_slice(&self.buf), 0, n);
        assert(s@ =~= self@);
        s
    }
}

impl<T: Wire + Copy, const N: usize> Vec<T, N> {
    /// The empty vector. Its unused slots hold the zero value.
    pub fn new() -> (v: Self)
        ensures
            v@ == Seq::<T>::empty(),
            v == Self::from_wire(zeros(Self::wire_size())),
    {
        proof {
            Self::lemma_zero_is_empty();
        }
        Self::zeroed()
    }
}

impl<T: Copy, const N: usize> Clone for Vec<T, N> {
    /// A vector with the same elements.
    fn clone(&self) -> (r: Self)
        ensures
            r == *self,
            r@ == self@,
    {
        *self
    }
}

impl<T: PartialEq, const N: usize> PartialEq for Vec<T, N> {
    /// Whether the two vectors hold the same elements in the same order.
    /// What their unused slots hold does not count.
    fn eq(&self, other: &Self) -> (r: bool) {
        let a = self.as_slice();
        let b = other.as_slice();
        if a.len() != b.len() {
            return false;
        }
        let mut i: usize = 0;
        while i < a.len()
            invariant
                i <= a@.len(),
                a@ == self@,
                b@ == other@,
                a@.len() == b@.len(),
                obeys_concrete_eq::<T>() ==> forall|j: int| 0 <= j < i ==> a@[j] == b@[j],
            decreases a@.len() - i,
        {
            proof {
                reveal(obeys_concrete_eq);
            }
            if !(a[i] == b[i]) {
                return false;
            }
            i += 1;
        }
        proof {
            if obeys_concrete_eq::<T>() {
                assert(self@ =~= other@);
            }
        }
        true
    }
}

impl<T: PartialEq, const N: usize> PartialEqSpecImpl for Vec<T, N> {
    /// Equality of vectors is stated where equality of the elements is
    /// plain equality.
    open spec fn obeys_eq_spec() -> bool {
        obeys_concrete_eq::<T>()
    }

    open spec fn eq_spec(&self, other: &Self) -> bool {
        self@ == other@
    }
}

impl<T: Wire + Copy, const N: usize> Default for Vec<T, N> {
    fn default() -> (v: Self)
        ensures
            v@ == Seq::<T>::empty(),
    {
        Vec::new()
    }
}

impl<T: Wire + Copy, const N: usize> Wire for Vec<T, N> {
    open spec fn wire_size() -> nat {
        LEN_BYTES as nat + <[T; N] as Wire>::wire_size()
    }

    open spec fn wire_align() -> nat {
        8
    }

    /// A bounded vector is valid where each of its `N` slots is; the length
    /// field is valid whatever it holds.
    open spec fn wire_valid(bytes: Seq<u8>) -> bool {
        <[T; N] as Wire>::wire_valid(bytes.skip(LEN_BYTES as int))
    }

    closed spec fn from_wire(bytes: Seq<u8>) -> Self {
        Vec {
            len: u64le::from_wire(bytes.take(LEN_BYTES as int)),
            buf: <[T; N] as Wire>::from_wire(bytes.skip(LEN_BYTES as int)),
        }
    }

    closed spec fn to_wire(self) -> Seq<u8> {
        self.len.to_wire() + self.buf.to_wire()
    }

    proof fn lemma_layout() {
    }

    proof fn lemma_round_trip(v: Self) {
        u64le::lemma_round_trip(v.len);
        <[T; N] as Wire>::lemma_round_trip(v.buf);
        let bytes = v.to_wire();
        assert(bytes.take(LEN_BYTES as int) =~= v.len.to_wire());
        assert(bytes.skip(LEN_BYTES as int) =~= v.buf.to_wire());
    }

    proof fn lemma_zero_valid() {
        <[T; N] as Wire>::lemma_zero_valid();
        assert(zeros(Self::wire_size()).skip(LEN_BYTES as int) =~= zeros(
            <[T; N] as Wire>::wire_size(),
        ));
    }

    fn size() -> (n: Option<usize>) {
        match <[T; N] as Wire>::size() {
            Some(n) => n.checked_add(LEN_BYTES),
            None => None,
        }
    }

    fn align() -> (n: usize) {
        8
    }

    fn check_bytes(bytes: &[u8]) -> (ok: bool) {
        let slots = slice_subrange(bytes, LEN_BYTES, bytes.len());
        assert(slots@ =~= bytes@.skip(LEN_BYTES as int));
        <[T; N] as Wire>::check_bytes(slots)
    }

    fn read(bytes: &[u8]) -> (v: Self) {
        let head = slice_subrange(bytes, 0, LEN_BYTES);
        let slots = slice_subrange(bytes, LEN_BYTES, bytes.len());
        assert(head@ =~= bytes@.take(LEN_BYTES as int));
        assert(slots@ =~= bytes@.skip(LEN_BYTES as int));
        Vec { len: u64le::read(head), buf: <[T; N] as Wire>::read(slots) }
    }

    fn write(&self, out: &mut std::vec::Vec<u8>) {
        self.len.write(out);
        self.buf.write(out);
        assert(out@ =~= old(out)@ + self.to_wire());
    }

    fn zeroed() -> (v: Self) {
        let v = Vec { len: u64le::zeroed(), buf: <[T; N] as Wire>::zeroed() };
        proof {
            let bytes = zeros(Self::wire_size());
            assert(bytes.take(LEN_BYTES as int) =~= zeros(8));
            assert(bytes.skip(LEN_BYTES as int) =~= zeros(<[T; N] as Wire>::wire_size()));
        }
        v
    }
}

impl<T: Yule + Copy, const N: usize> Yule for Vec<T, N> {

}

impl<T: Wire + Copy, const N: usize> Vec<T, N> {
    /// The wire form of a bounded vector is its length field followed by
    /// its slots; the bytes of a vector decode to the same length and slots.
    pub proof fn lemma_wire(self)
        ensures
            self.to_wire() == spec_le_len(self.stored_len()) + items_wire(self.slots(), N as nat),
            Self::from_wire(self.to_wire()) == self,
    {
        Self::lemma_round_trip(self);
    }

    /// The all-zero pattern is the empty vector.
    pub proof fn lemma_zero_is_empty()
        ensures
            Self::from_wire(zeros(Self::wire_size()))@ == Seq::<T>::empty(),
    {
        let bytes = zeros(Self::wire_size());
        assert(bytes.take(LEN_BYTES as int) =~= zeros(8));
        crate::types::le::lemma_zero_le_bytes();
        u64le::lemma_from_wire(zeros(8));
        let v = Self::from_wire(bytes);
        assert(v.len.value() == 0);
        assert(v@ =~= Seq::<T>::empty());
    }
}

/// The length field of a bounded vector on the wire.
pub open spec fn spec_le_len(len: u64) -> Seq<u8> {
    vstd::bytes::spec_u64_to_le_bytes(len)
}

} // verus!
