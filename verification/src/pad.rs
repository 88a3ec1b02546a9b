use crate::yule::{zeros, Wire, Yule};
use vstd::prelude::*;

verus! {

/// `N` bytes that close the gap between the last field of a record and the
/// alignment the record is padded to. They carry no meaning; a fresh value
/// holds zeros, and any bytes are accepted on receipt.
#[derive(Clone, Copy, Debug, PartialEq, Eq, Hash)]
pub struct ZeroPad<const N: usize> {
    _pad: [u8; N],
}

impl<const N: usize> View for ZeroPad<N> {
    type V = Seq<u8>;

    closed spec fn view(&self) -> Seq<u8> {
        self._pad@
    }
}

impl<const N: usize> ZeroPad<N> {
    /// A pad has exactly `N` bytes, and two pads with the same bytes are equal.
    pub proof fn lemma_view(a: Self, b: Self)
        ensures
            a@.len() == N,
            a@ == b@ ==> a == b,
    {
        if a@ == b@ {
            assert(a._pad =~= b._pad);
        }
    }
}

impl<const N: usize> Default for ZeroPad<N> {
    fn default() -> (pad: Self)
        ensures
            pad@ == zeros(N as nat),
    {
        let pad = ZeroPad { _pad: [0u8;N] };
        assert(pad@ =~= zeros(N as nat));
        pad
    }
}

impl<const N: usize> Wire for ZeroPad<N> {
    open spec fn wire_size() -> nat {
        N as nat
    }

    open spec fn wire_align() -> nat {
        1
    }

    open spec fn wire_valid(bytes: Seq<u8>) -> bool {
        true
    }

    closed spec fn from_wire(bytes: Seq<u8>) -> Self {
        choose|pad: Self| pad@ == bytes
    }

    open spec fn to_wire(self) -> Seq<u8> {
        self@
    }

    proof fn lemma_layout() {
    }

    proof fn lemma_round_trip(v: Self) {
        let w = Self::from_wire(v@);
        assert(w@ == v@);
        Self::lemma_view(w, v);
    }

    proof fn lemma_zero_valid() {
    }

    fn size() -> (n: Option<usize>) {
        Some(N)
    }

    fn align() -> (n: usize) {
        1
    }

    fn check_bytes(bytes: &[u8]) -> (ok: bool) {
        true
    }

    fn read(bytes: &[u8]) -> (v: Self) {
        let mut pad = [0u8;N];
        let mut i: usize = 0;
        while i < N
            invariant
                i <= N,
                bytes@.len() == N,
                forall|j: int| 0 <= j < i ==> pad@[j] == bytes@[j],
            decreases N - i,
        {
            pad[i] = bytes[i];
            i += 1;
        }
        let v = ZeroPad { _pad: pad };
        proof {
            assert(v@ =~= bytes@);
            let w = Self::from_wire(bytes@);
            assert(w@ == bytes@);
            Self::lemma_view(w, v);
        }
        v
    }

    fn write(&self, out: &mut Vec<u8>) {
        let mut i: usize = 0;
        while i < N
            invariant
                i <= N,
                out@ == old(out)@ + self@.take(i as int),
            decreases N - i,
        {
            out.push(self._pad[i]);
            i += 1;
            assert(out@ =~= old(out)@ + self@.take(i as int));
        }
        assert(self@.take(N as int) =~= self@);
    }

    fn zeroed() -> (v: Self) {
        let v = Self::default();
        proof {
            let w = Self::from_wire(zeros(N as nat));
            assert(w@ == zeros(N as nat));
            Self::lemma_view(w, v);
        }
        v
    }
}

impl<const N: usize> Yule for ZeroPad<N> {

}

} // verus!
