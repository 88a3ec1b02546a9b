use crate::yule::{zeros, Wire, Yule};
use vstd::prelude::*;

verus! {

impl Wire for u8 {
    open spec fn wire_size() -> nat {
        1
    }

    open spec fn wire_align() -> nat {
        1
    }

    open spec fn wire_valid(bytes: Seq<u8>) -> bool {
        true
    }

    open spec fn from_wire(bytes: Seq<u8>) -> Self {
        bytes[0]
    }

    open spec fn to_wire(self) -> Seq<u8> {
        seq![self]
    }

    proof fn lemma_layout() {
    }

    proof fn lemma_round_trip(v: Self) {
    }

    proof fn lemma_zero_valid() {
    }

    fn size() -> (n: Option<usize>) {
        Some(1)
    }

    fn align() -> (n: usize) {
        1
    }

    fn check_bytes(bytes: &[u8]) -> (ok: bool) {
        true
    }

    fn read(bytes: &[u8]) -> (v: Self) {
        bytes[0]
    }

    fn write(&self, out: &mut Vec<u8>) {
        out.push(*self);
        assert(out@ =~= old(out)@ + self.to_wire());
    }

    fn zeroed() -> (v: Self) {
        0
    }
}

impl Yule for u8 {

}

impl Wire for i8 {
    open spec fn wire_size() -> nat {
        1
    }

    open spec fn wire_align() -> nat {
        1
    }

    open spec fn wire_valid(bytes: Seq<u8>) -> bool {
        true
    }

    open spec fn from_wire(bytes: Seq<u8>) -> Self {
        bytes[0] as i8
    }

    open spec fn to_wire(self) -> Seq<u8> {
        seq![self as u8]
    }

    proof fn lemma_layout() {
    }

    proof fn lemma_round_trip(v: Self) {
        assert((v as u8) as i8 == v) by (bit_vector);
    }

    proof fn lemma_zero_valid() {
    }

    fn size() -> (n: Option<usize>) {
        Some(1)
    }

    fn align() -> (n: usize) {
        1
    }

    fn check_bytes(bytes: &[u8]) -> (ok: bool) {
        true
    }

    fn read(bytes: &[u8]) -> (v: Self) {
        #[verifier::truncate]
        (bytes[0] as i8)
    }

    fn write(&self, out: &mut Vec<u8>) {
        out.push(
            #[verifier::truncate]
            (*self as u8),
        );
        assert(out@ =~= old(out)@ + self.to_wire());
    }

    fn zeroed() -> (v: Self) {
        0
    }
}

impl Yule for i8 {

}

impl Wire for bool {
    open spec fn wire_size() -> nat {
        1
    }

    open spec fn wire_align() -> nat {
        1
    }

    /// A boolean is the byte 0 or the byte 1; every other byte is rejected.
    open spec fn wire_valid(bytes: Seq<u8>) -> bool {
        bytes[0] == 0 || bytes[0] == 1
    }

    open spec fn from_wire(bytes: Seq<u8>) -> Self {
        bytes[0] == 1
    }

    open spec fn to_wire(self) -> Seq<u8> {
        if self {
            seq![1u8]
        } else {
            seq![0u8]
        }
    }

    proof fn lemma_layout() {
    }

    proof fn lemma_round_trip(v: Self) {
    }

    proof fn lemma_zero_valid() {
        assert(zeros(1)[0] == 0);
    }

    fn size() -> (n: Option<usize>) {
        Some(1)
    }

    fn align() -> (n: usize) {
        1
    }

    fn check_bytes(bytes: &[u8]) -> (ok: bool) {
        bytes[0] == 0 || bytes[0] == 1
    }

    fn read(bytes: &[u8]) -> (v: Self) {
        bytes[0] == 1
    }

    fn write(&self, out: &mut Vec<u8>) {
        if *self {
            out.push(1u8);
        } else {
            out.push(0u8);
        }
        assert(out@ =~= old(out)@ + self.to_wire());
    }

    fn zeroed() -> (v: Self) {
        false
    }
}

impl Yule for bool {

}

} // verus!
