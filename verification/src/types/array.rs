use crate::yule::{zeros, Wire, Yule};
use vstd::prelude::*;
use vstd::slice::slice_subrange;

verus! {

/// The bytes of element `i` in the wire form of an array whose elements
/// take `size` bytes each.
pub open spec fn chunk(bytes: Seq<u8>, size: nat, i: int) -> Seq<u8> {
    bytes.subrange(i * size, (i + 1) * size)
}

/// The bytes of the first `n` of the items, one item after the other.
pub open spec fn items_wire<T: Wire>(items: Seq<T>, n: nat) -> Seq<u8>
    decreases n,
{
    if n == 0 {
        Seq::empty()
    } else {
        items_wire(items, (n - 1) as nat) + items[n - 1].to_wire()
    }
}

/// Whether the array holds, at each place, the value of the chunk of the
/// bytes at that place.
pub open spec fn holds<T: Wire, const N: usize>(a: [T; N], bytes: Seq<u8>) -> bool {
    forall|i: int| 0 <= i < N ==> #[trigger] a@[i] == T::from_wire(chunk(bytes, T::wire_size(), i))
}

/// Multiplying by a non-negative size keeps the order of indices.
pub proof fn lemma_chunk_bounds(i: int, n: int, size: int)
    requires
        0 <= i < n,
        0 <= size,
    ensures
        0 <= i * size,
        i * size + size == (i + 1) * size,
        (i + 1) * size <= n * size,
{
    assert(0 <= i * size) by (nonlinear_arith)
        requires
            0 <= i,
            0 <= size,
    ;
    assert(i * size + size == (i + 1) * size) by (nonlinear_arith);
    assert((i + 1) * size <= n * size) by (nonlinear_arith)
        requires
            i + 1 <= n,
            0 <= size,
    ;
}

/// The first `n` items take `n` times the element size, and each chunk
/// holds the bytes of its item.
pub proof fn lemma_items_wire<T: Wire>(items: Seq<T>, n: nat)
    requires
        n <= items.len(),
    ensures
        items_wire(items, n).len() == n * T::wire_size(),
        forall|i: int|
            0 <= i < n ==> #[trigger] chunk(items_wire(items, n), T::wire_size(), i)
                == items[i].to_wire(),
    decreases n,
{
    let size = T::wire_size() as int;
    if n == 0 {
        assert(0 * size == 0) by (nonlinear_arith);
    } else {
        let m = (n - 1) as nat;
        let head = items_wire(items, m);
        let last = items[m as int].to_wire();
        lemma_items_wire(items, m);
        T::lemma_round_trip(items[m as int]);
        lemma_chunk_bounds(m as int, n as int, size);
        assert forall|i: int| 0 <= i < n implies #[trigger] chunk(
            items_wire(items, n),
            T::wire_size(),
            i,
        ) == items[i].to_wire() by {
            lemma_chunk_bounds(i, n as int, size);
            if i < m {
                lemma_chunk_bounds(i, m as int, size);
                assert(chunk(head + last, T::wire_size(), i) =~= chunk(head, T::wire_size(), i));
            } else {
                assert(chunk(head + last, T::wire_size(), i) =~= last);
            }
        }
    }
}

/// Every chunk of a run of zero bytes is a run of zero bytes.
pub proof fn lemma_zero_chunks(n: int, size: nat)
    requires
        0 <= n,
    ensures
        0 <= n * size,
        forall|i: int| 0 <= i < n ==> #[trigger] chunk(zeros((n * size) as nat), size, i) == zeros(size),
{
    assert(0 <= n * size) by (nonlinear_arith)
        requires
            0 <= n,
            0 <= size,
    ;
    assert forall|i: int| 0 <= i < n implies #[trigger] chunk(zeros((n * size) as nat), size, i)
        == zeros(size) by {
        lemma_chunk_bounds(i, n, size as int);
        assert(chunk(zeros((n * size) as nat), size, i) =~= zeros(size));
    }
}

impl<T: Wire + Copy, const N: usize> Wire for [T; N] {
    open spec fn wire_size() -> nat {
        (N * T::wire_size()) as nat
    }

    open spec fn wire_align() -> nat {
        T::wire_align()
    }

    /// An array is valid where each of its elements is.
    open spec fn wire_valid(bytes: Seq<u8>) -> bool {
        forall|i: int| 0 <= i < N ==> T::wire_valid(#[trigger] chunk(bytes, T::wire_size(), i))
    }

    closed spec fn from_wire(bytes: Seq<u8>) -> Self {
        choose|a: [T; N]| holds(a, bytes)
    }

    open spec fn to_wire(self) -> Seq<u8> {
        items_wire(self@, N as nat)
    }

    proof fn lemma_layout() {
        T::lemma_layout();
    }

    proof fn lemma_round_trip(v: Self) {
        lemma_items_wire(v@, N as nat);
        let bytes = v.to_wire();
        assert forall|i: int| 0 <= i < N implies T::wire_valid(
            #[trigger] chunk(bytes, T::wire_size(), i),
        ) by {
            T::lemma_round_trip(v@[i]);
        }
        assert(holds(v, bytes)) by {
            assert forall|i: int| 0 <= i < N implies #[trigger] v@[i] == T::from_wire(
                chunk(bytes, T::wire_size(), i),
            ) by {
                T::lemma_round_trip(v@[i]);
            }
        }
        lemma_held(v, bytes);
    }

    proof fn lemma_zero_valid() {
        lemma_zero_chunks(N as int, T::wire_size());
        T::lemma_zero_valid();
    }

    fn size() -> (n: Option<usize>) {
        proof {
            assert(0 <= N * T::wire_size()) by (nonlinear_arith)
                requires
                    0 <= N,
                    0 <= T::wire_size(),
            ;
        }
        if N == 0 {
            assert(N * T::wire_size() == 0) by (nonlinear_arith)
                requires
                    N == 0,
            ;
            return Some(0);
        }
        match T::size() {
            Some(size) => N.checked_mul(size),
            None => {
                assert(N * T::wire_size() > usize::MAX) by (nonlinear_arith)
                    requires
                        N >= 1,
                        T::wire_size() > usize::MAX,
                ;
                None
            },
        }
    }

    fn align() -> (n: usize) {
        T::align()
    }

    fn check_bytes(bytes: &[u8]) -> (ok: bool) {
        let total = bytes.len();
        if N == 0 {
            return true;
        }
        let size = match T::size() {
            Some(size) => size,
            None => {
                assert(N * T::wire_size() > usize::MAX) by (nonlinear_arith)
                    requires
                        N >= 1,
                        T::wire_size() > usize::MAX,
                ;
                return true;
            },
        };
        let mut i: usize = 0;
        while i < N
            invariant
                i <= N,
                size == T::wire_size(),
                bytes@.len() == N * size,
                bytes@.len() == total,
                forall|j: int| 0 <= j < i ==> T::wire_valid(#[trigger] chunk(bytes@, size as nat, j)),
            decreases N - i,
        {
            proof {
                lemma_chunk_bounds(i as int, N as int, size as int);
            }
            let start = i * size;
            assert(bytes@.subrange(start as int, start + size) == chunk(bytes@, size as nat, i as int));
            if !T::check_bytes(slice_subrange(bytes, start, start + size)) {
                return false;
            }
            i += 1;
        }
        true
    }

    fn read(bytes: &[u8]) -> (v: Self) {
        let total = bytes.len();
        let mut a = [T::zeroed();N];
        let size = match T::size() {
            Some(size) => size,
            None => {
                proof {
                    if N >= 1 {
                        assert(N * T::wire_size() > usize::MAX) by (nonlinear_arith)
                            requires
                                N >= 1,
                                T::wire_size() > usize::MAX,
                        ;
                    }
                    assert(holds(a, bytes@));
                    lemma_held(a, bytes@);
                }
                return a;
            },
        };
        let mut i: usize = 0;
        while i < N
            invariant
                i <= N,
                size == T::wire_size(),
                bytes@.len() == N * size,
                bytes@.len() == total,
                Self::wire_valid(bytes@),
                forall|j: int|
                    0 <= j < i ==> #[trigger] a@[j] == T::from_wire(chunk(bytes@, size as nat, j)),
            decreases N - i,
        {
            proof {
                lemma_chunk_bounds(i as int, N as int, size as int);
            }
            let start = i * size;
            assert(bytes@.subrange(start as int, start + size) == chunk(bytes@, size as nat, i as int));
            a[i] = T::read(slice_subrange(bytes, start, start + size));
            i += 1;
        }
        proof {
            assert(holds(a, bytes@));
            lemma_held(a, bytes@);
        }
        a
    }

    fn write(&self, out: &mut Vec<u8>) {
        let mut i: usize = 0;
        while i < N
            invariant
                i <= N,
                out@ == old(out)@ + items_wire(self@, i as nat),
            decreases N - i,
        {
            self[i].write(out);
            i += 1;
            assert(out@ =~= old(out)@ + items_wire(self@, i as nat));
        }
    }

    fn zeroed() -> (v: Self) {
        let a = [T::zeroed();N];
        proof {
            let bytes = zeros(Self::wire_size());
            lemma_zero_chunks(N as int, T::wire_size());
            assert(holds(a, bytes));
            lemma_held(a, bytes);
        }
        a
    }
}

/// The array that bytes stand for is the one that holds their values.
pub proof fn lemma_held<T: Wire + Copy, const N: usize>(witness: [T; N], bytes: Seq<u8>)
    requires
        holds(witness, bytes),
    ensures
        <[T; N] as Wire>::from_wire(bytes) == witness,
{
    let chosen = <[T; N] as Wire>::from_wire(bytes);
    assert(holds(chosen, bytes));
    assert forall|i: int| 0 <= i < N implies chosen@[i] == witness@[i] by {
        assert(chosen@[i] == T::from_wire(chunk(bytes, T::wire_size(), i)));
        assert(witness@[i] == T::from_wire(chunk(bytes, T::wire_size(), i)));
    }
    assert(chosen =~= witness);
}

impl<T: Yule + Copy, const N: usize> Yule for [T; N] {

}

} // verus!
