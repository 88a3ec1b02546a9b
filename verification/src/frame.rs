use crate::error::Error;
use crate::yule::{aligned, valid_at, value_at, wire_alignment, zero_bytes, zeros, Wire, Yule};
use vstd::bytes::{
    lemma_auto_spec_u64_to_from_le_bytes, spec_u64_from_le_bytes, spec_u64_to_le_bytes,
    u64_from_le_bytes, u64_to_le_bytes,
};
use vstd::prelude::*;
use vstd::slice::slice_subrange;

verus! {

/// Number of bytes at the head of every frame. A request frame carries the
/// identity of the client that sent it there.
pub const HEADER_LENGTH: usize = 8;

/// The length of the frame that carries a payload of `size` bytes aligned to
/// `align`: the header, the payload, and `align` bytes of slack, so that an
/// aligned place for the payload exists wherever the frame starts.
pub open spec fn frame_len(size: nat, align: nat) -> nat {
    size + align + HEADER_LENGTH as nat
}

/// `addr` rounded up to the next multiple of `align`.
pub open spec fn align_up(addr: int, align: int) -> int {
    if addr % align == 0 {
        addr
    } else {
        addr + (align - addr % align)
    }
}

/// Where the payload starts in a frame whose first byte has the address
/// `start`: at the first address behind the header that is a multiple of
/// `align`, counted from the start of the frame.
pub open spec fn payload_start(start: int, align: int) -> int {
    align_up(start + HEADER_LENGTH, align) - start
}

/// The identity `id` as the eight header bytes, most significant byte first.
pub open spec fn header_bytes(id: u64) -> Seq<u8> {
    spec_u64_to_le_bytes(id).reverse()
}

/// The identity that the first eight bytes of a frame give.
pub open spec fn header_id(frame: Seq<u8>) -> u64 {
    spec_u64_from_le_bytes(frame.take(HEADER_LENGTH as int).reverse())
}

/// The frame that carries `payload` for the sender `id`, laid out for a frame
/// of `len` bytes that starts at address `start`: the header, zeros up to the
/// aligned place, the payload, and zeros to the end.
pub open spec fn frame_image(id: u64, start: int, align: int, payload: Seq<u8>, len: int) -> Seq<
    u8,
> {
    let at = payload_start(start, align);
    header_bytes(id) + zeros((at - HEADER_LENGTH) as nat) + payload + zeros(
        (len - at - payload.len()) as nat,
    )
}

/// What receiving a frame yields: the sender's identity and the payload
/// value, or the reason why the frame is refused. A frame shorter than the
/// header is an underflow; one whose payload is not valid at its aligned
/// place is an invalid message.
pub open spec fn frame_value<T: Wire>(start: int, frame: Seq<u8>) -> Result<(u64, T), Error> {
    let at = payload_start(start, T::wire_align() as int);
    if frame.len() < HEADER_LENGTH {
        Err(Error::BufferUnderflow)
    } else if frame.len() < at {
        Err(Error::InvalidMsg)
    } else {
        match value_at::<T>(start + at, frame.skip(at)) {
            Some(v) => Ok((header_id(frame), v)),
            None => Err(Error::InvalidMsg),
        }
    }
}

/// Rounding up moves an address by less than the alignment, onto a multiple
/// of it.
pub proof fn lemma_align_up(addr: int, align: int)
    requires
        0 <= addr,
        0 < align,
    ensures
        addr <= align_up(addr, align) < addr + align,
        aligned(align_up(addr, align), align),
        forall|a: int| addr <= a && aligned(a, align) ==> align_up(addr, align) <= a,
{
    let up = align_up(addr, align);
    let r = addr % align;
    assert(addr == align * (addr / align) + r && 0 <= r < align) by (nonlinear_arith)
        requires
            0 < align,
            r == addr % align,
    ;
    if r != 0 {
        assert(up == align * (addr / align + 1)) by (nonlinear_arith)
            requires
                up == addr + (align - r),
                addr == align * (addr / align) + r,
        ;
        assert((align * (addr / align + 1)) % align == 0) by (nonlinear_arith)
            requires
                0 < align,
        ;
    }
    assert forall|a: int| addr <= a && aligned(a, align) implies up <= a by {
        if r != 0 {
            let q = addr / align;
            let k = a / align;
            assert(a == align * k) by (nonlinear_arith)
                requires
                    0 < align,
                    a % align == 0,
                    k == a / align,
            ;
            assert(k > q) by (nonlinear_arith)
                requires
                    align * q + r <= align * k,
                    0 < r < align,
                    0 < align,
            ;
            assert(align * (q + 1) <= align * k) by (nonlinear_arith)
                requires
                    q + 1 <= k,
                    0 < align,
            ;
        }
    }
}

/// The payload starts behind the header, less than `align` bytes behind it,
/// at an aligned address; so a frame of `frame_len` bytes has room for it.
pub proof fn lemma_payload_start(start: int, align: int)
    requires
        0 <= start,
        0 < align,
    ensures
        HEADER_LENGTH <= payload_start(start, align) < HEADER_LENGTH + align,
        aligned(start + payload_start(start, align), align),
{
    lemma_align_up(start + HEADER_LENGTH, align);
}

/// Where the alignment divides the header length, the payload starts as far
/// behind the header as the frame starts before an aligned address.
pub proof fn lemma_payload_start_small_align(start: int, align: int)
    requires
        0 <= start,
        align == 1 || align == 2 || align == 4 || align == 8,
    ensures
        payload_start(start, align) == HEADER_LENGTH + (align_up(start, align) - start),
{
    lemma_align_up(start, align);
    lemma_align_up(start + HEADER_LENGTH, align);
    let a = align_up(start, align);
    assert((a + 8) % align == 0) by (nonlinear_arith)
        requires
            a % align == 0,
            align == 1 || align == 2 || align == 4 || align == 8,
    ;
    let b = align_up(start + HEADER_LENGTH, align);
    assert(aligned(a + 8, align));
    assert(b <= a + 8);
    assert((b - 8) % align == 0) by (nonlinear_arith)
        requires
            b % align == 0,
            align == 1 || align == 2 || align == 4 || align == 8,
    ;
    assert(aligned(b - 8, align));
    assert(a <= b - 8);
}

/// The length of the frame to ask for, or none where it does not fit the
/// address space.
pub fn frame_capacity(size: usize, align: usize) -> (len: Option<usize>)
    ensures
        len == (if frame_len(size as nat, align as nat) <= usize::MAX {
            Some(frame_len(size as nat, align as nat) as usize)
        } else {
            None
        }),
{
    match size.checked_add(align) {
        Some(n) => n.checked_add(HEADER_LENGTH),
        None => None,
    }
}

/// The length of the frame that carries one value of type `T`, or none
/// where it does not fit the address space.
pub fn frame_size<T: Wire>() -> (len: Option<usize>)
    ensures
        len == (if frame_len(T::wire_size(), T::wire_align()) <= usize::MAX {
            Some(frame_len(T::wire_size(), T::wire_align()) as usize)
        } else {
            None
        }),
{
    match T::size() {
        Some(size) => frame_capacity(size, T::align()),
        None => None,
    }
}

/// Where the payload starts in a frame at address `start`.
pub fn payload_offset(start: usize, align: usize) -> (at: usize)
    requires
        0 < align,
        HEADER_LENGTH + align <= usize::MAX,
    ensures
        at == payload_start(start as int, align as int),
        HEADER_LENGTH <= at < HEADER_LENGTH + align,
        aligned(start + at, align as int),
        wire_alignment(align as nat) ==> at == HEADER_LENGTH + (align_up(start as int, align as int)
            - start),
{
    proof {
        lemma_payload_start(start as int, align as int);
        if wire_alignment(align as nat) {
            lemma_payload_start_small_align(start as int, align as int);
        }
    }
    assert(start % align < align && HEADER_LENGTH % align <= HEADER_LENGTH) by (nonlinear_arith)
        requires
            0 < align,
    ;
    let r = (start % align + HEADER_LENGTH % align) % align;
    proof {
        let s = start as int;
        let a = align as int;
        assert((s % a + 8int % a) % a == (s + 8int) % a) by (nonlinear_arith)
            requires
                0 < a,
                0 <= s,
        ;
    }
    if r == 0 {
        HEADER_LENGTH
    } else {
        HEADER_LENGTH + (align - r)
    }
}

/// Reversing eight bytes twice gives them back, and the header bytes of an
/// identity give that identity.
pub proof fn lemma_header_round_trip(id: u64)
    ensures
        header_bytes(id).len() == HEADER_LENGTH,
        header_id(header_bytes(id)) == id,
        forall|rest: Seq<u8>| #[trigger] header_id(header_bytes(id) + rest) == id,
{
    lemma_auto_spec_u64_to_from_le_bytes();
    let le = spec_u64_to_le_bytes(id);
    assert(le.reverse().reverse() =~= le);
    assert(header_bytes(id).take(HEADER_LENGTH as int) =~= header_bytes(id));
    assert forall|rest: Seq<u8>| #[trigger] header_id(header_bytes(id) + rest) == id by {
        assert((header_bytes(id) + rest).take(HEADER_LENGTH as int) =~= header_bytes(id));
    }
}

/// Two identities with the same header bytes are the same identity: no
/// request of one client can be taken for that of another.
pub proof fn law_header_injective(a: u64, b: u64)
    requires
        header_bytes(a) == header_bytes(b),
    ensures
        a == b,
{
    lemma_header_round_trip(a);
    lemma_header_round_trip(b);
}

/// Appends the header bytes of `id` to `out`.
pub fn write_header(id: u64, out: &mut Vec<u8>)
    ensures
        final(out)@ == old(out)@ + header_bytes(id),
{
    let le = u64_to_le_bytes(id);
    let mut i: usize = 0;
    while i < 8
        invariant
            i <= 8,
            le@ == spec_u64_to_le_bytes(id),
            le@.len() == 8,
            out@ == old(out)@ + header_bytes(id).take(i as int),
        decreases 8 - i,
    {
        out.push(le[7 - i]);
        i += 1;
        assert(out@ =~= old(out)@ + header_bytes(id).take(i as int));
    }
    assert(header_bytes(id).take(8) =~= header_bytes(id));
}

/// Reads the sender's identity from the head of a frame. A frame shorter
/// than the header is an underflow.
pub fn read_header(frame: &[u8]) -> (r: Result<u64, Error>)
    ensures
        frame@.len() < HEADER_LENGTH ==> r == Err::<u64, Error>(Error::BufferUnderflow),
        frame@.len() >= HEADER_LENGTH ==> r == Ok::<u64, Error>(header_id(frame@)),
{
    if frame.len() < HEADER_LENGTH {
        return Err(Error::BufferUnderflow);
    }
    let mut le: Vec<u8> = Vec::new();
    let mut i: usize = 0;
    while i < 8
        invariant
            i <= 8,
            frame@.len() >= 8,
            le@ == frame@.take(8).reverse().take(i as int),
        decreases 8 - i,
    {
        le.push(frame[7 - i]);
        i += 1;
        assert(le@ =~= frame@.take(8).reverse().take(i as int));
    }
    assert(frame@.take(8).reverse().take(8) =~= frame@.take(8).reverse());
    Ok(u64_from_le_bytes(le.as_slice()))
}

/// Lays out the frame that carries `value` for the sender `id` in a grant of
/// `len` bytes whose first byte has the address `start`.
pub fn build_frame<T: Yule>(id: u64, start: usize, value: &T, len: usize) -> (frame: Vec<u8>)
    requires
        len == frame_len(T::wire_size(), T::wire_align()),
    ensures
        frame@ == frame_image(id, start as int, T::wire_align() as int, value.to_wire(), len as int),
        frame@.len() == len,
{
    proof {
        T::lemma_layout();
        T::lemma_round_trip(*value);
    }
    let at = payload_offset(start, T::align());
    let mut frame: Vec<u8> = Vec::new();
    write_header(id, &mut frame);
    proof {
        lemma_header_round_trip(id);
    }
    let mut gap = zero_bytes(at - HEADER_LENGTH);
    frame.append(&mut gap);
    value.write(&mut frame);
    let mut rest = zero_bytes(len - frame.len());
    frame.append(&mut rest);
    frame
}

/// Takes a received frame apart: the sender's identity from the header, and
/// the payload, validated at its aligned place.
pub fn decode_frame<T: Yule>(start: usize, frame: &[u8]) -> (r: Result<(u64, T), Error>)
    requires
        start + frame@.len() <= usize::MAX,
    ensures
        r == frame_value::<T>(start as int, frame@),
{
    proof {
        T::lemma_layout();
    }
    let id = read_header(frame)?;
    let at = payload_offset(start, T::align());
    if frame.len() < at {
        return Err(Error::InvalidMsg);
    }
    let payload = slice_subrange(frame, at, frame.len());
    assert(payload@ =~= frame@.skip(at as int));
    match T::from_slice(start + at, payload) {
        Some(v) => Ok((id, v)),
        None => Err(Error::InvalidMsg),
    }
}

/// The identity of a client as it travels in a header.
pub open spec fn wire_id(id: usize) -> u64 {
    id as u64
}

/// The client that a request frame names as its sender, for a server with
/// `clients` clients: an underflow where the frame is shorter than the
/// header, an invalid message where no client has that identity.
pub open spec fn frame_sender(frame: Seq<u8>, clients: nat) -> Result<usize, Error> {
    if frame.len() < HEADER_LENGTH {
        Err(Error::BufferUnderflow)
    } else if header_id(frame) >= clients {
        Err(Error::InvalidMsg)
    } else {
        Ok(header_id(frame) as usize)
    }
}

/// The identity of a client as a header carries it.
pub fn client_id(id: usize) -> (wire: u64)
    ensures
        wire == wire_id(id),
        wire == id,
{
    id as u64
}

/// Finds the client that a request frame names as its sender.
pub fn sender_of(frame: &[u8], clients: usize) -> (r: Result<usize, Error>)
    ensures
        r == frame_sender(frame@, clients as nat),
{
    let id = read_header(frame)?;
    if id >= clients as u64 {
        return Err(Error::InvalidMsg);
    }
    Ok(id as usize)
}

/// A request frame that the client `id` sends names that client, and no
/// other, as its sender on every server that has assigned that identity.
pub proof fn law_sender_round_trip<T: Wire>(id: usize, clients: nat, start: int, value: T)
    requires
        id < clients,
        0 <= start,
    ensures
        frame_sender(
            frame_image(
                wire_id(id),
                start,
                T::wire_align() as int,
                value.to_wire(),
                frame_len(T::wire_size(), T::wire_align()) as int,
            ),
            clients,
        ) == Ok::<usize, Error>(id),
{
    law_frame_round_trip::<T>(wire_id(id), start, value);
    lemma_header_round_trip(wire_id(id));
}

/// A frame laid out by `build_frame` is received, at the same address, as
/// the identity and the value that went into it.
pub proof fn law_frame_round_trip<T: Wire>(id: u64, start: int, value: T)
    requires
        0 <= start,
    ensures
        frame_value::<T>(
            start,
            frame_image(
                id,
                start,
                T::wire_align() as int,
                value.to_wire(),
                frame_len(T::wire_size(), T::wire_align()) as int,
            ),
        ) == Ok::<(u64, T), Error>((id, value)),
{
    let align = T::wire_align() as int;
    let len = frame_len(T::wire_size(), T::wire_align()) as int;
    let payload = value.to_wire();
    let frame = frame_image(id, start, align, payload, len);
    let at = payload_start(start, align);
    T::lemma_layout();
    T::lemma_round_trip(value);
    lemma_payload_start(start, align);
    lemma_header_round_trip(id);
    let head = header_bytes(id) + zeros((at - HEADER_LENGTH) as nat);
    let tail = zeros((len - at - payload.len()) as nat);
    assert(frame == head + payload + tail);
    assert(head.len() == at);
    assert(frame =~= header_bytes(id) + (zeros((at - HEADER_LENGTH) as nat) + payload + tail));
    assert(frame.skip(at).take(T::wire_size() as int) =~= payload);
    assert(header_id(frame) == id);
}

} // verus!
