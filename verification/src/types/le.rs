use crate::yule::{zeros, Wire, Yule};
use vstd::bytes::{
    lemma_auto_spec_u16_to_from_le_bytes, lemma_auto_spec_u32_to_from_le_bytes,
    lemma_auto_spec_u64_to_from_le_bytes, spec_u16_from_le_bytes, spec_u16_to_le_bytes,
    spec_u32_from_le_bytes, spec_u32_to_le_bytes, spec_u64_from_le_bytes, spec_u64_to_le_bytes,
    u16_from_le_bytes, u16_to_le_bytes, u32_from_le_bytes, u32_to_le_bytes, u64_from_le_bytes,
    u64_to_le_bytes,
};
use vstd::prelude::*;
use vstd::std_specs::convert::FromSpecImpl;

verus! {

/// Eight zero bytes are the little-endian form of zero.
pub proof fn lemma_zero_le_bytes()
    ensures
        spec_u64_to_le_bytes(0u64) == zeros(8),
        spec_u64_from_le_bytes(zeros(8)) == 0,
{
    lemma_auto_spec_u64_to_from_le_bytes();
    vstd::bytes::spec_u64_to_le_bytes_to_open(0u64);
    assert(0u64 & 0xff == 0 && (0u64 >> 8) & 0xff == 0 && (0u64 >> 16) & 0xff == 0 && (0u64 >> 24)
        & 0xff == 0 && (0u64 >> 32) & 0xff == 0 && (0u64 >> 40) & 0xff == 0 && (0u64 >> 48) & 0xff
        == 0 && (0u64 >> 56) & 0xff == 0) by (bit_vector);
    assert(spec_u64_to_le_bytes(0u64) =~= zeros(8));
}

/// The bytes in reverse order.
pub fn reversed(bytes: &[u8]) -> (out: Vec<u8>)
    ensures
        out@ == bytes@.reverse(),
{
    let mut out: Vec<u8> = Vec::new();
    let n = bytes.len();
    let mut i: usize = 0;
    while i < n
        invariant
            i <= n,
            n == bytes@.len(),
            out@ == bytes@.reverse().take(i as int),
        decreases n - i,
    {
        out.push(bytes[n - 1 - i]);
        i += 1;
        assert(out@ =~= bytes@.reverse().take(i as int));
    }
    assert(bytes@.reverse().take(n as int) =~= bytes@.reverse());
    out
}

/// A `u16` that travels as 2 little-endian bytes and is aligned to 2.
#[allow(non_camel_case_types)]
#[derive(Clone, Copy, Debug, PartialEq, Eq, Structural, PartialOrd, Ord, Hash)]
pub struct u16le(u16);

impl u16le {
    /// The number this stands for.
    pub closed spec fn value(self) -> u16 {
        self.0
    }

    /// Wraps a native number.
    pub fn new(value: u16) -> (r: Self)
        ensures
            r.value() == value,
    {
        u16le(value)
    }

    /// The native number.
    pub fn get(&self) -> (value: u16)
        ensures
            value == self.value(),
    {
        self.0
    }
}

impl From<u16> for u16le {
    fn from(value: u16) -> (r: Self) {
        u16le(value)
    }
}

impl FromSpecImpl<u16> for u16le {
    open spec fn obeys_from_spec() -> bool {
        true
    }

    closed spec fn from_spec(value: u16) -> Self {
        u16le(value)
    }
}

impl From<u16le> for u16 {
    fn from(value: u16le) -> (r: Self) {
        value.0
    }
}

impl FromSpecImpl<u16le> for u16 {
    open spec fn obeys_from_spec() -> bool {
        true
    }

    open spec fn from_spec(value: u16le) -> Self {
        value.value()
    }
}

impl Default for u16le {
    fn default() -> (r: Self)
        ensures
            r.value() == 0,
    {
        u16le(0)
    }
}

impl Wire for u16le {
    open spec fn wire_size() -> nat {
        2
    }

    open spec fn wire_align() -> nat {
        2
    }

    open spec fn wire_valid(bytes: Seq<u8>) -> bool {
        true
    }

    closed spec fn from_wire(bytes: Seq<u8>) -> Self {
        u16le(spec_u16_from_le_bytes(bytes))
    }

    open spec fn to_wire(self) -> Seq<u8> {
        spec_u16_to_le_bytes(self.value())
    }

    proof fn lemma_layout() {
    }

    proof fn lemma_round_trip(v: Self) {
        lemma_auto_spec_u16_to_from_le_bytes();
    }

    proof fn lemma_zero_valid() {
    }

    fn size() -> (n: Option<usize>) {
        Some(2)
    }

    fn align() -> (n: usize) {
        2
    }

    fn check_bytes(bytes: &[u8]) -> (ok: bool) {
        true
    }

    fn read(bytes: &[u8]) -> (v: Self) {
        u16le(u16_from_le_bytes(bytes))
    }

    fn write(&self, out: &mut Vec<u8>) {
        let mut bytes = u16_to_le_bytes(self.0);
        out.append(&mut bytes);
    }

    fn zeroed() -> (v: Self) {
        Self::read(crate::yule::zero_bytes(2).as_slice())
    }
}

impl Yule for u16le {

}

impl u16le {
    /// The bytes decode to the number they are the little-endian form of.
    pub proof fn lemma_from_wire(bytes: Seq<u8>)
        ensures
            Self::from_wire(bytes).value() == spec_u16_from_le_bytes(bytes),
    {
    }
}

/// A `u32` that travels as 4 little-endian bytes and is aligned to 4.
#[allow(non_camel_case_types)]
#[derive(Clone, Copy, Debug, PartialEq, Eq, Structural, PartialOrd, Ord, Hash)]
pub struct u32le(u32);

impl u32le {
    /// The number this stands for.
    pub closed spec fn value(self) -> u32 {
        self.0
    }

    /// Wraps a native number.
    pub fn new(value: u32) -> (r: Self)
        ensures
            r.value() == value,
    {
        u32le(value)
    }

    /// The native number.
    pub fn get(&self) -> (value: u32)
        ensures
            value == self.value(),
    {
        self.0
    }
}

impl From<u32> for u32le {
    fn from(value: u32) -> (r: Self) {
        u32le(value)
    }
}

impl FromSpecImpl<u32> for u32le {
    open spec fn obeys_from_spec() -> bool {
        true
    }

    closed spec fn from_spec(value: u32) -> Self {
        u32le(value)
    }
}

impl From<u32le> for u32 {
    fn from(value: u32le) -> (r: Self) {
        value.0
    }
}

impl FromSpecImpl<u32le> for u32 {
    open spec fn obeys_from_spec() -> bool {
        true
    }

    open spec fn from_spec(value: u32le) -> Self {
        value.value()
    }
}

impl Default for u32le {
    fn default() -> (r: Self)
        ensures
            r.value() == 0,
    {
        u32le(0)
    }
}

impl Wire for u32le {
    open spec fn wire_size() -> nat {
        4
    }

    open spec fn wire_align() -> nat {
        4
    }

    open spec fn wire_valid(bytes: Seq<u8>) -> bool {
        true
    }

    closed spec fn from_wire(bytes: Seq<u8>) -> Self {
        u32le(spec_u32_from_le_bytes(bytes))
    }

    open spec fn to_wire(self) -> Seq<u8> {
        spec_u32_to_le_bytes(self.value())
    }

    proof fn lemma_layout() {
    }

    proof fn lemma_round_trip(v: Self) {
        lemma_auto_spec_u32_to_from_le_bytes();
    }

    proof fn lemma_zero_valid() {
    }

    fn size() -> (n: Option<usize>) {
        Some(4)
    }

    fn align() -> (n: usize) {
        4
    }

    fn check_bytes(bytes: &[u8]) -> (ok: bool) {
        true
    }

    fn read(bytes: &[u8]) -> (v: Self) {
        u32le(u32_from_le_bytes(bytes))
    }

    fn write(&self, out: &mut Vec<u8>) {
        let mut bytes = u32_to_le_bytes(self.0);
        out.append(&mut bytes);
    }

    fn zeroed() -> (v: Self) {
        Self::read(crate::yule::zero_bytes(4).as_slice())
    }
}

impl Yule for u32le {

}

impl u32le {
    /// The bytes decode to the number they are the little-endian form of.
    pub proof fn lemma_from_wire(bytes: Seq<u8>)
        ensures
            Self::from_wire(bytes).value() == spec_u32_from_le_bytes(bytes),
    {
    }
}

/// A `u64` that travels as 8 little-endian bytes and is aligned to 8.
#[allow(non_camel_case_types)]
#[derive(Clone, Copy, Debug, PartialEq, Eq, Structural, PartialOrd, Ord, Hash)]
pub struct u64le(u64);

impl u64le {
    /// The number this stands for.
    pub closed spec fn value(self) -> u64 {
        self.0
    }

    /// Wraps a native number.
    pub fn new(value: u64) -> (r: Self)
        ensures
            r.value() == value,
    {
        u64le(value)
    }

    /// The native number.
    pub fn get(&self) -> (value: u64)
        ensures
            value == self.value(),
    {
        self.0
    }
}

impl From<u64> for u64le {
    fn from(value: u64) -> (r: Self) {
        u64le(value)
    }
}

impl FromSpecImpl<u64> for u64le {
    open spec fn obeys_from_spec() -> bool {
        true
    }

    closed spec fn from_spec(value: u64) -> Self {
        u64le(value)
    }
}

impl From<u64le> for u64 {
    fn from(value: u64le) -> (r: Self) {
        value.0
    }
}

impl FromSpecImpl<u64le> for u64 {
    open spec fn obeys_from_spec() -> bool {
        true
    }

    open spec fn from_spec(value: u64le) -> Self {
        value.value()
    }
}

impl Default for u64le {
    fn default() -> (r: Self)
        ensures
            r.value() == 0,
    {
        u64le(0)
    }
}

impl Wire for u64le {
    open spec fn wire_size() -> nat {
        8
    }

    open spec fn wire_align() -> nat {
        8
    }

    open spec fn wire_valid(bytes: Seq<u8>) -> bool {
        true
    }

    closed spec fn from_wire(bytes: Seq<u8>) -> Self {
        u64le(spec_u64_from_le_bytes(bytes))
    }

    open spec fn to_wire(self) -> Seq<u8> {
        spec_u64_to_le_bytes(self.value())
    }

    proof fn lemma_layout() {
    }

    proof fn lemma_round_trip(v: Self) {
        lemma_auto_spec_u64_to_from_le_bytes();
    }

    proof fn lemma_zero_valid() {
    }

    fn size() -> (n: Option<usize>) {
        Some(8)
    }

    fn align() -> (n: usize) {
        8
    }

    fn check_bytes(bytes: &[u8]) -> (ok: bool) {
        true
    }

    fn read(bytes: &[u8]) -> (v: Self) {
        u64le(u64_from_le_bytes(bytes))
    }

    fn write(&self, out: &mut Vec<u8>) {
        let mut bytes = u64_to_le_bytes(self.0);
        out.append(&mut bytes);
    }

    fn zeroed() -> (v: Self) {
        Self::read(crate::yule::zero_bytes(8).as_slice())
    }
}

impl Yule for u64le {

}

impl u64le {
    /// The bytes decode to the number they are the little-endian form of.
    pub proof fn lemma_from_wire(bytes: Seq<u8>)
        ensures
            Self::from_wire(bytes).value() == spec_u64_from_le_bytes(bytes),
    {
    }
}

/// An `i16` that travels as 2 little-endian bytes, in two's complement,
/// and is aligned to 2.
#[allow(non_camel_case_types)]
#[derive(Clone, Copy, Debug, PartialEq, Eq, Structural, PartialOrd, Ord, Hash)]
pub struct i16le(i16);

impl i16le {
    /// The number this stands for.
    pub closed spec fn value(self) -> i16 {
        self.0
    }

    /// Wraps a native number.
    pub fn new(value: i16) -> (r: Self)
        ensures
            r.value() == value,
    {
        i16le(value)
    }

    /// The native number.
    pub fn get(&self) -> (value: i16)
        ensures
            value == self.value(),
    {
        self.0
    }
}

impl From<i16> for i16le {
    fn from(value: i16) -> (r: Self) {
        i16le(value)
    }
}

impl FromSpecImpl<i16> for i16le {
    open spec fn obeys_from_spec() -> bool {
        true
    }

    closed spec fn from_spec(value: i16) -> Self {
        i16le(value)
    }
}

impl From<i16le> for i16 {
    fn from(value: i16le) -> (r: Self) {
        value.0
    }
}

impl FromSpecImpl<i16le> for i16 {
    open spec fn obeys_from_spec() -> bool {
        true
    }

    open spec fn from_spec(value: i16le) -> Self {
        value.value()
    }
}

impl Default for i16le {
    fn default() -> (r: Self)
        ensures
            r.value() == 0,
    {
        i16le(0)
    }
}

impl Wire for i16le {
    open spec fn wire_size() -> nat {
        2
    }

    open spec fn wire_align() -> nat {
        2
    }

    open spec fn wire_valid(bytes: Seq<u8>) -> bool {
        true
    }

    closed spec fn from_wire(bytes: Seq<u8>) -> Self {
        i16le(spec_u16_from_le_bytes(bytes) as i16)
    }

    open spec fn to_wire(self) -> Seq<u8> {
        spec_u16_to_le_bytes(self.value() as u16)
    }

    proof fn lemma_layout() {
    }

    proof fn lemma_round_trip(v: Self) {
        lemma_auto_spec_u16_to_from_le_bytes();
        let x = v.0;
        assert((x as u16) as i16 == x) by (bit_vector);
    }

    proof fn lemma_zero_valid() {
    }

    fn size() -> (n: Option<usize>) {
        Some(2)
    }

    fn align() -> (n: usize) {
        2
    }

    fn check_bytes(bytes: &[u8]) -> (ok: bool) {
        true
    }

    fn read(bytes: &[u8]) -> (v: Self) {
        let raw = u16_from_le_bytes(bytes);
        i16le(
            #[verifier::truncate]
            (raw as i16),
        )
    }

    fn write(&self, out: &mut Vec<u8>) {
        let raw =
            #[verifier::truncate]
            (self.0 as u16);
        let mut bytes = u16_to_le_bytes(raw);
        out.append(&mut bytes);
    }

    fn zeroed() -> (v: Self) {
        Self::read(crate::yule::zero_bytes(2).as_slice())
    }
}

impl Yule for i16le {

}

impl i16le {
    /// The bytes decode to the number whose two's complement they are the
    /// little-endian form of.
    pub proof fn lemma_from_wire(bytes: Seq<u8>)
        ensures
            Self::from_wire(bytes).value() == spec_u16_from_le_bytes(bytes) as i16,
    {
    }
}

/// An `i32` that travels as 4 little-endian bytes, in two's complement,
/// and is aligned to 4.
#[allow(non_camel_case_types)]
#[derive(Clone, Copy, Debug, PartialEq, Eq, Structural, PartialOrd, Ord, Hash)]
pub struct i32le(i32);

impl i32le {
    /// The number this stands for.
    pub closed spec fn value(self) -> i32 {
        self.0
    }

    /// Wraps a native number.
    pub fn new(value: i32) -> (r: Self)
        ensures
            r.value() == value,
    {
        i32le(value)
    }

    /// The native number.
    pub fn get(&self) -> (value: i32)
        ensures
            value == self.value(),
    {
        self.0
    }
}

impl From<i32> for i32le {
    fn from(value: i32) -> (r: Self) {
        i32le(value)
    }
}

impl FromSpecImpl<i32> for i32le {
    open spec fn obeys_from_spec() -> bool {
        true
    }

    closed spec fn from_spec(value: i32) -> Self {
        i32le(value)
    }
}

impl From<i32le> for i32 {
    fn from(value: i32le) -> (r: Self) {
        value.0
    }
}

impl FromSpecImpl<i32le> for i32 {
    open spec fn obeys_from_spec() -> bool {
        true
    }

    open spec fn from_spec(value: i32le) -> Self {
        value.value()
    }
}

impl Default for i32le {
    fn default() -> (r: Self)
        ensures
            r.value() == 0,
    {
        i32le(0)
    }
}

impl Wire for i32le {
    open spec fn wire_size() -> nat {
        4
    }

    open spec fn wire_align() -> nat {
        4
    }

    open spec fn wire_valid(bytes: Seq<u8>) -> bool {
        true
    }

    closed spec fn from_wire(bytes: Seq<u8>) -> Self {
        i32le(spec_u32_from_le_bytes(bytes) as i32)
    }

    open spec fn to_wire(self) -> Seq<u8> {
        spec_u32_to_le_bytes(self.value() as u32)
    }

    proof fn lemma_layout() {
    }

    proof fn lemma_round_trip(v: Self) {
        lemma_auto_spec_u32_to_from_le_bytes();
        let x = v.0;
        assert((x as u32) as i32 == x) by (bit_vector);
    }

    proof fn lemma_zero_valid() {
    }

    fn size() -> (n: Option<usize>) {
        Some(4)
    }

    fn align() -> (n: usize) {
        4
    }

    fn check_bytes(bytes: &[u8]) -> (ok: bool) {
        true
    }

    fn read(bytes: &[u8]) -> (v: Self) {
        let raw = u32_from_le_bytes(bytes);
        i32le(
            #[verifier::truncate]
            (raw as i32),
        )
    }

    fn write(&self, out: &mut Vec<u8>) {
        let raw =
            #[verifier::truncate]
            (self.0 as u32);
        let mut bytes = u32_to_le_bytes(raw);
        out.append(&mut bytes);
    }

    fn zeroed() -> (v: Self) {
        Self::read(crate::yule::zero_bytes(4).as_slice())
    }
}

impl Yule for i32le {

}

impl i32le {
    /// The bytes decode to the number whose two's complement they are the
    /// little-endian form of.
    pub proof fn lemma_from_wire(bytes: Seq<u8>)
        ensures
            Self::from_wire(bytes).value() == spec_u32_from_le_bytes(bytes) as i32,
    {
    }
}

/// An `i64` that travels as 8 little-endian bytes, in two's complement,
/// and is aligned to 8.
#[allow(non_camel_case_types)]
#[derive(Clone, Copy, Debug, PartialEq, Eq, Structural, PartialOrd, Ord, Hash)]
pub struct i64le(i64);

impl i64le {
    /// The number this stands for.
    pub closed spec fn value(self) -> i64 {
        self.0
    }

    /// Wraps a native number.
    pub fn new(value: i64) -> (r: Self)
        ensures
            r.value() == value,
    {
        i64le(value)
    }

    /// The native number.
    pub fn get(&self) -> (value: i64)
        ensures
            value == self.value(),
    {
        self.0
    }
}

impl From<i64> for i64le {
    fn from(value: i64) -> (r: Self) {
        i64le(value)
    }
}

impl FromSpecImpl<i64> for i64le {
    open spec fn obeys_from_spec() -> bool {
        true
    }

    closed spec fn from_spec(value: i64) -> Self {
        i64le(value)
    }
}

impl From<i64le> for i64 {
    fn from(value: i64le) -> (r: Self) {
        value.0
    }
}

impl FromSpecImpl<i64le> for i64 {
    open spec fn obeys_from_spec() -> bool {
        true
    }

    open spec fn from_spec(value: i64le) -> Self {
        value.value()
    }
}

impl Default for i64le {
    fn default() -> (r: Self)
        ensures
            r.value() == 0,
    {
        i64le(0)
    }
}

impl Wire for i64le {
    open spec fn wire_size() -> nat {
        8
    }

    open spec fn wire_align() -> nat {
        8
    }

    open spec fn wire_valid(bytes: Seq<u8>) -> bool {
        true
    }

    closed spec fn from_wire(bytes: Seq<u8>) -> Self {
        i64le(spec_u64_from_le_bytes(bytes) as i64)
    }

    open spec fn to_wire(self) -> Seq<u8> {
        spec_u64_to_le_bytes(self.value() as u64)
    }

    proof fn lemma_layout() {
    }

    proof fn lemma_round_trip(v: Self) {
        lemma_auto_spec_u64_to_from_le_bytes();
        let x = v.0;
        assert((x as u64) as i64 == x) by (bit_vector);
    }

    proof fn lemma_zero_valid() {
    }

    fn size() -> (n: Option<usize>) {
        Some(8)
    }

    fn align() -> (n: usize) {
        8
    }

    fn check_bytes(bytes: &[u8]) -> (ok: bool) {
        true
    }

    fn read(bytes: &[u8]) -> (v: Self) {
        let raw = u64_from_le_bytes(bytes);
        i64le(
            #[verifier::truncate]
            (raw as i64),
        )
    }

    fn write(&self, out: &mut Vec<u8>) {
        let raw =
            #[verifier::truncate]
            (self.0 as u64);
        let mut bytes = u64_to_le_bytes(raw);
        out.append(&mut bytes);
    }

    fn zeroed() -> (v: Self) {
        Self::read(crate::yule::zero_bytes(8).as_slice())
    }
}

impl Yule for i64le {

}

impl i64le {
    /// The bytes decode to the number whose two's complement they are the
    /// little-endian form of.
    pub proof fn lemma_from_wire(bytes: Seq<u8>)
        ensures
            Self::from_wire(bytes).value() == spec_u64_from_le_bytes(bytes) as i64,
    {
    }
}

/// A `u16` that travels as 2 big-endian bytes and is aligned to 2.
#[allow(non_camel_case_types)]
#[derive(Clone, Copy, Debug, PartialEq, Eq, Structural, PartialOrd, Ord, Hash)]
pub struct u16be(u16);

impl u16be {
    /// The number this stands for.
    pub closed spec fn value(self) -> u16 {
        self.0
    }

    /// Wraps a native number.
    pub fn new(value: u16) -> (r: Self)
        ensures
            r.value() == value,
    {
        u16be(value)
    }

    /// The native number.
    pub fn get(&self) -> (value: u16)
        ensures
            value == self.value(),
    {
        self.0
    }
}

impl From<u16> for u16be {
    fn from(value: u16) -> (r: Self) {
        u16be(value)
    }
}

impl FromSpecImpl<u16> for u16be {
    open spec fn obeys_from_spec() -> bool {
        true
    }

    closed spec fn from_spec(value: u16) -> Self {
        u16be(value)
    }
}

impl From<u16be> for u16 {
    fn from(value: u16be) -> (r: Self) {
        value.0
    }
}

impl FromSpecImpl<u16be> for u16 {
    open spec fn obeys_from_spec() -> bool {
        true
    }

    open spec fn from_spec(value: u16be) -> Self {
        value.value()
    }
}

impl Default for u16be {
    fn default() -> (r: Self)
        ensures
            r.value() == 0,
    {
        u16be(0)
    }
}

impl Wire for u16be {
    open spec fn wire_size() -> nat {
        2
    }

    open spec fn wire_align() -> nat {
        2
    }

    open spec fn wire_valid(bytes: Seq<u8>) -> bool {
        true
    }

    closed spec fn from_wire(bytes: Seq<u8>) -> Self {
        u16be(spec_u16_from_le_bytes(bytes.reverse()))
    }

    open spec fn to_wire(self) -> Seq<u8> {
        spec_u16_to_le_bytes(self.value()).reverse()
    }

    proof fn lemma_layout() {
    }

    proof fn lemma_round_trip(v: Self) {
        lemma_auto_spec_u16_to_from_le_bytes();
        let le = spec_u16_to_le_bytes(v.0);
        assert(le.reverse().reverse() =~= le);
    }

    proof fn lemma_zero_valid() {
    }

    fn size() -> (n: Option<usize>) {
        Some(2)
    }

    fn align() -> (n: usize) {
        2
    }

    fn check_bytes(bytes: &[u8]) -> (ok: bool) {
        true
    }

    fn read(bytes: &[u8]) -> (v: Self) {
        let le = reversed(bytes);
        u16be(u16_from_le_bytes(le.as_slice()))
    }

    fn write(&self, out: &mut Vec<u8>) {
        let le = u16_to_le_bytes(self.0);
        let mut bytes = reversed(le.as_slice());
        out.append(&mut bytes);
    }

    fn zeroed() -> (v: Self) {
        Self::read(crate::yule::zero_bytes(2).as_slice())
    }
}


impl u16be {
    /// The bytes decode to the number they are the big-endian form of.
    pub proof fn lemma_from_wire(bytes: Seq<u8>)
        ensures
            Self::from_wire(bytes).value() == spec_u16_from_le_bytes(bytes.reverse()),
    {
    }
}

/// A `u32` that travels as 4 big-endian bytes and is aligned to 4.
#[allow(non_camel_case_types)]
#[derive(Clone, Copy, Debug, PartialEq, Eq, Structural, PartialOrd, Ord, Hash)]
pub struct u32be(u32);

impl u32be {
    /// The number this stands for.
    pub closed spec fn value(self) -> u32 {
        self.0
    }

    /// Wraps a native number.
    pub fn new(value: u32) -> (r: Self)
        ensures
            r.value() == value,
    {
        u32be(value)
    }

    /// The native number.
    pub fn get(&self) -> (value: u32)
        ensures
            value == self.value(),
    {
        self.0
    }
}

impl From<u32> for u32be {
    fn from(value: u32) -> (r: Self) {
        u32be(value)
    }
}

impl FromSpecImpl<u32> for u32be {
    open spec fn obeys_from_spec() -> bool {
        true
    }

    closed spec fn from_spec(value: u32) -> Self {
        u32be(value)
    }
}

impl From<u32be> for u32 {
    fn from(value: u32be) -> (r: Self) {
        value.0
    }
}

impl FromSpecImpl<u32be> for u32 {
    open spec fn obeys_from_spec() -> bool {
        true
    }

    open spec fn from_spec(value: u32be) -> Self {
        value.value()
    }
}

impl Default for u32be {
    fn default() -> (r: Self)
        ensures
            r.value() == 0,
    {
        u32be(0)
    }
}

impl Wire for u32be {
    open spec fn wire_size() -> nat {
        4
    }

    open spec fn wire_align() -> nat {
        4
    }

    open spec fn wire_valid(bytes: Seq<u8>) -> bool {
        true
    }

    closed spec fn from_wire(bytes: Seq<u8>) -> Self {
        u32be(spec_u32_from_le_bytes(bytes.reverse()))
    }

    open spec fn to_wire(self) -> Seq<u8> {
        spec_u32_to_le_bytes(self.value()).reverse()
    }

    proof fn lemma_layout() {
    }

    proof fn lemma_round_trip(v: Self) {
        lemma_auto_spec_u32_to_from_le_bytes();
        let le = spec_u32_to_le_bytes(v.0);
        assert(le.reverse().reverse() =~= le);
    }

    proof fn lemma_zero_valid() {
    }

    fn size() -> (n: Option<usize>) {
        Some(4)
    }

    fn align() -> (n: usize) {
        4
    }

    fn check_bytes(bytes: &[u8]) -> (ok: bool) {
        true
    }

    fn read(bytes: &[u8]) -> (v: Self) {
        let le = reversed(bytes);
        u32be(u32_from_le_bytes(le.as_slice()))
    }

    fn write(&self, out: &mut Vec<u8>) {
        let le = u32_to_le_bytes(self.0);
        let mut bytes = reversed(le.as_slice());
        out.append(&mut bytes);
    }

    fn zeroed() -> (v: Self) {
        Self::read(crate::yule::zero_bytes(4).as_slice())
    }
}


impl u32be {
    /// The bytes decode to the number they are the big-endian form of.
    pub proof fn lemma_from_wire(bytes: Seq<u8>)
        ensures
            Self::from_wire(bytes).value() == spec_u32_from_le_bytes(bytes.reverse()),
    {
    }
}

/// A `u64` that travels as 8 big-endian bytes and is aligned to 8.
#[allow(non_camel_case_types)]
#[derive(Clone, Copy, Debug, PartialEq, Eq, Structural, PartialOrd, Ord, Hash)]
pub struct u64be(u64);

impl u64be {
    /// The number this stands for.
    pub closed spec fn value(self) -> u64 {
        self.0
    }

    /// Wraps a native number.
    pub fn new(value: u64) -> (r: Self)
        ensures
            r.value() == value,
    {
        u64be(value)
    }

    /// The native number.
    pub fn get(&self) -> (value: u64)
        ensures
            value == self.value(),
    {
        self.0
    }
}

impl From<u64> for u64be {
    fn from(value: u64) -> (r: Self) {
        u64be(value)
    }
}

impl FromSpecImpl<u64> for u64be {
    open spec fn obeys_from_spec() -> bool {
        true
    }

    closed spec fn from_spec(value: u64) -> Self {
        u64be(value)
    }
}

impl From<u64be> for u64 {
    fn from(value: u64be) -> (r: Self) {
        value.0
    }
}

impl FromSpecImpl<u64be> for u64 {
    open spec fn obeys_from_spec() -> bool {
        true
    }

    open spec fn from_spec(value: u64be) -> Self {
        value.value()
    }
}

impl Default for u64be {
    fn default() -> (r: Self)
        ensures
            r.value() == 0,
    {
        u64be(0)
    }
}

impl Wire for u64be {
    open spec fn wire_size() -> nat {
        8
    }

    open spec fn wire_align() -> nat {
        8
    }

    open spec fn wire_valid(bytes: Seq<u8>) -> bool {
        true
    }

    closed spec fn from_wire(bytes: Seq<u8>) -> Self {
        u64be(spec_u64_from_le_bytes(bytes.reverse()))
    }

    open spec fn to_wire(self) -> Seq<u8> {
        spec_u64_to_le_bytes(self.value()).reverse()
    }

    proof fn lemma_layout() {
    }

    proof fn lemma_round_trip(v: Self) {
        lemma_auto_spec_u64_to_from_le_bytes();
        let le = spec_u64_to_le_bytes(v.0);
        assert(le.reverse().reverse() =~= le);
    }

    proof fn lemma_zero_valid() {
    }

    fn size() -> (n: Option<usize>) {
        Some(8)
    }

    fn align() -> (n: usize) {
        8
    }

    fn check_bytes(bytes: &[u8]) -> (ok: bool) {
        true
    }

    fn read(bytes: &[u8]) -> (v: Self) {
        let le = reversed(bytes);
        u64be(u64_from_le_bytes(le.as_slice()))
    }

    fn write(&self, out: &mut Vec<u8>) {
        let le = u64_to_le_bytes(self.0);
        let mut bytes = reversed(le.as_slice());
        out.append(&mut bytes);
    }

    fn zeroed() -> (v: Self) {
        Self::read(crate::yule::zero_bytes(8).as_slice())
    }
}


impl u64be {
    /// The bytes decode to the number they are the big-endian form of.
    pub proof fn lemma_from_wire(bytes: Seq<u8>)
        ensures
            Self::from_wire(bytes).value() == spec_u64_from_le_bytes(bytes.reverse()),
    {
    }
}

/// An `i16` that travels as 2 big-endian bytes, in two's complement,
/// and is aligned to 2.
#[allow(non_camel_case_types)]
#[derive(Clone, Copy, Debug, PartialEq, Eq, Structural, PartialOrd, Ord, Hash)]
pub struct i16be(i16);

impl i16be {
    /// The number this stands for.
    pub closed spec fn value(self) -> i16 {
        self.0
    }

    /// Wraps a native number.
    pub fn new(value: i16) -> (r: Self)
        ensures
            r.value() == value,
    {
        i16be(value)
    }

    /// The native number.
    pub fn get(&self) -> (value: i16)
        ensures
            value == self.value(),
    {
        self.0
    }
}

impl From<i16> for i16be {
    fn from(value: i16) -> (r: Self) {
        i16be(value)
    }
}

impl FromSpecImpl<i16> for i16be {
    open spec fn obeys_from_spec() -> bool {
        true
    }

    closed spec fn from_spec(value: i16) -> Self {
        i16be(value)
    }
}

impl From<i16be> for i16 {
    fn from(value: i16be) -> (r: Self) {
        value.0
    }
}

impl FromSpecImpl<i16be> for i16 {
    open spec fn obeys_from_spec() -> bool {
        true
    }

    open spec fn from_spec(value: i16be) -> Self {
        value.value()
    }
}

impl Default for i16be {
    fn default() -> (r: Self)
        ensures
            r.value() == 0,
    {
        i16be(0)
    }
}

impl Wire for i16be {
    open spec fn wire_size() -> nat {
        2
    }

    open spec fn wire_align() -> nat {
        2
    }

    open spec fn wire_valid(bytes: Seq<u8>) -> bool {
        true
    }

    closed spec fn from_wire(bytes: Seq<u8>) -> Self {
        i16be(spec_u16_from_le_bytes(bytes.reverse()) as i16)
    }

    open spec fn to_wire(self) -> Seq<u8> {
        spec_u16_to_le_bytes(self.value() as u16).reverse()
    }

    proof fn lemma_layout() {
    }

    proof fn lemma_round_trip(v: Self) {
        lemma_auto_spec_u16_to_from_le_bytes();
        let x = v.0;
        assert((x as u16) as i16 == x) by (bit_vector);
        let le = spec_u16_to_le_bytes(x as u16);
        assert(le.reverse().reverse() =~= le);
    }

    proof fn lemma_zero_valid() {
    }

    fn size() -> (n: Option<usize>) {
        Some(2)
    }

    fn align() -> (n: usize) {
        2
    }

    fn check_bytes(bytes: &[u8]) -> (ok: bool) {
        true
    }

    fn read(bytes: &[u8]) -> (v: Self) {
        let le = reversed(bytes);
        let raw = u16_from_le_bytes(le.as_slice());
        i16be(
            #[verifier::truncate]
            (raw as i16),
        )
    }

    fn write(&self, out: &mut Vec<u8>) {
        let raw =
            #[verifier::truncate]
            (self.0 as u16);
        let le = u16_to_le_bytes(raw);
        let mut bytes = reversed(le.as_slice());
        out.append(&mut bytes);
    }

    fn zeroed() -> (v: Self) {
        Self::read(crate::yule::zero_bytes(2).as_slice())
    }
}


impl i16be {
    /// The bytes decode to the number whose two's complement they are the
    /// big-endian form of.
    pub proof fn lemma_from_wire(bytes: Seq<u8>)
        ensures
            Self::from_wire(bytes).value() == spec_u16_from_le_bytes(bytes.reverse()) as i16,
    {
    }
}

/// An `i32` that travels as 4 big-endian bytes, in two's complement,
/// and is aligned to 4.
#[allow(non_camel_case_types)]
#[derive(Clone, Copy, Debug, PartialEq, Eq, Structural, PartialOrd, Ord, Hash)]
pub struct i32be(i32);

impl i32be {
    /// The number this stands for.
    pub closed spec fn value(self) -> i32 {
        self.0
    }

    /// Wraps a native number.
    pub fn new(value: i32) -> (r: Self)
        ensures
            r.value() == value,
    {
        i32be(value)
    }

    /// The native number.
    pub fn get(&self) -> (value: i32)
        ensures
            value == self.value(),
    {
        self.0
    }
}

impl From<i32> for i32be {
    fn from(value: i32) -> (r: Self) {
        i32be(value)
    }
}

impl FromSpecImpl<i32> for i32be {
    open spec fn obeys_from_spec() -> bool {
        true
    }

    closed spec fn from_spec(value: i32) -> Self {
        i32be(value)
    }
}

impl From<i32be> for i32 {
    fn from(value: i32be) -> (r: Self) {
        value.0
    }
}

impl FromSpecImpl<i32be> for i32 {
    open spec fn obeys_from_spec() -> bool {
        true
    }

    open spec fn from_spec(value: i32be) -> Self {
        value.value()
    }
}

impl Default for i32be {
    fn default() -> (r: Self)
        ensures
            r.value() == 0,
    {
        i32be(0)
    }
}

impl Wire for i32be {
    open spec fn wire_size() -> nat {
        4
    }

    open spec fn wire_align() -> nat {
        4
    }

    open spec fn wire_valid(bytes: Seq<u8>) -> bool {
        true
    }

    closed spec fn from_wire(bytes: Seq<u8>) -> Self {
        i32be(spec_u32_from_le_bytes(bytes.reverse()) as i32)
    }

    open spec fn to_wire(self) -> Seq<u8> {
        spec_u32_to_le_bytes(self.value() as u32).reverse()
    }

    proof fn lemma_layout() {
    }

    proof fn lemma_round_trip(v: Self) {
        lemma_auto_spec_u32_to_from_le_bytes();
        let x = v.0;
        assert((x as u32) as i32 == x) by (bit_vector);
        let le = spec_u32_to_le_bytes(x as u32);
        assert(le.reverse().reverse() =~= le);
    }

    proof fn lemma_zero_valid() {
    }

    fn size() -> (n: Option<usize>) {
        Some(4)
    }

    fn align() -> (n: usize) {
        4
    }

    fn check_bytes(bytes: &[u8]) -> (ok: bool) {
        true
    }

    fn read(bytes: &[u8]) -> (v: Self) {
        let le = reversed(bytes);
        let raw = u32_from_le_bytes(le.as_slice());
        i32be(
            #[verifier::truncate]
            (raw as i32),
        )
    }

    fn write(&self, out: &mut Vec<u8>) {
        let raw =
            #[verifier::truncate]
            (self.0 as u32);
        let le = u32_to_le_bytes(raw);
        let mut bytes = reversed(le.as_slice());
        out.append(&mut bytes);
    }

    fn zeroed() -> (v: Self) {
        Self::read(crate::yule::zero_bytes(4).as_slice())
    }
}


impl i32be {
    /// The bytes decode to the number whose two's complement they are the
    /// big-endian form of.
    pub proof fn lemma_from_wire(bytes: Seq<u8>)
        ensures
            Self::from_wire(bytes).value() == spec_u32_from_le_bytes(bytes.reverse()) as i32,
    {
    }
}

/// An `i64` that travels as 8 big-endian bytes, in two's complement,
/// and is aligned to 8.
#[allow(non_camel_case_types)]
#[derive(Clone, Copy, Debug, PartialEq, Eq, Structural, PartialOrd, Ord, Hash)]
pub struct i64be(i64);

impl i64be {
    /// The number this stands for.
    pub closed spec fn value(self) -> i64 {
        self.0
    }

    /// Wraps a native number.
    pub fn new(value: i64) -> (r: Self)
        ensures
            r.value() == value,
    {
        i64be(value)
    }

    /// The native number.
    pub fn get(&self) -> (value: i64)
        ensures
            value == self.value(),
    {
        self.0
    }
}

impl From<i64> for i64be {
    fn from(value: i64) -> (r: Self) {
        i64be(value)
    }
}

impl FromSpecImpl<i64> for i64be {
    open spec fn obeys_from_spec() -> bool {
        true
    }

    closed spec fn from_spec(value: i64) -> Self {
        i64be(value)
    }
}

impl From<i64be> for i64 {
    fn from(value: i64be) -> (r: Self) {
        value.0
    }
}

impl FromSpecImpl<i64be> for i64 {
    open spec fn obeys_from_spec() -> bool {
        true
    }

    open spec fn from_spec(value: i64be) -> Self {
        value.value()
    }
}

impl Default for i64be {
    fn default() -> (r: Self)
        ensures
            r.value() == 0,
    {
        i64be(0)
    }
}

impl Wire for i64be {
    open spec fn wire_size() -> nat {
        8
    }

    open spec fn wire_align() -> nat {
        8
    }

    open spec fn wire_valid(bytes: Seq<u8>) -> bool {
        true
    }

    closed spec fn from_wire(bytes: Seq<u8>) -> Self {
        i64be(spec_u64_from_le_bytes(bytes.reverse()) as i64)
    }

    open spec fn to_wire(self) -> Seq<u8> {
        spec_u64_to_le_bytes(self.value() as u64).reverse()
    }

    proof fn lemma_layout() {
    }

    proof fn lemma_round_trip(v: Self) {
        lemma_auto_spec_u64_to_from_le_bytes();
        let x = v.0;
        assert((x as u64) as i64 == x) by (bit_vector);
        let le = spec_u64_to_le_bytes(x as u64);
        assert(le.reverse().reverse() =~= le);
    }

    proof fn lemma_zero_valid() {
    }

    fn size() -> (n: Option<usize>) {
        Some(8)
    }

    fn align() -> (n: usize) {
        8
    }

    fn check_bytes(bytes: &[u8]) -> (ok: bool) {
        true
    }

    fn read(bytes: &[u8]) -> (v: Self) {
        let le = reversed(bytes);
        let raw = u64_from_le_bytes(le.as_slice());
        i64be(
            #[verifier::truncate]
            (raw as i64),
        )
    }

    fn write(&self, out: &mut Vec<u8>) {
        let raw =
            #[verifier::truncate]
            (self.0 as u64);
        let le = u64_to_le_bytes(raw);
        let mut bytes = reversed(le.as_slice());
        out.append(&mut bytes);
    }

    fn zeroed() -> (v: Self) {
        Self::read(crate::yule::zero_bytes(8).as_slice())
    }
}


impl i64be {
    /// The bytes decode to the number whose two's complement they are the
    /// big-endian form of.
    pub proof fn lemma_from_wire(bytes: Seq<u8>)
        ensures
            Self::from_wire(bytes).value() == spec_u64_from_le_bytes(bytes.reverse()) as i64,
    {
    }
}

} // verus!
