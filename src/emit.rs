//! Primitive writers, one per native instruction form.
//!
//! Every writer takes the buffer and the offset at which to write, puts its
//! bytes there and returns the offset just past them.
use vstd::prelude::*;

verus! {

/// `s` with `bytes` written over it from position `at` on.
pub open spec fn put(s: Seq<u8>, at: int, bytes: Seq<u8>) -> Seq<u8> {
    s.subrange(0, at) + bytes + s.subrange(at + bytes.len(), s.len() as int)
}

/// Writes `bytes` into `buf` from `index` on.
fn write_bytes(buf: &mut Vec<u8>, index: usize, bytes: &[u8]) -> (r: usize)
    requires
        index + bytes@.len() <= old(buf)@.len(),
    ensures
        final(buf)@ == put(old(buf)@, index as int, bytes@),
        r == index + bytes@.len(),
{
    let n = buf.len();
    let mut k: usize = 0;
    while k < bytes.len()
        invariant
            k <= bytes@.len(),
            index + bytes@.len() <= n,
            n == buf@.len(),
            n == old(buf)@.len(),
            buf@ == put(old(buf)@, index as int, bytes@.subrange(0, k as int)),
        decreases bytes@.len() - k,
    {
        let ghost prev = buf@;
        buf.set(index + k, bytes[k]);
        k = k + 1;
        let ghost want = put(old(buf)@, index as int, bytes@.subrange(0, k as int));
        assert(want.len() == buf@.len());
        assert forall|j: int| 0 <= j < buf@.len() implies buf@[j] == want[j] by {
            if j != index + k - 1 {
                assert(buf@[j] == prev[j]);
            }
        }
        assert(buf@ =~= want);
    }
    assert(bytes@.subrange(0, k as int) =~= bytes@);
    index + k
}

/// The eight bytes of `v`, least significant first.
pub open spec fn le64(v: u64) -> Seq<u8> {
    Seq::new(8, |i: int| (v >> (8 * i) as u64) as u8)
}

/// The four bytes of `v`, least significant first.
pub open spec fn le32(v: u32) -> Seq<u8> {
    Seq::new(4, |i: int| (v >> (8 * i) as u32) as u8)
}

/// `nop`
pub open spec fn nop_bytes() -> Seq<u8> {
    seq![0x90u8]
}

/// `int3`
pub open spec fn breakpoint_bytes() -> Seq<u8> {
    seq![0xccu8]
}

/// `mov rax, imm64`
pub open spec fn mov_rax_bytes(v: u64) -> Seq<u8> {
    seq![0x48u8, 0xb8u8] + le64(v)
}

/// `call rax`
pub open spec fn call_rax_bytes() -> Seq<u8> {
    seq![0xffu8, 0xd0u8]
}

/// `ret`
pub open spec fn ret_bytes() -> Seq<u8> {
    seq![0xc3u8]
}

/// `cmp rax, 0`
pub open spec fn cmp_rax_0_bytes() -> Seq<u8> {
    seq![0x48u8, 0x83u8, 0xf8u8, 0x00u8]
}

/// `je rel32`, the displacement counted from the end of the instruction.
pub open spec fn je_bytes(offset: i32) -> Seq<u8> {
    seq![0x0fu8, 0x84u8] + le32(offset as u32)
}

/// `endbr64`
pub open spec fn endbr64_bytes() -> Seq<u8> {
    seq![0xf3u8, 0x0fu8, 0x1eu8, 0xfau8]
}

/// `push rbp`
pub open spec fn push_rbp_bytes() -> Seq<u8> {
    seq![0x55u8]
}

/// `mov rbp, rsp`
pub open spec fn mov_rsp_to_rbp_bytes() -> Seq<u8> {
    seq![0x48u8, 0x89u8, 0xe5u8]
}

/// `push rax`
pub open spec fn push_rax_bytes() -> Seq<u8> {
    seq![0x50u8]
}

/// `push 0xddccbbaa`, a recognisable marker value.
pub open spec fn push_dummy_value_bytes() -> Seq<u8> {
    seq![0x68u8, 0xaau8, 0xbbu8, 0xccu8, 0xddu8]
}

/// `push r11`
pub open spec fn push_r11_bytes() -> Seq<u8> {
    seq![0x41u8, 0x53u8]
}

/// `pop rbp`
pub open spec fn pop_rbp_bytes() -> Seq<u8> {
    seq![0x5du8]
}

/// `pop rax`
pub open spec fn pop_rax_bytes() -> Seq<u8> {
    seq![0x58u8]
}

/// `pop r11`
pub open spec fn pop_r11_bytes() -> Seq<u8> {
    seq![0x41u8, 0x5bu8]
}

/// `pop rdi`
pub open spec fn pop_rdi_bytes() -> Seq<u8> {
    seq![0x5fu8]
}

/// `pop rsi`
pub open spec fn pop_rsi_bytes() -> Seq<u8> {
    seq![0x5eu8]
}

/// Writes `nop`.
pub fn write_nop(buf: &mut Vec<u8>, index: usize) -> (r: usize)
    requires
        index + 1 <= old(buf)@.len(),
    ensures
        final(buf)@ == put(old(buf)@, index as int, nop_bytes()),
        r == index + 1,
{
    let b = [0x90u8];
    assert(b@ =~= nop_bytes());
    write_bytes(buf, index, &b)
}

/// Writes `int3`.
pub fn write_software_breakpoint(buf: &mut Vec<u8>, index: usize) -> (r: usize)
    requires
        index + 1 <= old(buf)@.len(),
    ensures
        final(buf)@ == put(old(buf)@, index as int, breakpoint_bytes()),
        r == index + 1,
{
    let b = [0xccu8];
    assert(b@ =~= breakpoint_bytes());
    write_bytes(buf, index, &b)
}

/// Writes `mov rax, value`.
pub fn write_mov_rax(buf: &mut Vec<u8>, index: usize, value: u64) -> (r: usize)
    requires
        index + 10 <= old(buf)@.len(),
    ensures
        final(buf)@ == put(old(buf)@, index as int, mov_rax_bytes(value)),
        r == index + 10,
{
    let b = [
        0x48u8,
        0xb8u8,
        value as u8,
        (value >> 8u64) as u8,
        (value >> 16u64) as u8,
        (value >> 24u64) as u8,
        (value >> 32u64) as u8,
        (value >> 40u64) as u8,
        (value >> 48u64) as u8,
        (value >> 56u64) as u8,
    ];
    assert(value >> 0u64 == value) by (bit_vector);
    assert(b@ =~= mov_rax_bytes(value));
    write_bytes(buf, index, &b)
}

/// Writes `call rax`.
pub fn write_call_rax(buf: &mut Vec<u8>, index: usize) -> (r: usize)
    requires
        index + 2 <= old(buf)@.len(),
    ensures
        final(buf)@ == put(old(buf)@, index as int, call_rax_bytes()),
        r == index + 2,
{
    let b = [0xffu8, 0xd0u8];
    assert(b@ =~= call_rax_bytes());
    write_bytes(buf, index, &b)
}

/// Writes `ret`.
pub fn write_ret(buf: &mut Vec<u8>, index: usize) -> (r: usize)
    requires
        index + 1 <= old(buf)@.len(),
    ensures
        final(buf)@ == put(old(buf)@, index as int, ret_bytes()),
        r == index + 1,
{
    let b = [0xc3u8];
    assert(b@ =~= ret_bytes());
    write_bytes(buf, index, &b)
}

/// Writes `cmp rax, 0`.
pub fn write_cmp_rax_0(buf: &mut Vec<u8>, index: usize) -> (r: usize)
    requires
        index + 4 <= old(buf)@.len(),
    ensures
        final(buf)@ == put(old(buf)@, index as int, cmp_rax_0_bytes()),
        r == index + 4,
{
    let b = [0x48u8, 0x83u8, 0xf8u8, 0x00u8];
    assert(b@ =~= cmp_rax_0_bytes());
    write_bytes(buf, index, &b)
}

/// Writes `je offset`.
pub fn write_je(buf: &mut Vec<u8>, index: usize, offset: i32) -> (r: usize)
    requires
        index + 6 <= old(buf)@.len(),
    ensures
        final(buf)@ == put(old(buf)@, index as int, je_bytes(offset)),
        r == index + 6,
{
    let v = offset as u32;
    let b = [
        0x0fu8,
        0x84u8,
        v as u8,
        (v >> 8u32) as u8,
        (v >> 16u32) as u8,
        (v >> 24u32) as u8,
    ];
    assert(v >> 0u32 == v) by (bit_vector);
    assert(b@ =~= je_bytes(offset));
    write_bytes(buf, index, &b)
}

/// Writes `endbr64`.
pub fn write_endbr64(buf: &mut Vec<u8>, index: usize) -> (r: usize)
    requires
        index + 4 <= old(buf)@.len(),
    ensures
        final(buf)@ == put(old(buf)@, index as int, endbr64_bytes()),
        r == index + 4,
{
    let b = [0xf3u8, 0x0fu8, 0x1eu8, 0xfau8];
    assert(b@ =~= endbr64_bytes());
    write_bytes(buf, index, &b)
}

/// Writes `push rbp`.
pub fn write_push_rbp(buf: &mut Vec<u8>, index: usize) -> (r: usize)
    requires
        index + 1 <= old(buf)@.len(),
    ensures
        final(buf)@ == put(old(buf)@, index as int, push_rbp_bytes()),
        r == index + 1,
{
    let b = [0x55u8];
    assert(b@ =~= push_rbp_bytes());
    write_bytes(buf, index, &b)
}

/// Writes `mov rbp, rsp`.
pub fn write_mov_rsp_to_rbp(buf: &mut Vec<u8>, index: usize) -> (r: usize)
    requires
        index + 3 <= old(buf)@.len(),
    ensures
        final(buf)@ == put(old(buf)@, index as int, mov_rsp_to_rbp_bytes()),
        r == index + 3,
{
    let b = [0x48u8, 0x89u8, 0xe5u8];
    assert(b@ =~= mov_rsp_to_rbp_bytes());
    write_bytes(buf, index, &b)
}

/// Writes `push rax`.
pub fn write_push_rax(buf: &mut Vec<u8>, index: usize) -> (r: usize)
    requires
        index + 1 <= old(buf)@.len(),
    ensures
        final(buf)@ == put(old(buf)@, index as int, push_rax_bytes()),
        r == index + 1,
{
    let b = [0x50u8];
    assert(b@ =~= push_rax_bytes());
    write_bytes(buf, index, &b)
}

/// Writes `push 0xddccbbaa`.
pub fn write_push_dummy_value(buf: &mut Vec<u8>, index: usize) -> (r: usize)
    requires
        index + 5 <= old(buf)@.len(),
    ensures
        final(buf)@ == put(old(buf)@, index as int, push_dummy_value_bytes()),
        r == index + 5,
{
    let b = [0x68u8, 0xaau8, 0xbbu8, 0xccu8, 0xddu8];
    assert(b@ =~= push_dummy_value_bytes());
    write_bytes(buf, index, &b)
}

/// Writes `push r11`.
pub fn write_push_r11(buf: &mut Vec<u8>, index: usize) -> (r: usize)
    requires
        index + 2 <= old(buf)@.len(),
    ensures
        final(buf)@ == put(old(buf)@, index as int, push_r11_bytes()),
        r == index + 2,
{
    let b = [0x41u8, 0x53u8];
    assert(b@ =~= push_r11_bytes());
    write_bytes(buf, index, &b)
}

/// Writes `pop rbp`.
pub fn write_pop_rbp(buf: &mut Vec<u8>, index: usize) -> (r: usize)
    requires
        index + 1 <= old(buf)@.len(),
    ensures
        final(buf)@ == put(old(buf)@, index as int, pop_rbp_bytes()),
        r == index + 1,
{
    let b = [0x5du8];
    assert(b@ =~= pop_rbp_bytes());
    write_bytes(buf, index, &b)
}

/// Writes `pop rax`.
pub fn write_pop_rax(buf: &mut Vec<u8>, index: usize) -> (r: usize)
    requires
        index + 1 <= old(buf)@.len(),
    ensures
        final(buf)@ == put(old(buf)@, index as int, pop_rax_bytes()),
        r == index + 1,
{
    let b = [0x58u8];
    assert(b@ =~= pop_rax_bytes());
    write_bytes(buf, index, &b)
}

/// Writes `pop r11`.
pub fn write_pop_r11(buf: &mut Vec<u8>, index: usize) -> (r: usize)
    requires
        index + 2 <= old(buf)@.len(),
    ensures
        final(buf)@ == put(old(buf)@, index as int, pop_r11_bytes()),
        r == index + 2,
{
    let b = [0x41u8, 0x5bu8];
    assert(b@ =~= pop_r11_bytes());
    write_bytes(buf, index, &b)
}

/// Writes `pop rdi`.
pub fn write_pop_rdi(buf: &mut Vec<u8>, index: usize) -> (r: usize)
    requires
        index + 1 <= old(buf)@.len(),
    ensures
        final(buf)@ == put(old(buf)@, index as int, pop_rdi_bytes()),
        r == index + 1,
{
    let b = [0x5fu8];
    assert(b@ =~= pop_rdi_bytes());
    write_bytes(buf, index, &b)
}

/// Writes `pop rsi`.
pub fn write_pop_rsi(buf: &mut Vec<u8>, index: usize) -> (r: usize)
    requires
        index + 1 <= old(buf)@.len(),
    ensures
        final(buf)@ == put(old(buf)@, index as int, pop_rsi_bytes()),
        r == index + 1,
{
    let b = [0x5eu8];
    assert(b@ =~= pop_rsi_bytes());
    write_bytes(buf, index, &b)
}

} // verus!
