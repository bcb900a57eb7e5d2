//! The translator: one fixed-width block of machine code per instruction.
//!
//! Every instruction's block is exactly `SLOT_WIDTH` bytes long, so that the
//! native offset of instruction `k` is `PROLOGUE_LEN + k * SLOT_WIDTH` and a
//! branch target is found by multiplication alone.
use vstd::prelude::*;

use crate::decode::{decode, decoded, Instruction};
use crate::emit::{
    call_rax_bytes, cmp_rax_0_bytes, endbr64_bytes, je_bytes, mov_rax_bytes, nop_bytes, pop_rax_bytes,
    pop_rbp_bytes, pop_rdi_bytes, pop_rsi_bytes, push_rax_bytes, push_rbp_bytes, put, ret_bytes,
    write_call_rax, write_cmp_rax_0, write_endbr64, write_je, write_mov_rax, write_nop,
    write_pop_rax, write_pop_rbp, write_pop_rdi, write_pop_rsi, write_push_rax, write_push_rbp,
    write_ret,
};
use crate::opcode::Opcode;

verus! {

/// The number of native bytes given to every instruction.
pub const SLOT_WIDTH: usize = 24;

/// The length of the entry sequence (`endbr64; push rbp`).
pub const PROLOGUE_LEN: usize = 5;

/// What the translator reads of a frame: its byte-code, and the handles of
/// its constants, of its local variables and of the globals that its names
/// stand for (by the index of the name).
#[derive(Clone, Debug)]
pub struct Activation {
    pub code: Vec<u8>,
    pub consts: Vec<u64>,
    pub locals: Vec<u64>,
    pub globals: Vec<u64>,
}

/// The contents of an `Activation`.
pub ghost struct ActivationView {
    pub code: Seq<u8>,
    pub consts: Seq<u64>,
    pub locals: Seq<u64>,
    pub globals: Seq<u64>,
}

impl View for Activation {
    type V = ActivationView;

    open spec fn view(&self) -> ActivationView {
        ActivationView {
            code: self.code@,
            consts: self.consts@,
            locals: self.locals@,
            globals: self.globals@,
        }
    }
}

/// The addresses of the runtime adapters that generated code calls.
#[derive(Clone, Copy, Debug, PartialEq, Eq, Structural)]
pub struct Trampolines {
    pub add: u64,
    pub subtract: u64,
    pub less_than: u64,
    pub truthy: u64,
    pub invoke: u64,
}

/// The entry sequence of every translation.
pub open spec fn prologue() -> Seq<u8> {
    endbr64_bytes() + push_rbp_bytes()
}

/// Entry `operand` of `table`, if there is one.
pub open spec fn entry(table: Seq<u64>, operand: i8) -> Option<u64> {
    if 0 <= operand < table.len() {
        Some(table[operand as int])
    } else {
        None
    }
}

/// `x / 2`, rounded toward zero.
pub open spec fn half_toward_zero(x: int) -> int {
    if x >= 0 {
        x / 2
    } else {
        -((-x) / 2)
    }
}

/// The jump displacement of a conditional branch with this operand.
pub open spec fn branch_displacement(operand: i8) -> int {
    half_toward_zero(operand as int) * SLOT_WIDTH
}

/// Loads `v` into `rax` and pushes it.
pub open spec fn load_recipe(v: u64) -> Seq<u8> {
    mov_rax_bytes(v) + push_rax_bytes()
}

/// Pops operands as `pops` says, calls `target` and pushes its result.
pub open spec fn call_recipe(pops: Seq<u8>, target: u64) -> Seq<u8> {
    pops + mov_rax_bytes(target) + call_rax_bytes() + push_rax_bytes()
}

/// The native bytes for `ins`, before padding; `None` for an instruction that
/// cannot be translated.
///
/// Adapters take their operands in `rdi` and `rsi`, and the right operand is
/// on top of the stack. Addition and comparison pass the right operand in
/// `rdi` and the left one in `rsi`. Subtraction passes the left operand in
/// `rdi`, so its adapter computes `rdi - rsi`, left minus right. A call passes
/// the callable in `rdi` and its one argument in `rsi`.
pub open spec fn recipe(ins: Instruction, act: ActivationView, t: Trampolines) -> Option<Seq<u8>> {
    match ins.opcode {
        Opcode::LoadFast => match entry(act.locals, ins.operand) {
            Some(v) => Some(load_recipe(v)),
            None => None,
        },
        Opcode::LoadConst => match entry(act.consts, ins.operand) {
            Some(v) => Some(load_recipe(v)),
            None => None,
        },
        Opcode::LoadGlobal => match entry(act.globals, ins.operand) {
            Some(v) => Some(load_recipe(v)),
            None => None,
        },
        Opcode::ReturnValue => Some(pop_rax_bytes() + pop_rbp_bytes() + ret_bytes()),
        Opcode::BinaryAdd => Some(call_recipe(pop_rdi_bytes() + pop_rsi_bytes(), t.add)),
        Opcode::BinarySubtract => Some(call_recipe(pop_rsi_bytes() + pop_rdi_bytes(), t.subtract)),
        Opcode::CompareOp => if ins.operand == 0 {
            Some(call_recipe(pop_rdi_bytes() + pop_rsi_bytes(), t.less_than))
        } else {
            None
        },
        Opcode::PopJumpIfFalse => Some(
            pop_rdi_bytes() + mov_rax_bytes(t.truthy) + call_rax_bytes() + cmp_rax_0_bytes()
                + je_bytes(branch_displacement(ins.operand) as i32),
        ),
        Opcode::CallFunction => if ins.operand == 1 {
            Some(call_recipe(pop_rsi_bytes() + pop_rdi_bytes(), t.invoke))
        } else {
            None
        },
        _ => None,
    }
}

/// Whether `ins` can be translated against `act`.
pub open spec fn supported(ins: Instruction, act: ActivationView) -> bool {
    recipe(ins, act, Trampolines { add: 0, subtract: 0, less_than: 0, truthy: 0, invoke: 0 }) is Some
}

/// `n` no-op bytes.
pub open spec fn nops(n: int) -> Seq<u8> {
    Seq::new(n as nat, |i: int| 0x90u8)
}

/// The block of `ins`: its recipe padded with no-ops to `SLOT_WIDTH` bytes.
pub open spec fn slot(ins: Instruction, act: ActivationView, t: Trampolines) -> Option<Seq<u8>> {
    match recipe(ins, act, t) {
        Some(b) => Some(b + nops(SLOT_WIDTH - b.len())),
        None => None,
    }
}

/// The blocks of `ins`, one after the other; `None` if one cannot be made.
pub open spec fn emitted(ins: Seq<Instruction>, act: ActivationView, t: Trampolines) -> Option<Seq<u8>>
    decreases ins.len(),
{
    if ins.len() == 0 {
        Some(Seq::empty())
    } else {
        match (emitted(ins.drop_last(), act, t), slot(ins.last(), act, t)) {
            (Some(a), Some(b)) => Some(a + b),
            _ => None,
        }
    }
}

/// The machine code for `act`: the entry sequence followed by one block per
/// instruction; `None` ("not compiled") for an odd-length stream or when an
/// instruction cannot be translated.
pub open spec fn translation(act: ActivationView, t: Trampolines) -> Option<Seq<u8>> {
    if act.code.len() % 2 == 1 {
        None
    } else {
        match emitted(decoded(act.code), act, t) {
            Some(body) => Some(prologue() + body),
            None => None,
        }
    }
}

proof fn lemma_put_put(s: Seq<u8>, a: int, x: Seq<u8>, y: Seq<u8>)
    requires
        0 <= a,
        a + x.len() + y.len() <= s.len(),
    ensures
        put(put(s, a, x), a + x.len(), y) == put(s, a, x + y),
{
    assert(put(put(s, a, x), a + x.len(), y) =~= put(s, a, x + y));
}

/// No recipe is longer than a slot, so padding never has to shorten one.
pub proof fn lemma_recipe_fits(ins: Instruction, act: ActivationView, t: Trampolines)
    ensures
        recipe(ins, act, t) matches Some(b) ==> b.len() < SLOT_WIDTH,
{
}

/// `entry(table, operand)`.
fn table_entry(table: &Vec<u64>, operand: i8) -> (r: Option<u64>)
    ensures
        r == entry(table@, operand),
{
    if 0 <= operand && (operand as usize) < table.len() {
        Some(table[operand as usize])
    } else {
        None
    }
}

/// The jump displacement of a conditional branch with this operand.
fn displacement(operand: i8) -> (r: i32)
    ensures
        r as int == branch_displacement(operand),
{
    let a = operand as i32;
    if a >= 0 {
        (a / 2) * 24
    } else {
        -(((-a) / 2) * 24)
    }
}

/// Writes `mov rax, v; push rax`.
fn write_load(buf: &mut Vec<u8>, index: usize, v: u64) -> (r: usize)
    requires
        index + 11 <= old(buf)@.len(),
    ensures
        final(buf)@ == put(old(buf)@, index as int, load_recipe(v)),
        r == index + 11,
{
    let ghost s0 = buf@;
    let o = write_mov_rax(buf, index, v);
    let o = write_push_rax(buf, o);
    proof {
        lemma_put_put(s0, index as int, mov_rax_bytes(v), push_rax_bytes());
    }
    o
}

/// Writes `pop rdi; pop rsi` when `rdi_first`, else `pop rsi; pop rdi`.
fn write_pops(buf: &mut Vec<u8>, index: usize, rdi_first: bool) -> (r: usize)
    requires
        index + 2 <= old(buf)@.len(),
    ensures
        final(buf)@ == put(
            old(buf)@,
            index as int,
            if rdi_first {
                pop_rdi_bytes() + pop_rsi_bytes()
            } else {
                pop_rsi_bytes() + pop_rdi_bytes()
            },
        ),
        r == index + 2,
{
    let ghost s0 = buf@;
    if rdi_first {
        let o = write_pop_rdi(buf, index);
        let o = write_pop_rsi(buf, o);
        proof {
            lemma_put_put(s0, index as int, pop_rdi_bytes(), pop_rsi_bytes());
        }
        o
    } else {
        let o = write_pop_rsi(buf, index);
        let o = write_pop_rdi(buf, o);
        proof {
            lemma_put_put(s0, index as int, pop_rsi_bytes(), pop_rdi_bytes());
        }
        o
    }
}

/// Writes `call_recipe` for the given pops and target.
fn write_call(buf: &mut Vec<u8>, index: usize, rdi_first: bool, target: u64) -> (r: usize)
    requires
        index + 15 <= old(buf)@.len(),
    ensures
        final(buf)@ == put(
            old(buf)@,
            index as int,
            call_recipe(
                if rdi_first {
                    pop_rdi_bytes() + pop_rsi_bytes()
                } else {
                    pop_rsi_bytes() + pop_rdi_bytes()
                },
                target,
            ),
        ),
        r == index + 15,
{
    let ghost s0 = buf@;
    let ghost pops = if rdi_first {
        pop_rdi_bytes() + pop_rsi_bytes()
    } else {
        pop_rsi_bytes() + pop_rdi_bytes()
    };
    let o = write_pops(buf, index, rdi_first);
    let o = write_mov_rax(buf, o, target);
    proof {
        lemma_put_put(s0, index as int, pops, mov_rax_bytes(target));
    }
    let o = write_call_rax(buf, o);
    proof {
        lemma_put_put(s0, index as int, pops + mov_rax_bytes(target), call_rax_bytes());
    }
    let o = write_push_rax(buf, o);
    proof {
        lemma_put_put(
            s0,
            index as int,
            pops + mov_rax_bytes(target) + call_rax_bytes(),
            push_rax_bytes(),
        );
    }
    o
}

/// Writes the block of `ins` at `index`; `None`, with `buf` untouched, when
/// `ins` cannot be translated.
fn write_slot(
    buf: &mut Vec<u8>,
    index: usize,
    ins: Instruction,
    act: &Activation,
    t: &Trampolines,
) -> (r: Option<usize>)
    requires
        index + SLOT_WIDTH <= old(buf)@.len(),
    ensures
        match slot(ins, act@, *t) {
            Some(b) => r == Some((index + SLOT_WIDTH) as usize) && final(buf)@ == put(
                old(buf)@,
                index as int,
                b,
            ),
            None => r is None && final(buf)@ == old(buf)@,
        },
{
    let ghost s0 = buf@;
    let cap = buf.len();
    let limit = index + SLOT_WIDTH;
    let end = match ins.opcode {
        Opcode::LoadFast => match table_entry(&act.locals, ins.operand) {
            Some(v) => write_load(buf, index, v),
            None => return None,
        },
        Opcode::LoadConst => match table_entry(&act.consts, ins.operand) {
            Some(v) => write_load(buf, index, v),
            None => return None,
        },
        Opcode::LoadGlobal => match table_entry(&act.globals, ins.operand) {
            Some(v) => write_load(buf, index, v),
            None => return None,
        },
        Opcode::ReturnValue => {
            let o = write_pop_rax(buf, index);
            let o = write_pop_rbp(buf, o);
            proof {
                lemma_put_put(s0, index as int, pop_rax_bytes(), pop_rbp_bytes());
            }
            let o = write_ret(buf, o);
            proof {
                lemma_put_put(s0, index as int, pop_rax_bytes() + pop_rbp_bytes(), ret_bytes());
            }
            o
        },
        Opcode::BinaryAdd => write_call(buf, index, true, t.add),
        Opcode::BinarySubtract => write_call(buf, index, false, t.subtract),
        Opcode::CompareOp => {
            if ins.operand != 0 {
                return None;
            }
            write_call(buf, index, true, t.less_than)
        },
        Opcode::PopJumpIfFalse => {
            let d = displacement(ins.operand);
            let o = write_pop_rdi(buf, index);
            let o = write_mov_rax(buf, o, t.truthy);
            proof {
                lemma_put_put(s0, index as int, pop_rdi_bytes(), mov_rax_bytes(t.truthy));
            }
            let o = write_call_rax(buf, o);
            let ghost through_mov = pop_rdi_bytes() + mov_rax_bytes(t.truthy);
            proof {
                lemma_put_put(s0, index as int, through_mov, call_rax_bytes());
            }
            let o = write_cmp_rax_0(buf, o);
            let ghost through_call = through_mov + call_rax_bytes();
            proof {
                lemma_put_put(s0, index as int, through_call, cmp_rax_0_bytes());
            }
            let o = write_je(buf, o, d);
            proof {
                lemma_put_put(s0, index as int, through_call + cmp_rax_0_bytes(), je_bytes(d));
            }
            o
        },
        Opcode::CallFunction => {
            if ins.operand != 1 {
                return None;
            }
            write_call(buf, index, false, t.invoke)
        },
        _ => return None,
    };
    let ghost rb = recipe(ins, act@, *t)->0;
    assert(buf@ == put(s0, index as int, rb) && end == index + rb.len());
    let mut o = end;
    while o < limit
        invariant
            limit == index + SLOT_WIDTH,
            limit <= s0.len(),
            buf@.len() == s0.len(),
            end == index + rb.len(),
            end <= o <= index + SLOT_WIDTH,
            buf@ == put(s0, index as int, rb + nops(o - end)),
        decreases limit - o,
    {
        let ghost before = rb + nops(o - end);
        o = write_nop(buf, o);
        proof {
            lemma_put_put(s0, index as int, before, nop_bytes());
            assert(before + nop_bytes() =~= rb + nops(o - end));
        }
    }
    Some(o)
}

/// Translates `act`; `None` means "not compiled" and leaves the caller to
/// interpret the frame.
pub fn translate(act: &Activation, t: &Trampolines) -> (r: Option<Vec<u8>>)
    requires
        PROLOGUE_LEN + act.code@.len() / 2 * SLOT_WIDTH <= usize::MAX,
    ensures
        r matches Some(v) ==> translation(act@, *t) == Some(v@),
        r is None ==> translation(act@, *t) is None,
{
    let ins = match decode(act.code.as_slice()) {
        Some(ins) => ins,
        None => return None,
    };
    let n = ins.len();
    let total = PROLOGUE_LEN + n * SLOT_WIDTH;
    let mut buf: Vec<u8> = Vec::new();
    while buf.len() < total
        invariant
            buf@.len() <= total,
        decreases total - buf@.len(),
    {
        buf.push(0);
    }
    let ghost s0 = buf@;
    let o = write_endbr64(&mut buf, 0);
    let mut offset = write_push_rbp(&mut buf, o);
    proof {
        lemma_put_put(s0, 0, endbr64_bytes(), push_rbp_bytes());
    }
    let mut k: usize = 0;
    while k < n
        invariant
            n == ins@.len(),
            ins@ == decoded(act.code@),
            total == PROLOGUE_LEN + n * SLOT_WIDTH,
            buf@.len() == total,
            k <= n,
            offset == PROLOGUE_LEN + k * SLOT_WIDTH,
            emitted(ins@.subrange(0, k as int), act@, *t) matches Some(body) && buf@.subrange(
                0,
                offset as int,
            ) == prologue() + body,
        decreases n - k,
    {
        let ghost prev = buf@;
        let ghost body = emitted(ins@.subrange(0, k as int), act@, *t)->0;
        assert(ins@.subrange(0, k + 1).drop_last() =~= ins@.subrange(0, k as int));
        match write_slot(&mut buf, offset, ins[k], act, t) {
            Some(o) => {
                let ghost b = slot(ins@[k as int], act@, *t)->0;
                proof {
                    assert(buf@.subrange(0, o as int) =~= prev.subrange(0, offset as int) + b);
                }
                offset = o;
            },
            None => {
                proof {
                    lemma_unsupported_prefix(ins@, k as int, act@, *t);
                }
                return None;
            },
        }
        k = k + 1;
    }
    assert(ins@.subrange(0, n as int) =~= ins@);
    assert(buf@.subrange(0, offset as int) =~= buf@);
    Some(buf)
}

/// Once one block cannot be made, no longer stream can be translated.
proof fn lemma_unsupported_prefix(ins: Seq<Instruction>, k: int, act: ActivationView, t: Trampolines)
    requires
        0 <= k < ins.len(),
        slot(ins[k], act, t) is None,
    ensures
        forall|m: int| k < m <= ins.len() ==> emitted(#[trigger] ins.subrange(0, m), act, t) is None,
{
    assert forall|m: int| k < m <= ins.len() implies emitted(#[trigger] ins.subrange(0, m), act, t) is None by {
        lemma_unsupported_at(ins, k, m, act, t);
    }
}

proof fn lemma_unsupported_at(ins: Seq<Instruction>, k: int, m: int, act: ActivationView, t: Trampolines)
    requires
        0 <= k < m <= ins.len(),
        slot(ins[k], act, t) is None,
    ensures
        emitted(ins.subrange(0, m), act, t) is None,
    decreases m,
{
    assert(ins.subrange(0, m).drop_last() =~= ins.subrange(0, m - 1));
    if m - 1 > k {
        lemma_unsupported_at(ins, k, m - 1, act, t);
    }
}

/// Whether an instruction can be translated does not depend on where the
/// runtime adapters live.
pub proof fn lemma_supported(ins: Instruction, act: ActivationView, t: Trampolines)
    ensures
        supported(ins, act) <==> recipe(ins, act, t) is Some,
{
}

/// Translation is a function of the frame's contents and the adapters'
/// addresses alone: equal inputs give byte-identical code, wherever the code
/// is later placed.
pub proof fn lemma_translation_pure(a: Activation, b: Activation, t: Trampolines)
    requires
        a@ == b@,
    ensures
        translation(a@, t) == translation(b@, t),
{
}

proof fn lemma_blocks(ins: Seq<Instruction>, m: int, act: ActivationView, t: Trampolines)
    requires
        0 <= m <= ins.len(),
        forall|k: int| 0 <= k < ins.len() ==> supported(#[trigger] ins[k], act),
    ensures
        emitted(ins.subrange(0, m), act, t) matches Some(body) && body.len() == m * SLOT_WIDTH
            && forall|k: int|
            0 <= k < m ==> body.subrange(k * SLOT_WIDTH, (k + 1) * SLOT_WIDTH) == slot(
                #[trigger] ins[k],
                act,
                t,
            )->0,
    decreases m,
{
    if m > 0 {
        lemma_blocks(ins, m - 1, act, t);
        assert(ins.subrange(0, m).drop_last() =~= ins.subrange(0, m - 1));
        lemma_supported(ins[m - 1], act, t);
        lemma_recipe_fits(ins[m - 1], act, t);
        let prev = emitted(ins.subrange(0, m - 1), act, t)->0;
        let b = slot(ins[m - 1], act, t)->0;
        let body = prev + b;
        assert(body.len() == m * SLOT_WIDTH) by (nonlinear_arith)
            requires
                prev.len() == (m - 1) * SLOT_WIDTH,
                b.len() == SLOT_WIDTH,
                body.len() == prev.len() + b.len(),
        ;
        assert forall|k: int| 0 <= k < m implies body.subrange(k * SLOT_WIDTH, (k + 1) * SLOT_WIDTH)
            == slot(#[trigger] ins[k], act, t)->0 by {
            if k < m - 1 {
                assert((k + 1) * SLOT_WIDTH <= (m - 1) * SLOT_WIDTH) by (nonlinear_arith)
                    requires
                        k < m - 1,
                ;
                assert(body.subrange(k * SLOT_WIDTH, (k + 1) * SLOT_WIDTH) =~= prev.subrange(
                    k * SLOT_WIDTH,
                    (k + 1) * SLOT_WIDTH,
                ));
            } else {
                assert(body.subrange(k * SLOT_WIDTH, (k + 1) * SLOT_WIDTH) =~= b);
            }
        }
    }
}

/// When every instruction of an even-length stream can be translated, the
/// code is the entry sequence followed by exactly `SLOT_WIDTH` bytes per
/// instruction, the block of instruction `k` starting at
/// `PROLOGUE_LEN + k * SLOT_WIDTH`.
pub proof fn lemma_slot_invariant(act: ActivationView, t: Trampolines)
    requires
        act.code.len() % 2 == 0,
        forall|k: int| 0 <= k < decoded(act.code).len() ==> supported(#[trigger] decoded(act.code)[k], act),
    ensures
        translation(act, t) matches Some(code) && code.len() - PROLOGUE_LEN == decoded(act.code).len()
            * SLOT_WIDTH && code.subrange(0, PROLOGUE_LEN as int) == prologue() && forall|k: int|
            0 <= k < decoded(act.code).len() ==> code.subrange(
                PROLOGUE_LEN + k * SLOT_WIDTH,
                PROLOGUE_LEN + (k + 1) * SLOT_WIDTH,
            ) == slot(#[trigger] decoded(act.code)[k], act, t)->0,
{
    let ins = decoded(act.code);
    let n = ins.len() as int;
    lemma_blocks(ins, n, act, t);
    assert(ins.subrange(0, n) =~= ins);
    let body = emitted(ins, act, t)->0;
    let code = prologue() + body;
    assert(code.subrange(0, PROLOGUE_LEN as int) =~= prologue());
    assert forall|k: int| 0 <= k < n implies code.subrange(
        PROLOGUE_LEN + k * SLOT_WIDTH,
        PROLOGUE_LEN + (k + 1) * SLOT_WIDTH,
    ) == slot(#[trigger] ins[k], act, t)->0 by {
        assert((k + 1) * SLOT_WIDTH <= n * SLOT_WIDTH) by (nonlinear_arith)
            requires
                k < n,
        ;
        assert(k * SLOT_WIDTH >= 0) by (nonlinear_arith)
            requires
                k >= 0,
        ;
        assert(code.subrange(PROLOGUE_LEN + k * SLOT_WIDTH, PROLOGUE_LEN + (k + 1) * SLOT_WIDTH)
            =~= body.subrange(k * SLOT_WIDTH, (k + 1) * SLOT_WIDTH));
    }
}

/// One instruction that cannot be translated, wherever it stands, makes the
/// whole stream "not compiled".
pub proof fn lemma_unsupported_not_compiled(act: ActivationView, t: Trampolines, k: int)
    requires
        0 <= k < decoded(act.code).len(),
        !supported(decoded(act.code)[k], act),
    ensures
        translation(act, t) is None,
{
    let ins = decoded(act.code);
    lemma_supported(ins[k], act, t);
    lemma_unsupported_at(ins, k, ins.len() as int, act, t);
    assert(ins.subrange(0, ins.len() as int) =~= ins);
}

/// The offset of the last byte of block `j`.
pub open spec fn block_last(j: int) -> int {
    PROLOGUE_LEN + (j + 1) * SLOT_WIDTH - 1
}

/// The layout that makes branch targets a matter of multiplication: in code
/// made from a fully translatable stream, the last byte of every block is a
/// no-op, and the conditional jump of a branch at instruction `k` ends at the
/// last byte of block `k`. Counted from there, a displacement of `d` whole
/// slots lands on the last byte of block `k + d` and falls through into block
/// `k + d + 1`.
pub proof fn lemma_branch_layout(act: ActivationView, t: Trampolines, k: int)
    requires
        act.code.len() % 2 == 0,
        forall|i: int| 0 <= i < decoded(act.code).len() ==> supported(#[trigger] decoded(act.code)[i], act),
        0 <= k < decoded(act.code).len(),
    ensures
        translation(act, t) matches Some(code) && (forall|j: int|
            0 <= j < decoded(act.code).len() ==> code[#[trigger] block_last(j)] == 0x90u8) && (
        decoded(act.code)[k].opcode == Opcode::PopJumpIfFalse ==> code.subrange(
            block_last(k) - 6,
            block_last(k),
        ) == je_bytes(branch_displacement(decoded(act.code)[k].operand) as i32)),
{
    let ins = decoded(act.code);
    lemma_slot_invariant(act, t);
    let code = translation(act, t)->0;
    assert forall|j: int| 0 <= j < ins.len() implies code[#[trigger] block_last(j)] == 0x90u8 by {
        let block = code.subrange(PROLOGUE_LEN + j * SLOT_WIDTH, PROLOGUE_LEN + (j + 1) * SLOT_WIDTH);
        assert(block == slot(ins[j], act, t)->0);
        lemma_supported(ins[j], act, t);
        lemma_recipe_fits(ins[j], act, t);
        assert(block[SLOT_WIDTH - 1] == 0x90u8);
        assert(block_last(j) == PROLOGUE_LEN + j * SLOT_WIDTH + (SLOT_WIDTH - 1)) by (nonlinear_arith);
    }
    if ins[k].opcode == Opcode::PopJumpIfFalse {
        let block = code.subrange(PROLOGUE_LEN + k * SLOT_WIDTH, PROLOGUE_LEN + (k + 1) * SLOT_WIDTH);
        assert(block == slot(ins[k], act, t)->0);
        let d = branch_displacement(ins[k].operand) as i32;
        assert(block.subrange(17, 23) =~= je_bytes(d));
        assert(block_last(k) - 6 == PROLOGUE_LEN + k * SLOT_WIDTH + 17) by (nonlinear_arith);
        assert(code.subrange(block_last(k) - 6, block_last(k)) =~= block.subrange(17, 23));
    }
}

} // verus!
