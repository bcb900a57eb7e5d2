//! Turning a byte-code stream into instructions, two bytes each.
use vstd::prelude::*;

use crate::opcode::{opcode_of, Opcode};

verus! {

/// One decoded instruction: its opcode, its operand byte read as signed, and
/// the offset of its first byte in the stream.
#[derive(Clone, Copy, Debug, PartialEq, Eq, Structural)]
pub struct Instruction {
    pub opcode: Opcode,
    pub operand: i8,
    pub position: usize,
}

/// The `k`-th instruction of `code`.
pub open spec fn instruction_at(code: Seq<u8>, k: int) -> Instruction {
    Instruction {
        opcode: opcode_of(code[2 * k]),
        operand: code[2 * k + 1] as i8,
        position: (2 * k) as usize,
    }
}

/// The instructions of `code`, in stream order.
pub open spec fn decoded(code: Seq<u8>) -> Seq<Instruction> {
    Seq::new((code.len() / 2) as nat, |k: int| instruction_at(code, k))
}

/// Decodes `code`; `None` when its length is odd.
pub fn decode(code: &[u8]) -> (r: Option<Vec<Instruction>>)
    ensures
        r is None <==> code@.len() % 2 == 1,
        r matches Some(v) ==> v@ == decoded(code@),
{
    let n = code.len();
    if n % 2 == 1 {
        return None;
    }
    let mut out: Vec<Instruction> = Vec::new();
    let mut k: usize = 0;
    while k < n / 2
        invariant
            n == code@.len(),
            n % 2 == 0,
            k <= n / 2,
            out@ == decoded(code@).subrange(0, k as int),
        decreases n / 2 - k,
    {
        let ins = Instruction {
            opcode: Opcode::from_byte(code[2 * k]),
            operand: code[2 * k + 1] as i8,
            position: 2 * k,
        };
        out.push(ins);
        k = k + 1;
        assert(out@ =~= decoded(code@).subrange(0, k as int));
    }
    assert(out@ =~= decoded(code@));
    Some(out)
}

} // verus!
