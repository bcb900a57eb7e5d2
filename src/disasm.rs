//! A listing of generated code for diagnostics: each native instruction with
//! its address and text, and at the start of each block the byte-code
//! instruction that the block was made from.
use vstd::prelude::*;

use iced_x86::{Decoder, DecoderOptions, Formatter, IntelFormatter};

use crate::decode::Instruction;
use crate::translate::{PROLOGUE_LEN, SLOT_WIDTH};

verus! {

/// The longest x86-64 instruction, in bytes.
pub const MAX_INSTRUCTION_LEN: usize = 15;

/// The bytes that the instruction at `pos` may occupy.
pub open spec fn window(code: Seq<u8>, pos: int) -> Seq<u8> {
    code.subrange(
        pos,
        if pos + MAX_INSTRUCTION_LEN <= code.len() {
            pos + MAX_INSTRUCTION_LEN
        } else {
            code.len() as int
        },
    )
}

/// How many bytes the 64-bit instruction at the start of `window` takes.
pub uninterp spec fn decoded_length(window: Seq<u8>) -> nat;

/// The Intel-syntax text of the 64-bit instruction at the start of `window`,
/// placed at address `ip`.
pub uninterp spec fn intel_text(window: Seq<u8>, ip: u64) -> Seq<char>;

/// Relies on iced_x86's `Decoder::decode` for the length of the instruction at
/// `pos` (one byte at least while a byte is left, at most fifteen, never past
/// the end of the input) and on `IntelFormatter::format` for its text.
#[verifier::external_body]
fn decode_one(code: &[u8], pos: usize, ip: u64) -> (r: (usize, String))
    requires
        pos < code@.len(),
    ensures
        r.0 == decoded_length(window(code@, pos as int)),
        1 <= r.0 <= MAX_INSTRUCTION_LEN,
        pos + r.0 <= code@.len(),
        r.1@ == intel_text(window(code@, pos as int), ip),
{
    let mut decoder = Decoder::with_ip(64, &code[pos..], ip, DecoderOptions::NONE);
    let instruction = decoder.decode();
    let mut formatter = IntelFormatter::new();
    formatter.options_mut().set_digit_separator("`");
    formatter.options_mut().set_first_operand_char_index(10);
    let mut text = String::new();
    formatter.format(&instruction, &mut text);
    (instruction.len(), text)
}

/// One line of a listing.
#[derive(Clone, Debug)]
pub struct ListingLine {
    /// The byte-code instruction whose block starts at this line, if any.
    pub source: Option<Instruction>,
    /// The address of the native instruction.
    pub ip: u64,
    /// Its offset in the code.
    pub start: usize,
    /// Its length in bytes.
    pub len: usize,
    /// Its text.
    pub text: String,
}

/// The byte-code instruction whose block starts at native offset `pos`.
pub open spec fn block_head(source: Seq<Instruction>, pos: int) -> Option<Instruction> {
    if pos >= PROLOGUE_LEN && (pos - PROLOGUE_LEN) % (SLOT_WIDTH as int) == 0 && (pos
        - PROLOGUE_LEN) / (SLOT_WIDTH as int) < source.len() {
        Some(source[(pos - PROLOGUE_LEN) / (SLOT_WIDTH as int)])
    } else {
        None
    }
}

/// What the line for the instruction at `line.start` says.
pub open spec fn line_of(code: Seq<u8>, source: Seq<Instruction>, base: u64, line: ListingLine) -> bool {
    let ip = vstd::wrapping::u64_specs::wrapping_add(base, line.start as u64);
    &&& line.len == decoded_length(window(code, line.start as int))
    &&& line.ip == ip
    &&& line.text@ == intel_text(window(code, line.start as int), ip)
    &&& line.source == block_head(source, line.start as int)
}

/// `lines` lists `code`, placed at `base`, from its first byte to its last:
/// each line starts where the one before it ends.
pub open spec fn listing_of(
    code: Seq<u8>,
    source: Seq<Instruction>,
    base: u64,
    lines: Seq<ListingLine>,
) -> bool {
    &&& forall|i: int| 0 <= i < lines.len() ==> line_of(code, source, base, #[trigger] lines[i])
    &&& forall|i: int| 0 <= i < lines.len() ==> 1 <= #[trigger] lines[i].len
    &&& lines.len() > 0 ==> lines[0].start == 0
    &&& forall|i: int|
        0 < i < lines.len() ==> #[trigger] lines[i].start == lines[i - 1].start + lines[i - 1].len
    &&& lines.len() == 0 <==> code.len() == 0
    &&& lines.len() > 0 ==> lines.last().start + lines.last().len == code.len()
}

/// The listing of `code` placed at `base`, with the blocks made from `source`.
pub fn disassemble(code: &[u8], source: &Vec<Instruction>, base: u64) -> (r: Vec<ListingLine>)
    ensures
        listing_of(code@, source@, base, r@),
{
    let mut lines: Vec<ListingLine> = Vec::new();
    let mut pos: usize = 0;
    while pos < code.len()
        invariant
            pos <= code@.len(),
            forall|i: int| 0 <= i < lines@.len() ==> line_of(code@, source@, base, #[trigger] lines@[i]),
            forall|i: int| 0 <= i < lines@.len() ==> 1 <= #[trigger] lines@[i].len,
            lines@.len() > 0 ==> lines@[0].start == 0,
            forall|i: int|
                0 < i < lines@.len() ==> #[trigger] lines@[i].start == lines@[i - 1].start
                    + lines@[i - 1].len,
            lines@.len() == 0 <==> pos == 0,
            lines@.len() > 0 ==> lines@.last().start + lines@.last().len == pos,
        decreases code@.len() - pos,
    {
        let ip = base.wrapping_add(pos as u64);
        let (len, text) = decode_one(code, pos, ip);
        let source_ins = if pos >= PROLOGUE_LEN && (pos - PROLOGUE_LEN) % SLOT_WIDTH == 0 && (pos
            - PROLOGUE_LEN) / SLOT_WIDTH < source.len() {
            Some(source[(pos - PROLOGUE_LEN) / SLOT_WIDTH])
        } else {
            None
        };
        lines.push(ListingLine { source: source_ins, ip, start: pos, len, text });
        pos = pos + len;
    }
    lines
}

} // verus!
