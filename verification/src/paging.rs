//! The layout of program memory.
//!
//! Program memory holds 96 instructions in 6 pages of 16. One page at a time
//! is visible on the bus: the page select register names it, and its 16
//! instructions take the 32 addresses from `PROG_MEM_BASE` on, two bytes per
//! instruction, high byte first.

use vstd::prelude::*;
use crate::error::ValidationError;
use crate::program::{Instruction, INSTRUCTIONS_PER_PAGE, MAX_INSTRUCTIONS, MAX_PAGES};

verus! {

/// Address of the first byte of program memory in the selected page.
pub const PROG_MEM_BASE: u8 = 0x50;

/// Number of bytes of one page of program memory: two for each instruction.
pub const PAGE_BYTES: u8 = 32;

/// Accepts the page numbers 0 to 5.
pub fn validate_page(page: u8) -> (r: Result<(), ValidationError>)
    ensures
        page < MAX_PAGES ==> r == Ok::<(), ValidationError>(()),
        page >= MAX_PAGES ==> r == Err::<(), ValidationError>(ValidationError::PageIndex { page }),
{
    if page < MAX_PAGES {
        return Ok(());
    }
    Err(ValidationError::PageIndex { page })
}

/// Accepts the instruction slots 0 to 15 of a page.
pub fn validate_instruction_index(index: u8) -> (r: Result<(), ValidationError>)
    ensures
        index < INSTRUCTIONS_PER_PAGE ==> r == Ok::<(), ValidationError>(()),
        index >= INSTRUCTIONS_PER_PAGE ==> r == Err::<(), ValidationError>(
            ValidationError::InstructionIndex { index },
        ),
{
    if index < INSTRUCTIONS_PER_PAGE {
        return Ok(());
    }
    Err(ValidationError::InstructionIndex { index })
}

/// Accepts as many instructions as a page holds.
pub fn validate_per_page_instruction_count(instructions: &[Instruction]) -> (r: Result<
    (),
    ValidationError,
>)
    ensures
        instructions@.len() <= INSTRUCTIONS_PER_PAGE ==> r == Ok::<(), ValidationError>(()),
        instructions@.len() > INSTRUCTIONS_PER_PAGE ==> r == Err::<(), ValidationError>(
            ValidationError::PageLength { len: instructions@.len() as usize },
        ),
{
    if instructions.len() <= INSTRUCTIONS_PER_PAGE as usize {
        return Ok(());
    }
    Err(ValidationError::PageLength { len: instructions.len() })
}

/// Accepts as many instructions as program memory holds.
pub fn validate_total_instruction_count(instructions: &[Instruction]) -> (r: Result<
    (),
    ValidationError,
>)
    ensures
        instructions@.len() <= MAX_INSTRUCTIONS ==> r == Ok::<(), ValidationError>(()),
        instructions@.len() > MAX_INSTRUCTIONS ==> r == Err::<(), ValidationError>(
            ValidationError::ProgramLength { len: instructions@.len() as usize },
        ),
{
    if instructions.len() <= MAX_INSTRUCTIONS as usize {
        return Ok(());
    }
    Err(ValidationError::ProgramLength { len: instructions.len() })
}

/// Accepts the program counters that point into program memory.
pub fn validate_program_counter(counter: u8) -> (r: Result<(), ValidationError>)
    ensures
        counter < MAX_INSTRUCTIONS ==> r == Ok::<(), ValidationError>(()),
        counter >= MAX_INSTRUCTIONS ==> r == Err::<(), ValidationError>(
            ValidationError::ProgramCounter { counter },
        ),
{
    if counter < MAX_INSTRUCTIONS {
        return Ok(());
    }
    Err(ValidationError::ProgramCounter { counter })
}

/// Address of the high byte of the instruction in slot `index` of the
/// selected page; the low byte follows at the next address.
pub fn instruction_address(index: u8) -> (r: Result<u8, ValidationError>)
    ensures
        index < INSTRUCTIONS_PER_PAGE ==> r == Ok::<u8, ValidationError>(
            (PROG_MEM_BASE + 2 * index) as u8,
        ),
        index >= INSTRUCTIONS_PER_PAGE ==> r == Err::<u8, ValidationError>(
            ValidationError::InstructionIndex { index },
        ),
{
    match validate_instruction_index(index) {
        Ok(()) => Ok(PROG_MEM_BASE + index * 2),
        Err(e) => Err(e),
    }
}

/// Number of pages that a program of `len` instructions takes.
pub open spec fn page_count(len: nat) -> nat {
    (len + 15) / 16
}

/// The instructions of `program` that go to page `page`: those from position
/// `16 * page` up to, but not including, position `16 * page + 16`, as far
/// as the program reaches.
pub open spec fn program_page(program: Seq<Instruction>, page: nat) -> Seq<Instruction> {
    let first = if 16 * page <= program.len() {
        16 * page
    } else {
        program.len()
    };
    let end = if first + 16 <= program.len() {
        first + 16
    } else {
        program.len()
    };
    program.subrange(first as int, end as int)
}

/// The bytes of a run of instructions as they lie in program memory: high
/// byte, then low byte, of each instruction in turn.
pub open spec fn instruction_bytes(instructions: Seq<Instruction>) -> Seq<u8> {
    Seq::new(
        2 * instructions.len(),
        |i: int|
            if i % 2 == 0 {
                instructions[i / 2].msb
            } else {
                instructions[i / 2].lsb
            },
    )
}

/// The instructions that a run of bytes from program memory holds; a last
/// byte without a partner is left out.
pub open spec fn bytes_instructions(bytes: Seq<u8>) -> Seq<Instruction> {
    Seq::new(
        bytes.len() / 2,
        |i: int| Instruction { msb: bytes[2 * i], lsb: bytes[2 * i + 1] },
    )
}

/// Splits a program into pages, in order. Every page but the last holds 16
/// instructions, the last holds what is left; no page is empty.
pub fn pages(instructions: &[Instruction]) -> (r: Vec<Vec<Instruction>>)
    ensures
        r@.len() == page_count(instructions@.len()),
        forall|p: int|
            0 <= p < r@.len() ==> (#[trigger] r@[p])@ == program_page(instructions@, p as nat),
{
    let n = instructions.len();
    let mut out: Vec<Vec<Instruction>> = Vec::new();
    let mut start: usize = 0;
    while start < n
        invariant
            n == instructions@.len(),
            start <= n,
            start % 16 == 0 || start == n,
            out@.len() == page_count(start as nat),
            forall|p: int|
                0 <= p < out@.len() ==> (#[trigger] out@[p])@ == program_page(
                    instructions@,
                    p as nat,
                ),
        decreases n - start,
    {
        let end: usize = if n - start > 16 {
            start + 16
        } else {
            n
        };
        let mut page: Vec<Instruction> = Vec::new();
        let mut i: usize = start;
        while i < end
            invariant
                n == instructions@.len(),
                start <= i <= end <= n,
                page@ == instructions@.subrange(start as int, i as int),
            decreases end - i,
        {
            page.push(instructions[i]);
            i += 1;
        }
        out.push(page);
        start = end;
    }
    out
}

/// The bytes of a run of instructions as they lie in program memory.
pub fn page_bytes(instructions: &[Instruction]) -> (r: Vec<u8>)
    ensures
        r@ == instruction_bytes(instructions@),
{
    let mut bytes: Vec<u8> = Vec::new();
    let mut i: usize = 0;
    while i < instructions.len()
        invariant
            i <= instructions@.len(),
            bytes@ == instruction_bytes(instructions@.subrange(0, i as int)),
        decreases instructions@.len() - i,
    {
        bytes.push(instructions[i].msb);
        bytes.push(instructions[i].lsb);
        i += 1;
    }
    bytes
}

/// The instructions that a run of bytes read from program memory holds.
pub fn decode_instructions(bytes: &[u8]) -> (r: Vec<Instruction>)
    ensures
        r@ == bytes_instructions(bytes@),
{
    let mut out: Vec<Instruction> = Vec::new();
    let mut i: usize = 0;
    while i < bytes.len() / 2
        invariant
            i <= bytes@.len() / 2,
            out@.len() == i,
            forall|k: int| 0 <= k < i ==> out@[k] == bytes_instructions(bytes@)[k],
        decreases bytes@.len() / 2 - i,
    {
        out.push(Instruction { msb: bytes[2 * i], lsb: bytes[2 * i + 1] });
        i += 1;
    }
    out
}

/// The pages of a program are the program: put one after the other in order
/// they give it back, each holds at most 16 instructions, and a program that
/// fits program memory takes at most 6 of them.
pub proof fn lemma_pages_cover(program: Seq<Instruction>, position: nat)
    requires
        position < program.len(),
    ensures
        position / 16 < page_count(program.len()),
        program_page(program, position / 16).len() <= INSTRUCTIONS_PER_PAGE,
        position % 16 < program_page(program, position / 16).len(),
        program_page(program, position / 16)[(position % 16) as int] == program[position as int],
        program.len() <= MAX_INSTRUCTIONS ==> page_count(program.len()) <= MAX_PAGES,
{
}

/// How long each page is: 16 instructions but for the last, which holds the
/// rest of the program.
pub proof fn lemma_page_len(program: Seq<Instruction>, page: nat)
    requires
        page < page_count(program.len()),
    ensures
        page + 1 < page_count(program.len()) ==> program_page(program, page).len() == 16,
        page + 1 == page_count(program.len()) ==> program_page(program, page).len()
            == program.len() - 16 * page,
        1 <= program_page(program, page).len() <= 16,
{
}

/// Bytes written to program memory and read back give the instructions that
/// were written.
pub proof fn lemma_bytes_round_trip(instructions: Seq<Instruction>)
    ensures
        bytes_instructions(instruction_bytes(instructions)) == instructions,
{
}

} // verus!
