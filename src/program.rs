use vstd::prelude::*;
use crate::record::{START_A, START_C};
use crate::text::{pair_line, single_line};
use crate::{by_copy, by_move, by_ref};

verus! {

/// Which way the record is passed to `show`.
#[derive(Clone, Copy, Debug, PartialEq, Eq, Structural)]
pub enum Program {
    ByRef,
    ByMove,
    ByCopy,
}

/// Every byte a program writes, in order. It depends on the program alone.
pub open spec fn program_output(p: Program) -> Seq<u8> {
    match p {
        Program::ByRef => pair_line(START_A + 1, START_C as int),
        Program::ByMove => pair_line(START_A + 1, START_C as int),
        Program::ByCopy => pair_line(START_A + 1, START_C as int) + single_line(START_A as int),
    }
}

/// Runs program `p` and returns what it writes to standard output.
pub fn run(p: Program) -> (out: Vec<u8>)
    ensures
        out@ == program_output(p),
{
    match p {
        Program::ByRef => {
            let (line, _) = by_ref::run();
            line
        },
        Program::ByMove => by_move::run(),
        Program::ByCopy => by_copy::run(),
    }
}

/// The reference and move programs each write the single line `2 2`; the
/// copy program writes `2 2` and then `1`, each line ending in a newline.
pub proof fn lemma_program_bytes()
    ensures
        program_output(Program::ByRef) == seq![50u8, 32u8, 50u8, 10u8],
        program_output(Program::ByMove) == seq![50u8, 32u8, 50u8, 10u8],
        program_output(Program::ByCopy) == seq![50u8, 32u8, 50u8, 10u8, 49u8, 10u8],
{
    assert(pair_line(2, 2) =~= seq![50u8, 32u8, 50u8, 10u8]);
    assert(single_line(1) =~= seq![49u8, 10u8]);
    assert(program_output(Program::ByCopy) =~= seq![50u8, 32u8, 50u8, 10u8, 49u8, 10u8]);
}

/// Running a program again writes byte for byte what it wrote before: any
/// two outputs that `run` may return for the same program are equal.
pub proof fn lemma_rerun_identical(p: Program, first: Seq<u8>, second: Seq<u8>)
    requires
        first == program_output(p),
        second == program_output(p),
    ensures
        first == second,
{
}

} // verus!
