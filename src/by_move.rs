use vstd::prelude::*;
use crate::record::{Outer, START_A, START_C};
use crate::text::{pair_line, render_pair};

verus! {

/// Takes the record by move, bumps `a` in its own binding and renders the
/// line to print.
pub fn show(o: Outer) -> (line: Vec<u8>)
    requires
        o.a < i64::MAX,
    ensures
        line@ == pair_line(o.a + 1, o.b.c as int),
{
    let mut o = o;
    o.a += 1;
    render_pair(o.a, o.b.c)
}

/// Hands `start` over to `show`; the caller keeps nothing to read afterwards.
pub fn run_from(start: Outer) -> (out: Vec<u8>)
    requires
        start.a < i64::MAX,
    ensures
        out@ == pair_line(start.a + 1, start.b.c as int),
{
    show(start)
}

/// The move program, from the starting record.
pub fn run() -> (out: Vec<u8>)
    ensures
        out@ == pair_line(START_A + 1, START_C as int),
{
    run_from(Outer::initial())
}

} // verus!
