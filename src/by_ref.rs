use vstd::prelude::*;
use crate::record::{Outer, START_A, START_C};
use crate::text::{pair_line, render_pair};

verus! {

/// Bumps `a` in place through the handle and renders the line to print.
/// The caller sees the bump; `b` is left as it was.
pub fn show(o: &mut Outer) -> (line: Vec<u8>)
    requires
        old(o).a < i64::MAX,
    ensures
        final(o).a == old(o).a + 1,
        final(o).b == old(o).b,
        line@ == pair_line(old(o).a + 1, old(o).b.c as int),
{
    o.a += 1;
    render_pair(o.a, o.b.c)
}

/// The reference program: builds the starting record, lends it to `show`,
/// and returns what it prints together with the record as the caller holds
/// it afterwards.
pub fn run() -> (r: (Vec<u8>, Outer))
    ensures
        r.0@ == pair_line(START_A + 1, START_C as int),
        r.1.a == START_A + 1,
        r.1.b.c == START_C,
{
    let mut o = Outer::initial();
    let line = show(&mut o);
    (line, o)
}

} // verus!
