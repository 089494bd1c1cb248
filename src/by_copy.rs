use vstd::prelude::*;
use crate::record::{START_A, START_C};
use crate::text::{pair_line, render_pair, render_single, single_line};

verus! {

/// The nested record, duplicated whenever its holder is.
#[derive(Clone, Copy)]
pub struct CopyInner {
    pub c: i32,
}

/// The record passed by copy: `show` gets an independent duplicate.
#[derive(Clone, Copy)]
pub struct CopyOuter {
    pub a: i64,
    pub b: CopyInner,
}

impl CopyOuter {
    pub fn new(a: i64, c: i32) -> (r: CopyOuter)
        ensures
            r.a == a,
            r.b.c == c,
    {
        CopyOuter { a, b: CopyInner { c } }
    }

    /// The record the copy program starts from.
    pub fn initial() -> (r: CopyOuter)
        ensures
            r.a == START_A,
            r.b.c == START_C,
    {
        CopyOuter::new(START_A, START_C)
    }
}

/// Bumps `a` in its own duplicate and renders the line to print.
pub fn show(o: CopyOuter) -> (line: Vec<u8>)
    requires
        o.a < i64::MAX,
    ensures
        line@ == pair_line(o.a + 1, o.b.c as int),
{
    let mut o = o;
    o.a += 1;
    render_pair(o.a, o.b.c)
}

/// Passes a duplicate of `start` to `show`, then prints the caller's own `a`.
/// That second line is `start.a` whatever `show` did to its duplicate.
pub fn run_from(start: CopyOuter) -> (out: Vec<u8>)
    requires
        start.a < i64::MAX,
    ensures
        out@ == pair_line(start.a + 1, start.b.c as int) + single_line(start.a as int),
{
    let mut out = show(start);
    let mut tail = render_single(start.a);
    out.append(&mut tail);
    out
}

/// The copy program, from the starting record.
pub fn run() -> (out: Vec<u8>)
    ensures
        out@ == pair_line(START_A + 1, START_C as int) + single_line(START_A as int),
{
    run_from(CopyOuter::initial())
}

} // verus!
