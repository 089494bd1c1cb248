use vstd::prelude::*;

verus! {

/// Value of `Outer::a` when a program builds its record.
pub const START_A: i64 = 1;

/// Value of `Outer::b.c` when a program builds its record.
pub const START_C: i32 = 2;

/// The nested record, held by value inside `Outer`.
pub struct Inner {
    pub c: i32,
}

/// The record handed to `show`: a counter `a` and an embedded `Inner`.
pub struct Outer {
    pub a: i64,
    pub b: Inner,
}

impl Outer {
    pub fn new(a: i64, c: i32) -> (r: Outer)
        ensures
            r.a == a,
            r.b.c == c,
    {
        Outer { a, b: Inner { c } }
    }

    /// The record every program starts from.
    pub fn initial() -> (r: Outer)
        ensures
            r.a == START_A,
            r.b.c == START_C,
    {
        Outer::new(START_A, START_C)
    }
}

} // verus!
