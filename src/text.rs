use vstd::prelude::*;

verus! {

/// ASCII decimal digits of `n`, most significant first, without leading zeros.
pub open spec fn nat_text(n: nat) -> Seq<u8>
    decreases n,
{
    if n < 10 {
        seq![(48 + n) as u8]
    } else {
        nat_text(n / 10).push((48 + n % 10) as u8)
    }
}

/// ASCII decimal form of `n`, with a leading `-` when negative.
pub open spec fn int_text(n: int) -> Seq<u8> {
    if n < 0 {
        seq![45u8] + nat_text((-n) as nat)
    } else {
        nat_text(n as nat)
    }
}

/// The line `show` prints: both numbers, a space between, a newline after.
pub open spec fn pair_line(a: int, c: int) -> Seq<u8> {
    int_text(a) + seq![32u8] + int_text(c) + seq![10u8]
}

/// A line holding one number.
pub open spec fn single_line(a: int) -> Seq<u8> {
    int_text(a) + seq![10u8]
}

fn push_nat(out: &mut Vec<u8>, n: u64)
    ensures
        final(out)@ == old(out)@ + nat_text(n as nat),
    decreases n,
{
    if n >= 10 {
        push_nat(out, n / 10);
    }
    out.push(48u8 + (n % 10) as u8);
}

/// Appends the decimal form of `n` to `out`.
pub fn push_int(out: &mut Vec<u8>, n: i64)
    ensures
        final(out)@ == old(out)@ + int_text(n as int),
{
    if n < 0 {
        out.push(45u8);
        let m: u64 = (-(n + 1)) as u64 + 1;
        push_nat(out, m);
    } else {
        push_nat(out, n as u64);
    }
}

/// Renders `a`, a space, `c` and a newline.
pub fn render_pair(a: i64, c: i32) -> (line: Vec<u8>)
    ensures
        line@ == pair_line(a as int, c as int),
{
    let mut line: Vec<u8> = Vec::new();
    push_int(&mut line, a);
    line.push(32u8);
    push_int(&mut line, c as i64);
    line.push(10u8);
    line
}

/// Renders `a` and a newline.
pub fn render_single(a: i64) -> (line: Vec<u8>)
    ensures
        line@ == single_line(a as int),
{
    let mut line: Vec<u8> = Vec::new();
    push_int(&mut line, a);
    line.push(10u8);
    line
}

} // verus!
