use arg_passing::by_copy::{self, CopyOuter};
use arg_passing::by_move;
use arg_passing::by_ref;
use arg_passing::program::{run, Program};
use arg_passing::record::{Outer, START_A, START_C};
use arg_passing::text::{push_int, render_pair, render_single};

#[test]
fn reference_program_prints_one_line() {
    assert_eq!(run(Program::ByRef), b"2 2\n".to_vec());
}

#[test]
fn move_program_prints_one_line() {
    assert_eq!(run(Program::ByMove), b"2 2\n".to_vec());
}

#[test]
fn copy_program_prints_two_lines() {
    assert_eq!(run(Program::ByCopy), b"2 2\n1\n".to_vec());
}

#[test]
fn reruns_are_byte_identical() {
    for p in [Program::ByRef, Program::ByMove, Program::ByCopy] {
        let first = run(p);
        for _ in 0..5 {
            assert_eq!(run(p), first);
        }
    }
}

#[test]
fn copy_keeps_caller_value() {
    for a in [-7i64, 0, 1, 41, 1_000_000] {
        let out = by_copy::run_from(CopyOuter::new(a, 2));
        let text = String::from_utf8(out).unwrap();
        let lines: Vec<&str> = text.lines().collect();
        assert_eq!(lines.len(), 2);
        assert_eq!(lines[0], format!("{} 2", a + 1));
        assert_eq!(lines[1], format!("{}", a));
    }
}

#[test]
fn copy_duplicate_is_independent() {
    let start = CopyOuter::initial();
    let line = by_copy::show(start);
    assert_eq!(line, b"2 2\n".to_vec());
    assert_eq!(start.a, 1);
    assert_eq!(start.b.c, 2);
}

#[test]
fn nested_field_never_changes() {
    let (line, after) = by_ref::run();
    assert_eq!(line, b"2 2\n".to_vec());
    assert_eq!(after.b.c, START_C);
    for p in [Program::ByRef, Program::ByMove, Program::ByCopy] {
        let text = String::from_utf8(run(p)).unwrap();
        let first = text.lines().next().unwrap();
        assert_eq!(first.split(' ').nth(1), Some("2"));
    }
}

#[test]
fn reference_show_mutates_caller() {
    let mut o = Outer::new(-3, 9);
    let line = by_ref::show(&mut o);
    assert_eq!(line, b"-2 9\n".to_vec());
    assert_eq!(o.a, -2);
    assert_eq!(o.b.c, 9);
    let (_, after) = by_ref::run();
    assert_eq!(after.a, START_A + 1);
}

#[test]
fn move_show_renders_bumped_value() {
    assert_eq!(by_move::show(Outer::new(99, -40)), b"100 -40\n".to_vec());
    assert_eq!(by_move::run_from(Outer::new(0, 0)), b"1 0\n".to_vec());
    assert_eq!(by_move::run(), b"2 2\n".to_vec());
}

#[test]
fn show_at_largest_start() {
    let line = by_move::show(Outer::new(i64::MAX - 1, i32::MIN));
    assert_eq!(line, format!("{} {}\n", i64::MAX, i32::MIN).into_bytes());
}

#[test]
fn render_edges() {
    assert_eq!(render_single(0), b"0\n".to_vec());
    assert_eq!(render_single(-5), b"-5\n".to_vec());
    assert_eq!(render_single(1234567890), b"1234567890\n".to_vec());
    assert_eq!(render_single(i64::MIN), format!("{}\n", i64::MIN).into_bytes());
    assert_eq!(render_single(i64::MAX), format!("{}\n", i64::MAX).into_bytes());
    assert_eq!(render_pair(10, -10), b"10 -10\n".to_vec());
    let mut buf = b"x=".to_vec();
    push_int(&mut buf, -100);
    assert_eq!(buf, b"x=-100".to_vec());
}
