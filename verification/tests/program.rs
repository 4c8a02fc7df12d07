use skel_rust::program::{run_variant_one, run_variant_two, OutputStream};

#[test]
fn variant_one_writes_exact_greeting() {
    let mut out = OutputStream::new();
    let code = run_variant_one(&mut out);
    assert_eq!(out.written, b"Hello from Rust!\n".to_vec());
    assert_eq!(out.write_count, 1);
    assert_eq!(code, 0);
}

#[test]
fn variant_two_writes_both_messages() {
    let mut out = OutputStream::new();
    let code = run_variant_two(&mut out);
    assert_eq!(
        out.written,
        b"Hello from Rust!\nHello from a Rust syscall!\n".to_vec()
    );
    assert_eq!(out.write_count, 2);
    assert_eq!(code, 0);
}

#[test]
fn variant_two_output_starts_with_variant_one_output() {
    let mut one = OutputStream::new();
    run_variant_one(&mut one);
    let mut two = OutputStream::new();
    run_variant_two(&mut two);
    assert_eq!(two.written[..one.written.len()], one.written[..]);
    assert_eq!(
        two.written[one.written.len()..],
        b"Hello from a Rust syscall!\n"[..]
    );
}

#[test]
fn repeated_variant_one_runs_are_identical() {
    let mut first = OutputStream::new();
    run_variant_one(&mut first);
    let mut second = OutputStream::new();
    run_variant_one(&mut second);
    assert_eq!(first.written, second.written);
}

#[test]
fn repeated_variant_two_runs_are_identical() {
    let mut first = OutputStream::new();
    run_variant_two(&mut first);
    let mut second = OutputStream::new();
    run_variant_two(&mut second);
    assert_eq!(first.written, second.written);
}

#[test]
fn new_stream_is_empty() {
    let out = OutputStream::new();
    assert!(out.written.is_empty());
    assert_eq!(out.write_count, 0);
}

#[test]
fn writes_append_in_order() {
    let mut out = OutputStream::new();
    out.write(&vec![1u8, 2, 3]);
    out.write(&vec![4u8, 5]);
    assert_eq!(out.written, vec![1u8, 2, 3, 4, 5]);
    assert_eq!(out.write_count, 2);
}

#[test]
fn empty_write_adds_no_bytes_but_counts() {
    let mut out = OutputStream::new();
    out.write(&Vec::new());
    assert!(out.written.is_empty());
    assert_eq!(out.write_count, 1);
}

#[test]
fn runs_append_after_earlier_output() {
    let mut out = OutputStream::new();
    out.write(&vec![0u8, 255]);
    run_variant_two(&mut out);
    assert_eq!(out.written[..2], [0u8, 255][..]);
    assert_eq!(
        out.written[2..],
        b"Hello from Rust!\nHello from a Rust syscall!\n"[..]
    );
    assert_eq!(out.write_count, 3);
}
