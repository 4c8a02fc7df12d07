//! The two fixed greetings, as mathematical byte sequences and as the
//! executable buffers handed to the write calls.

use vstd::prelude::*;

verus! {

/// The bytes of `Hello from Rust!\n`, the greeting sent through the plain
/// write call.
pub open spec fn greeting_bytes() -> Seq<u8> {
    seq![
        0x48u8, 0x65u8, 0x6cu8, 0x6cu8, 0x6fu8, 0x20u8, 0x66u8, 0x72u8, 0x6fu8, 0x6du8, 0x20u8,
        0x52u8, 0x75u8, 0x73u8, 0x74u8, 0x21u8, 0x0au8,
    ]
}

/// The bytes of `Hello from a Rust syscall!\n`, the greeting sent through the
/// vectored write call.
pub open spec fn syscall_greeting_bytes() -> Seq<u8> {
    seq![
        0x48u8, 0x65u8, 0x6cu8, 0x6cu8, 0x6fu8, 0x20u8, 0x66u8, 0x72u8, 0x6fu8, 0x6du8, 0x20u8,
        0x61u8, 0x20u8, 0x52u8, 0x75u8, 0x73u8, 0x74u8, 0x20u8, 0x73u8, 0x79u8, 0x73u8, 0x63u8,
        0x61u8, 0x6cu8, 0x6cu8, 0x21u8, 0x0au8,
    ]
}

/// Everything the two-write program emits: the plain greeting followed
/// immediately by the syscall greeting.
pub open spec fn full_output_bytes() -> Seq<u8> {
    greeting_bytes() + syscall_greeting_bytes()
}

/// The buffer for the plain write call: exactly the bytes of
/// `Hello from Rust!\n`.
pub fn greeting() -> (r: Vec<u8>)
    ensures
        r@ == greeting_bytes(),
{
    let mut v: Vec<u8> = Vec::new();
    v.push(0x48);
    v.push(0x65);
    v.push(0x6c);
    v.push(0x6c);
    v.push(0x6f);
    v.push(0x20);
    v.push(0x66);
    v.push(0x72);
    v.push(0x6f);
    v.push(0x6d);
    v.push(0x20);
    v.push(0x52);
    v.push(0x75);
    v.push(0x73);
    v.push(0x74);
    v.push(0x21);
    v.push(0x0a);
    proof {
        assert(v@ =~= greeting_bytes());
    }
    v
}

/// The buffer for the vectored write call: exactly the bytes of
/// `Hello from a Rust syscall!\n`.
pub fn syscall_greeting() -> (r: Vec<u8>)
    ensures
        r@ == syscall_greeting_bytes(),
{
    let mut v: Vec<u8> = Vec::new();
    v.push(0x48);
    v.push(0x65);
    v.push(0x6c);
    v.push(0x6c);
    v.push(0x6f);
    v.push(0x20);
    v.push(0x66);
    v.push(0x72);
    v.push(0x6f);
    v.push(0x6d);
    v.push(0x20);
    v.push(0x61);
    v.push(0x20);
    v.push(0x52);
    v.push(0x75);
    v.push(0x73);
    v.push(0x74);
    v.push(0x20);
    v.push(0x73);
    v.push(0x79);
    v.push(0x73);
    v.push(0x63);
    v.push(0x61);
    v.push(0x6c);
    v.push(0x6c);
    v.push(0x21);
    v.push(0x0a);
    proof {
        assert(v@ =~= syscall_greeting_bytes());
    }
    v
}

} // verus!
