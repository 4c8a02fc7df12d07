//! A model of the write-only output stream and the two program variants that
//! write to it. The stream records every byte written and how many write
//! calls delivered them, so the contracts pin down the whole observable
//! output of a run.

use vstd::prelude::*;
use crate::messages::{greeting, greeting_bytes, syscall_greeting, syscall_greeting_bytes,
    full_output_bytes};

verus! {

/// The output stream as the program sees it: a write-only byte sink. In the
/// running binary this is file descriptor 2; here it records every byte that
/// has landed on it, in order, and how many write calls delivered them.
pub struct OutputStream {
    pub written: Vec<u8>,
    pub write_count: usize,
}

impl OutputStream {
    /// A stream nothing has been written to yet.
    pub fn new() -> (r: OutputStream)
        ensures
            r.written@ == Seq::<u8>::empty(),
            r.write_count == 0,
    {
        OutputStream { written: Vec::new(), write_count: 0 }
    }

    /// One write call: the bytes of `data` land at the end of the stream,
    /// unmodified and in order.
    pub fn write(&mut self, data: &Vec<u8>)
        requires
            old(self).write_count < usize::MAX,
        ensures
            final(self).written@ == old(self).written@ + data@,
            final(self).write_count == old(self).write_count + 1,
    {
        let mut i: usize = 0;
        while i < data.len()
            invariant
                i <= data@.len(),
                self.written@ == old(self).written@ + data@.subrange(0, i as int),
                self.write_count == old(self).write_count,
            decreases data@.len() - i,
        {
            proof {
                assert(data@.subrange(0, i + 1 as int)
                    =~= data@.subrange(0, i as int).push(data@[i as int]));
            }
            self.written.push(data[i]);
            i = i + 1;
        }
        proof {
            assert(data@.subrange(0, data@.len() as int) =~= data@);
        }
        self.write_count = self.write_count + 1;
    }
}

/// The first program variant: one write call sends the plain greeting to the
/// stream, and the process exits with code 0. The write is fire-and-forget:
/// nothing is read back, nothing retried.
pub fn run_variant_one(out: &mut OutputStream) -> (exit_code: isize)
    requires
        old(out).write_count < usize::MAX,
    ensures
        final(out).written@ == old(out).written@ + greeting_bytes(),
        final(out).write_count == old(out).write_count + 1,
        exit_code == 0,
{
    let message = greeting();
    out.write(&message);
    0
}

/// The second program variant: the plain greeting through one write call,
/// then the syscall greeting through a second, vectored one; the stream ends
/// up with the two messages back to back, and the process exits with code 0.
pub fn run_variant_two(out: &mut OutputStream) -> (exit_code: isize)
    requires
        old(out).write_count + 2 <= usize::MAX,
    ensures
        final(out).written@ == old(out).written@ + full_output_bytes(),
        final(out).write_count == old(out).write_count + 2,
        exit_code == 0,
{
    let message = greeting();
    out.write(&message);
    let message2 = syscall_greeting();
    out.write(&message2);
    proof {
        assert(out.written@ =~= old(out).written@ + full_output_bytes());
    }
    0
}

/// The second variant's output extends the first variant's: it begins with
/// exactly the plain greeting, and what follows is exactly the syscall
/// greeting.
pub proof fn lemma_variant_two_extends_variant_one()
    ensures
        full_output_bytes().take(greeting_bytes().len() as int) == greeting_bytes(),
        full_output_bytes().skip(greeting_bytes().len() as int) == syscall_greeting_bytes(),
{
    assert(full_output_bytes().take(greeting_bytes().len() as int) =~= greeting_bytes());
    assert(full_output_bytes().skip(greeting_bytes().len() as int) =~= syscall_greeting_bytes());
}

/// Idempotence: a run appends the same bytes to the stream every time. Two
/// runs of the two-write program, whatever each stream held beforehand,
/// append byte-identical output.
pub proof fn lemma_runs_append_identical_bytes(
    before1: Seq<u8>,
    after1: Seq<u8>,
    before2: Seq<u8>,
    after2: Seq<u8>,
)
    requires
        after1 == before1 + full_output_bytes(),
        after2 == before2 + full_output_bytes(),
    ensures
        after1.skip(before1.len() as int) == after2.skip(before2.len() as int),
{
    assert(after1.skip(before1.len() as int) =~= full_output_bytes());
    assert(after2.skip(before2.len() as int) =~= full_output_bytes());
}

} // verus!
