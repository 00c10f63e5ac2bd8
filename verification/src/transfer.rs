//! Reading from and writing to a non-blocking descriptor.
use vstd::prelude::*;

verus! {

/// What came of one attempt on a descriptor.
#[derive(Clone, Copy, Debug, PartialEq, Eq, Structural)]
pub enum Attempt {
    /// Waiting for the descriptor to become ready failed.
    NotReady,
    /// The descriptor was not ready after all.
    WouldBlock,
    /// The call moved this many bytes.
    Moved(usize),
    /// The call failed otherwise.
    Failed,
}

/// What to do after an attempt to read.
#[derive(Clone, Copy, Debug, PartialEq, Eq, Structural)]
pub enum ReadStep {
    /// Try again.
    Retry,
    /// This many bytes were read; none means the end of the stream.
    Return(usize),
    /// Give up with the error of the attempt.
    Fail,
}

/// The number of bytes that a `read` or `write` call moved, or nothing where
/// its result says that it failed.
pub fn bytes_moved(n: isize) -> (r: Option<usize>)
    ensures
        n < 0 ==> r is None,
        n >= 0 ==> r == Some(n as usize),
{
    if n < 0 {
        None
    } else {
        Some(n as usize)
    }
}

/// What to do after an attempt to read: only a descriptor that was not ready
/// after all is tried again.
pub fn read_fd(attempt: Attempt) -> (r: ReadStep)
    ensures
        r == match attempt {
            Attempt::WouldBlock => ReadStep::Retry,
            Attempt::Moved(n) => ReadStep::Return(n),
            Attempt::NotReady | Attempt::Failed => ReadStep::Fail,
        },
{
    match attempt {
        Attempt::WouldBlock => ReadStep::Retry,
        Attempt::Moved(n) => ReadStep::Return(n),
        Attempt::NotReady => ReadStep::Fail,
        Attempt::Failed => ReadStep::Fail,
    }
}

/// What to do in the course of a write.
#[derive(Clone, Copy, Debug, PartialEq, Eq, Structural)]
pub enum WriteStep {
    /// Try to write what remains.
    Write,
    /// All is written.
    Done,
    /// Give up with the error of the attempt.
    Fail,
}

/// Writing all of some data.
#[derive(Debug)]
pub struct WriteAll<'a> {
    /// The data.
    pub data: &'a [u8],
    /// How much of it is written.
    pub written: usize,
}

impl<'a> WriteAll<'a> {
    /// No more is written than there is.
    pub open spec fn wf(&self) -> bool {
        self.written <= self.data@.len()
    }

    /// What is left to write.
    pub open spec fn remaining(&self) -> Seq<u8> {
        self.data@.skip(self.written as int)
    }

    /// Nothing is written yet.
    pub fn new(data: &'a [u8]) -> (r: WriteAll<'a>)
        ensures
            r.wf(),
            r.data@ == data@,
            r.remaining() == data@,
    {
        assert(data@.skip(0) =~= data@);
        WriteAll { data, written: 0 }
    }

    /// What to do next: write while something is left.
    pub fn next(&self) -> (r: WriteStep)
        requires
            self.wf(),
        ensures
            r == if self.remaining().len() == 0 {
                WriteStep::Done
            } else {
                WriteStep::Write
            },
    {
        if self.written == self.data.len() {
            WriteStep::Done
        } else {
            WriteStep::Write
        }
    }

    /// The bytes to hand to the next write call.
    pub fn rest(&self) -> (r: &'a [u8])
        requires
            self.wf(),
        ensures
            r@ == self.remaining(),
    {
        let r = vstd::slice::slice_subrange(self.data, self.written, self.data.len());
        assert(r@ =~= self.remaining());
        r
    }

    /// What to do after an attempt to write what remained: what was written is
    /// not written again, and only a descriptor that was not ready after all is
    /// tried again.
    pub fn write_all_fd(&mut self, attempt: Attempt) -> (r: WriteStep)
        requires
            old(self).wf(),
            attempt matches Attempt::Moved(n) ==> n <= old(self).remaining().len(),
        ensures
            final(self).wf(),
            final(self).data@ == old(self).data@,
            match attempt {
                Attempt::Moved(n) => {
                    &&& final(self).remaining() == old(self).remaining().skip(n as int)
                    &&& r == if n == old(self).remaining().len() {
                        WriteStep::Done
                    } else {
                        WriteStep::Write
                    }
                },
                Attempt::WouldBlock => {
                    &&& final(self).remaining() == old(self).remaining()
                    &&& r == if old(self).remaining().len() == 0 {
                        WriteStep::Done
                    } else {
                        WriteStep::Write
                    }
                },
                Attempt::NotReady | Attempt::Failed => {
                    &&& final(self).remaining() == old(self).remaining()
                    &&& r == WriteStep::Fail
                },
            },
    {
        match attempt {
            Attempt::Moved(n) => {
                let total: usize = self.data.len();
                assert(self.written + n <= total);
                self.written = self.written + n;
                assert(self.remaining() =~= old(self).remaining().skip(n as int));
                self.next()
            },
            Attempt::WouldBlock => self.next(),
            Attempt::NotReady => WriteStep::Fail,
            Attempt::Failed => WriteStep::Fail,
        }
    }
}

/// How much of some data a run of attempts leaves, each of which is handed
/// what the ones before it left.
pub open spec fn left_after(data: Seq<u8>, attempts: Seq<Attempt>) -> Seq<u8>
    decreases attempts.len(),
{
    if attempts.len() == 0 {
        data
    } else {
        match attempts.last() {
            Attempt::Moved(n) => left_after(data, attempts.drop_last()).skip(n as int),
            _ => left_after(data, attempts.drop_last()),
        }
    }
}

/// What a run of attempts puts into the descriptor, in order: each successful
/// one the beginning of what it was handed.
pub open spec fn output(data: Seq<u8>, attempts: Seq<Attempt>) -> Seq<u8>
    decreases attempts.len(),
{
    if attempts.len() == 0 {
        seq![]
    } else {
        let before = attempts.drop_last();
        match attempts.last() {
            Attempt::Moved(n) => output(data, before) + left_after(data, before).take(n as int),
            _ => output(data, before),
        }
    }
}

/// No attempt moves more than it was handed.
pub open spec fn sound(data: Seq<u8>, attempts: Seq<Attempt>) -> bool
    decreases attempts.len(),
{
    attempts.len() == 0 || {
        &&& sound(data, attempts.drop_last())
        &&& attempts.last() matches Attempt::Moved(n) ==> n <= left_after(
            data,
            attempts.drop_last(),
        ).len()
    }
}

/// However the writes are cut short, the bytes that went out and the bytes that
/// are left are the data; so when nothing is left, all of the data went out, in
/// order and once.
pub proof fn law_all_data_goes_out_in_order(data: Seq<u8>, attempts: Seq<Attempt>)
    requires
        sound(data, attempts),
    ensures
        output(data, attempts) + left_after(data, attempts) == data,
        left_after(data, attempts).len() == 0 ==> output(data, attempts) == data,
    decreases attempts.len(),
{
    if attempts.len() > 0 {
        let before = attempts.drop_last();
        law_all_data_goes_out_in_order(data, before);
        match attempts.last() {
            Attempt::Moved(n) => {
                let l = left_after(data, before);
                assert(l.take(n as int) + l.skip(n as int) =~= l);
                assert(output(data, attempts) + left_after(data, attempts) =~= output(data, before)
                    + l);
            },
            _ => {},
        }
    } else {
        assert(output(data, attempts) + left_after(data, attempts) =~= data);
    }
    if left_after(data, attempts).len() == 0 {
        assert(output(data, attempts) =~= output(data, attempts) + left_after(data, attempts));
    }
}

/// What is left to write is the part of the data behind what is written, byte for
/// byte.
pub proof fn law_what_is_left_is_not_written(write: &WriteAll)
    requires
        write.wf(),
    ensures
        write.remaining().len() + write.written == write.data@.len(),
        forall|i: int|
            0 <= i < write.remaining().len() ==> #[trigger] write.remaining()[i]
                == write.data@[write.written + i],
{
}

} // verus!
