//! Buffering behind a reader over a channel of byte chunks.
//!
//! A reader receives bytes from a channel in chunks of any size and serves reads of any size.
//! Bytes of a chunk that do not fit into a read are kept for the following reads. The
//! [`MpscReadBuffer`] holds those bytes and decides what each read gets; receiving the chunks is
//! left to its caller.

use vstd::prelude::*;

verus! {

/// Number of bytes a read of up to `remaining` bytes gets from `available` bytes.
pub open spec fn served(available: nat, remaining: nat) -> nat {
    if available < remaining {
        available
    } else {
        remaining
    }
}

/// Bytes received from a channel and not read yet.
#[derive(Debug)]
pub struct MpscReadBuffer {
    buf: Vec<u8>,
}

impl MpscReadBuffer {
    /// The bytes kept for the following reads, in the order they were received.
    pub closed spec fn pending(&self) -> Seq<u8> {
        self.buf@
    }

    /// Creates an empty buffer.
    pub fn new() -> (buffer: Self)
        ensures
            buffer.pending() == Seq::<u8>::empty(),
    {
        Self { buf: Vec::new() }
    }

    /// Number of bytes kept for the following reads.
    pub fn len(&self) -> (len: usize)
        ensures
            len == self.pending().len(),
    {
        self.buf.len()
    }

    /// Hands out the first `n` pending bytes.
    fn take(&mut self, n: usize) -> (out: Vec<u8>)
        requires
            n <= old(self).pending().len(),
        ensures
            out@ == old(self).pending().take(n as int),
            final(self).pending() == old(self).pending().skip(n as int),
    {
        let mut out = self.buf.split_off(n);
        std::mem::swap(&mut out, &mut self.buf);
        proof {
            assert(out@ =~= old(self).pending().take(n as int));
            assert(self.buf@ =~= old(self).pending().skip(n as int));
        }
        out
    }

    /// Serves a read of `remaining` bytes from the pending bytes, when there are that many.
    ///
    /// Gives nothing and keeps the buffer when fewer bytes are pending: the reader then has to
    /// receive the next chunk.
    pub fn read_pending(&mut self, remaining: usize) -> (out: Option<Vec<u8>>)
        ensures
            old(self).pending().len() >= remaining ==> {
                &&& out matches Some(bytes)
                &&& bytes@ == old(self).pending().take(remaining as int)
                &&& final(self).pending() == old(self).pending().skip(remaining as int)
            },
            old(self).pending().len() < remaining ==> out is None && final(self).pending() == old(
                self,
            ).pending(),
            final(self).pending() == read_step(old(self).pending(), (None, remaining as nat)).1,
            match out {
                Some(bytes) => bytes@,
                None => Seq::<u8>::empty(),
            } == read_step(old(self).pending(), (None, remaining as nat)).0,
    {
        if self.buf.len() >= remaining {
            Some(self.take(remaining))
        } else {
            None
        }
    }

    /// Serves a read of up to `remaining` bytes once the chunk `chunk` has been received: the
    /// chunk joins the pending bytes, and the read gets as many of them as it can hold.
    pub fn read_received(&mut self, chunk: Vec<u8>, remaining: usize) -> (out: Vec<u8>)
        requires
            old(self).pending().len() + chunk@.len() <= usize::MAX,
        ensures
            ({
                let all = old(self).pending() + chunk@;
                let n = served(all.len(), remaining as nat) as int;
                &&& out@ == all.take(n)
                &&& final(self).pending() == all.skip(n)
            }),
            out@ == read_step(old(self).pending(), (Some(chunk@), remaining as nat)).0,
            final(self).pending() == read_step(old(self).pending(), (Some(chunk@), remaining as nat)).1,
    {
        let mut chunk = chunk;
        self.buf.append(&mut chunk);
        let n = if self.buf.len() < remaining {
            self.buf.len()
        } else {
            remaining
        };
        self.take(n)
    }
}

/// Reading from the buffer never loses, duplicates or reorders bytes: what a read gets, followed
/// by what is kept, is what was pending followed by the received chunk.
pub proof fn law_bytes_keep_order(pending: Seq<u8>, chunk: Seq<u8>, remaining: nat)
    ensures
        ({
            let all = pending + chunk;
            let n = served(all.len(), remaining) as int;
            &&& all.take(n) + all.skip(n) == all
            &&& all.take(n).len() <= remaining
        }),
{
    let all = pending + chunk;
    let n = served(all.len(), remaining) as int;
    assert(all.take(n) + all.skip(n) =~= all);
}

/// A read of a positive number of bytes makes progress whenever any byte is available.
pub proof fn law_read_progresses(available: nat, remaining: nat)
    requires
        available > 0,
        remaining > 0,
    ensures
        served(available, remaining) > 0,
{
}

/// One read on a buffer holding `pending`: `step.0` is the chunk received before serving
/// (`None` when the read first tries the kept bytes alone, as [`MpscReadBuffer::read_pending`]
/// does) and `step.1` the number of bytes asked for. Gives the bytes served and the bytes kept.
pub open spec fn read_step(pending: Seq<u8>, step: (Option<Seq<u8>>, nat)) -> (Seq<u8>, Seq<u8>) {
    match step.0 {
        None => if pending.len() >= step.1 {
            (pending.take(step.1 as int), pending.skip(step.1 as int))
        } else {
            (Seq::empty(), pending)
        },
        Some(chunk) => {
            let all = pending + chunk;
            let n = served(all.len(), step.1) as int;
            (all.take(n), all.skip(n))
        },
    }
}

/// Bytes received by a run of reads, in order.
pub open spec fn received(steps: Seq<(Option<Seq<u8>>, nat)>) -> Seq<u8>
    decreases steps.len(),
{
    if steps.len() == 0 {
        Seq::empty()
    } else {
        let chunk = match steps[0].0 {
            Some(chunk) => chunk,
            None => Seq::empty(),
        };
        chunk + received(steps.drop_first())
    }
}

/// Bytes served, and bytes kept, by a run of reads on a buffer holding `pending`.
pub open spec fn read_run(pending: Seq<u8>, steps: Seq<(Option<Seq<u8>>, nat)>) -> (
    Seq<u8>,
    Seq<u8>,
)
    decreases steps.len(),
{
    if steps.len() == 0 {
        (Seq::empty(), pending)
    } else {
        let first = read_step(pending, steps[0]);
        let rest = read_run(first.1, steps.drop_first());
        (first.0 + rest.0, rest.1)
    }
}

/// A read serves at most the number of bytes asked for, and loses, duplicates or reorders none.
pub proof fn law_step_keeps_order(pending: Seq<u8>, step: (Option<Seq<u8>>, nat))
    ensures
        read_step(pending, step).0.len() <= step.1,
        read_step(pending, step).0 + read_step(pending, step).1 == pending + match step.0 {
            Some(chunk) => chunk,
            None => Seq::empty(),
        },
{
    match step.0 {
        None => {
            if pending.len() >= step.1 {
                assert(pending.take(step.1 as int) + pending.skip(step.1 as int) =~= pending);
            } else {
                assert(Seq::<u8>::empty() + pending =~= pending);
            }
            assert(pending + Seq::<u8>::empty() =~= pending);
        },
        Some(chunk) => {
            let all = pending + chunk;
            let n = served(all.len(), step.1) as int;
            assert(all.take(n) + all.skip(n) =~= all);
        },
    }
}

/// Over any run of reads, mixing reads from the kept bytes and reads that receive a chunk, the
/// byte stream keeps its order: the bytes served, followed by the bytes still kept, are the bytes
/// pending at the start followed by all received chunks.
pub proof fn law_run_keeps_order(pending: Seq<u8>, steps: Seq<(Option<Seq<u8>>, nat)>)
    ensures
        read_run(pending, steps).0 + read_run(pending, steps).1 == pending + received(steps),
    decreases steps.len(),
{
    if steps.len() > 0 {
        let first = read_step(pending, steps[0]);
        law_step_keeps_order(pending, steps[0]);
        law_run_keeps_order(first.1, steps.drop_first());
        let rest = read_run(first.1, steps.drop_first());
        let chunk = match steps[0].0 {
            Some(chunk) => chunk,
            None => Seq::empty(),
        };
        assert(first.0 + rest.0 + rest.1 =~= first.0 + (rest.0 + rest.1));
        assert(first.0 + (first.1 + received(steps.drop_first())) =~= (first.0 + first.1)
            + received(steps.drop_first()));
        assert(pending + chunk + received(steps.drop_first()) =~= pending + (chunk + received(
            steps.drop_first(),
        )));
    } else {
        assert(Seq::<u8>::empty() + pending =~= pending + Seq::<u8>::empty());
    }
}

} // verus!
