use vstd::prelude::*;

verus! {

/// The byte conduit between the TUN device driver and the network
/// stack.  The driver writes raw packet bytes toward the stack and reads
/// the bytes the stack produced; within each direction byte order is
/// preserved and nothing is dropped or invented.
pub struct NetStack {
    /// Bytes the stack has produced, waiting for the driver to read.
    pub inbound: Vec<u8>,
    /// Bytes the driver has written, waiting for the stack to consume.
    pub outbound: Vec<u8>,
}

impl NetStack {
    /// A fresh conduit holds nothing in either direction.
    pub fn new() -> (s: NetStack)
        ensures
            s.inbound@ == Seq::<u8>::empty(),
            s.outbound@ == Seq::<u8>::empty(),
    {
        NetStack { inbound: Vec::new(), outbound: Vec::new() }
    }

    /// The driver writes bytes toward the stack: they are queued after
    /// everything written before, and the whole buffer is accepted.
    pub fn write_bytes(&mut self, buf: &[u8]) -> (n: usize)
        requires
            old(self).outbound@.len() + buf@.len() <= usize::MAX,
        ensures
            n == buf@.len(),
            final(self).outbound@ == old(self).outbound@ + buf@,
            final(self).inbound@ == old(self).inbound@,
    {
        let mut i: usize = 0;
        while i < buf.len()
            invariant
                i <= buf@.len(),
                self.outbound@ == old(self).outbound@ + buf@.subrange(0, i as int),
                self.inbound@ == old(self).inbound@,
                self.outbound@.len() == old(self).outbound@.len() + i,
            decreases buf@.len() - i,
        {
            self.outbound.push(buf[i]);
            i += 1;
            proof {
                assert(self.outbound@ =~= old(self).outbound@ + buf@.subrange(0, i as int));
            }
        }
        proof {
            assert(self.outbound@ =~= old(self).outbound@ + buf@);
        }
        buf.len()
    }

    /// The stack hands bytes to the driver side: they are queued after
    /// everything fed before.
    pub fn feed_inbound(&mut self, buf: &[u8])
        requires
            old(self).inbound@.len() + buf@.len() <= usize::MAX,
        ensures
            final(self).inbound@ == old(self).inbound@ + buf@,
            final(self).outbound@ == old(self).outbound@,
    {
        let mut i: usize = 0;
        while i < buf.len()
            invariant
                i <= buf@.len(),
                self.inbound@ == old(self).inbound@ + buf@.subrange(0, i as int),
                self.outbound@ == old(self).outbound@,
                self.inbound@.len() == old(self).inbound@.len() + i,
            decreases buf@.len() - i,
        {
            self.inbound.push(buf[i]);
            i += 1;
            proof {
                assert(self.inbound@ =~= old(self).inbound@ + buf@.subrange(0, i as int));
            }
        }
        proof {
            assert(self.inbound@ =~= old(self).inbound@ + buf@);
        }
    }

    /// The driver reads at most `max` bytes: exactly the oldest queued
    /// bytes come out, in order, and only they leave the queue.
    pub fn read_bytes(&mut self, max: usize) -> (out: Vec<u8>)
        ensures
            out@ == old(self).inbound@.take(min_len(max as int, old(self).inbound@.len() as int)),
            final(self).inbound@ == old(self).inbound@.skip(
                min_len(max as int, old(self).inbound@.len() as int),
            ),
            final(self).outbound@ == old(self).outbound@,
    {
        let k = if max < self.inbound.len() {
            max
        } else {
            self.inbound.len()
        };
        let mut out: Vec<u8> = Vec::new();
        let mut i: usize = 0;
        while i < k
            invariant
                i <= k,
                k <= self.inbound@.len(),
                self.inbound@ == old(self).inbound@,
                self.outbound@ == old(self).outbound@,
                out@ == old(self).inbound@.subrange(0, i as int),
            decreases k - i,
        {
            out.push(self.inbound[i]);
            i += 1;
            proof {
                assert(out@ =~= old(self).inbound@.subrange(0, i as int));
            }
        }
        let mut rest: Vec<u8> = Vec::new();
        let mut j: usize = k;
        while j < self.inbound.len()
            invariant
                k <= j <= self.inbound@.len(),
                self.inbound@ == old(self).inbound@,
                self.outbound@ == old(self).outbound@,
                rest@ == old(self).inbound@.subrange(k as int, j as int),
            decreases self.inbound@.len() - j,
        {
            rest.push(self.inbound[j]);
            j += 1;
            proof {
                assert(rest@ =~= old(self).inbound@.subrange(k as int, j as int));
            }
        }
        self.inbound = rest;
        proof {
            assert(out@ =~= old(self).inbound@.take(
                min_len(max as int, old(self).inbound@.len() as int),
            ));
            assert(self.inbound@ =~= old(self).inbound@.skip(
                min_len(max as int, old(self).inbound@.len() as int),
            ));
        }
        out
    }

    /// The stack consumes everything the driver has written so far.
    pub fn take_outbound(&mut self) -> (out: Vec<u8>)
        ensures
            out@ == old(self).outbound@,
            final(self).outbound@ == Seq::<u8>::empty(),
            final(self).inbound@ == old(self).inbound@,
    {
        let mut empty: Vec<u8> = Vec::new();
        core::mem::swap(&mut self.outbound, &mut empty);
        empty
    }
}

/// The smaller of two lengths.
pub open spec fn min_len(a: int, b: int) -> int {
    if a < b {
        a
    } else {
        b
    }
}

} // verus!
