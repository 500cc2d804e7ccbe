//! The stream bridge: one established connection under two stream contracts.
//!
//! A `RawConnection` models the live byte stream a transport maker produced:
//! what the peer has sent and not yet been read, what has been written, and
//! whether the peer closed, writes would block, the stream was shut down, or
//! a hard fault stands. A `ConnectionWrapper` exclusively owns one such
//! connection and presents it under both asynchronous read contracts — the
//! runtime-native one, which fills a safe "filled region" buffer, and the
//! network-library-native one, which hands over a raw region and demands
//! explicit "mark n bytes as filled" bookkeeping. The bridge buffers nothing
//! and transforms nothing: both contracts observe byte-for-byte the same
//! stream, and the raw region's cursor advances by exactly the number of
//! bytes the underlying read produced.

use vstd::prelude::*;

use crate::error::{IoFault, TransportFault};
use crate::poll::Polled;

verus! {

/// The mathematical state of one bridged byte stream.
#[verifier::ext_equal]
pub struct StreamModel {
    /// Bytes the peer has sent that no read has taken yet.
    pub incoming: Seq<u8>,
    /// Bytes written into the connection so far.
    pub outgoing: Seq<u8>,
    /// Whether the peer has closed its sending side.
    pub peer_closed: bool,
    /// How many more bytes a write can take before it would block.
    pub accept: int,
    /// Whether this side's sending half was shut down.
    pub shut: bool,
    /// A hard failure the connection reports on every operation.
    pub fault: Option<IoFault>,
}

/// One read step against stream `s` into `space` bytes of room: the stream
/// afterwards, the bytes produced, and the reported outcome. Zero bytes with
/// a ready `Ok` is end-of-stream and happens only on a closed, drained
/// stream; an open stream with nothing to read reports pending instead.
pub open spec fn spec_read(s: StreamModel, space: int) -> (StreamModel, Seq<u8>, Polled<
    Result<(), IoFault>,
>) {
    if s.fault is Some {
        (s, Seq::empty(), Polled::Ready(Err(s.fault->Some_0)))
    } else if s.incoming.len() > 0 {
        let n = vstd::math::min(space, s.incoming.len() as int);
        (
            StreamModel { incoming: s.incoming.skip(n), ..s },
            s.incoming.take(n),
            Polled::Ready(Ok(())),
        )
    } else if s.peer_closed {
        (s, Seq::empty(), Polled::Ready(Ok(())))
    } else {
        (s, Seq::empty(), Polled::Pending)
    }
}

/// One write step of `data` against stream `s`: the stream afterwards and
/// the reported outcome. A partial write is reported truthfully as the count
/// actually taken; nothing is buffered or retried.
pub open spec fn spec_write(s: StreamModel, data: Seq<u8>) -> (StreamModel, Polled<
    Result<usize, IoFault>,
>) {
    if s.fault is Some {
        (s, Polled::Ready(Err(s.fault->Some_0)))
    } else if s.shut {
        (s, Polled::Ready(Err(IoFault { cause: TransportFault::Closed })))
    } else if data.len() == 0 {
        (s, Polled::Ready(Ok(0usize)))
    } else if s.accept <= 0 {
        (s, Polled::Pending)
    } else {
        let n = vstd::math::min(data.len() as int, s.accept);
        (
            StreamModel { outgoing: s.outgoing + data.take(n), accept: s.accept - n, ..s },
            Polled::Ready(Ok(n as usize)),
        )
    }
}

/// One flush step: the bridge holds no buffer, so a flush changes nothing
/// and succeeds unless the connection faults.
pub open spec fn spec_flush(s: StreamModel) -> (StreamModel, Polled<Result<(), IoFault>>) {
    if s.fault is Some {
        (s, Polled::Ready(Err(s.fault->Some_0)))
    } else {
        (s, Polled::Ready(Ok(())))
    }
}

/// One shutdown step: marks the sending half shut. Repeating it leaves the
/// state as it is.
pub open spec fn spec_shutdown(s: StreamModel) -> (StreamModel, Polled<Result<(), IoFault>>) {
    if s.fault is Some {
        (s, Polled::Ready(Err(s.fault->Some_0)))
    } else {
        (StreamModel { shut: true, ..s }, Polled::Ready(Ok(())))
    }
}

/// The peer (or the network) delivering `bytes` to this side.
pub open spec fn spec_deliver(s: StreamModel, bytes: Seq<u8>) -> StreamModel {
    StreamModel { incoming: s.incoming + bytes, ..s }
}

/// The live byte stream a transport maker produced, in executable form.
#[derive(Clone, Debug)]
pub struct RawConnection {
    /// Bytes the peer has sent that no read has taken yet.
    pub incoming: Vec<u8>,
    /// Bytes written into the connection so far.
    pub outgoing: Vec<u8>,
    /// Whether the peer has closed its sending side.
    pub peer_closed: bool,
    /// How many more bytes a write can take before it would block.
    pub accept: usize,
    /// Whether this side's sending half was shut down.
    pub shut: bool,
    /// A hard failure the connection reports on every operation.
    pub fault: Option<IoFault>,
}

impl View for RawConnection {
    type V = StreamModel;

    open spec fn view(&self) -> StreamModel {
        StreamModel {
            incoming: self.incoming@,
            outgoing: self.outgoing@,
            peer_closed: self.peer_closed,
            accept: self.accept as int,
            shut: self.shut,
            fault: self.fault,
        }
    }
}

impl RawConnection {
    /// Builds a fresh open connection with nothing sent or received yet,
    /// accepting `accept` bytes of writes before blocking.
    pub fn establish(accept: usize) -> (c: RawConnection)
        ensures
            c@ == (StreamModel {
                incoming: Seq::empty(),
                outgoing: Seq::empty(),
                peer_closed: false,
                accept: accept as int,
                shut: false,
                fault: None,
            }),
    {
        let c = RawConnection {
            incoming: Vec::new(),
            outgoing: Vec::new(),
            peer_closed: false,
            accept,
            shut: false,
            fault: None,
        };
        proof {
            assert(c@ =~= StreamModel {
                incoming: Seq::empty(),
                outgoing: Seq::empty(),
                peer_closed: false,
                accept: accept as int,
                shut: false,
                fault: None,
            });
        }
        c
    }

    /// The peer delivering `bytes` to this side of the connection.
    pub fn deliver(&mut self, bytes: &[u8])
        ensures
            final(self)@ == spec_deliver(old(self)@, bytes@),
    {
        let mut i: usize = 0;
        while i < bytes.len()
            invariant
                i <= bytes@.len(),
                self.incoming@ == old(self).incoming@ + bytes@.take(i as int),
                self.outgoing == old(self).outgoing,
                self.peer_closed == old(self).peer_closed,
                self.accept == old(self).accept,
                self.shut == old(self).shut,
                self.fault == old(self).fault,
            decreases bytes@.len() - i,
        {
            self.incoming.push(bytes[i]);
            proof {
                assert(self.incoming@ =~= old(self).incoming@ + bytes@.take(i + 1));
            }
            i += 1;
        }
        proof {
            assert(bytes@.take(bytes@.len() as int) =~= bytes@);
            assert(self@ =~= spec_deliver(old(self)@, bytes@));
        }
    }

    /// The runtime-native read: fills the buffer from the stream.
    pub fn poll_read(&mut self, buf: &mut FilledBuf) -> (r: Polled<Result<(), IoFault>>)
        requires
            old(buf).wf(),
            old(buf).remaining() >= 1,
        ensures
            final(buf).wf(),
            final(buf).cap == old(buf).cap,
            ({
                let (s1, got, rr) = spec_read(old(self)@, old(buf).remaining());
                &&& r == rr
                &&& final(self)@ == s1
                &&& final(buf).data@ == old(buf).data@ + got
            }),
    {
        match self.fault {
            Some(f) => {
                proof {
                    assert(final(buf).data@ =~= old(buf).data@ + Seq::<u8>::empty());
                }
                return Polled::Ready(Err(f));
            },
            None => {},
        }
        if self.incoming.len() > 0 {
            let space = buf.cap - buf.data.len();
            let n = if space < self.incoming.len() {
                space
            } else {
                self.incoming.len()
            };
            let mut rest = self.incoming.split_off(n);
            core::mem::swap(&mut self.incoming, &mut rest);
            buf.data.append(&mut rest);
            proof {
                let (s1, got, rr) = spec_read(old(self)@, old(buf).remaining());
                assert(self@ =~= s1);
            }
            Polled::Ready(Ok(()))
        } else if self.peer_closed {
            proof {
                assert(buf.data@ =~= old(buf).data@ + Seq::<u8>::empty());
            }
            Polled::Ready(Ok(()))
        } else {
            proof {
                assert(buf.data@ =~= old(buf).data@ + Seq::<u8>::empty());
            }
            Polled::Pending
        }
    }

    /// The write path: takes as many of `data`'s bytes as the connection
    /// accepts and reports that count truthfully; blocked, shut-down and
    /// faulted streams report so instead.
    pub fn poll_write(&mut self, data: &[u8]) -> (r: Polled<Result<usize, IoFault>>)
        ensures
            ({
                let (s1, rr) = spec_write(old(self)@, data@);
                &&& r == rr
                &&& final(self)@ == s1
            }),
    {
        match self.fault {
            Some(f) => {
                return Polled::Ready(Err(f));
            },
            None => {},
        }
        if self.shut {
            return Polled::Ready(Err(IoFault { cause: TransportFault::Closed }));
        }
        if data.len() == 0 {
            return Polled::Ready(Ok(0));
        }
        if self.accept == 0 {
            return Polled::Pending;
        }
        let n = if data.len() < self.accept {
            data.len()
        } else {
            self.accept
        };
        let mut chunk: Vec<u8> = Vec::new();
        let mut i: usize = 0;
        while i < n
            invariant
                i <= n,
                n <= data@.len(),
                chunk@ == data@.take(i as int),
            decreases n - i,
        {
            chunk.push(data[i]);
            proof {
                assert(chunk@ =~= data@.take(i + 1));
            }
            i += 1;
        }
        self.outgoing.append(&mut chunk);
        self.accept = self.accept - n;
        proof {
            let (s1, rr) = spec_write(old(self)@, data@);
            assert(self@ =~= s1);
        }
        Polled::Ready(Ok(n))
    }

    /// Flush, forwarded verbatim: the bridge buffers nothing, so there is
    /// nothing to push out.
    pub fn poll_flush(&mut self) -> (r: Polled<Result<(), IoFault>>)
        ensures
            ({
                let (s1, rr) = spec_flush(old(self)@);
                &&& r == rr
                &&& final(self)@ == s1
            }),
    {
        match self.fault {
            Some(f) => Polled::Ready(Err(f)),
            None => Polled::Ready(Ok(())),
        }
    }

    /// Shuts the sending half down. Safe to repeat: a second shutdown finds
    /// the same state and leaves it unchanged.
    pub fn poll_shutdown(&mut self) -> (r: Polled<Result<(), IoFault>>)
        ensures
            ({
                let (s1, rr) = spec_shutdown(old(self)@);
                &&& r == rr
                &&& final(self)@ == s1
            }),
    {
        match self.fault {
            Some(f) => {
                return Polled::Ready(Err(f));
            },
            None => {},
        }
        self.shut = true;
        proof {
            let (s1, rr) = spec_shutdown(old(self)@);
            assert(self@ =~= s1);
        }
        Polled::Ready(Ok(()))
    }
}

/// The runtime-native buffer: a safe view of the bytes filled so far, with a
/// fixed capacity.
#[derive(Clone, Debug)]
pub struct FilledBuf {
    /// The bytes filled so far.
    pub data: Vec<u8>,
    /// The buffer's capacity.
    pub cap: usize,
}

impl FilledBuf {
    /// The filled region never exceeds the capacity.
    pub open spec fn wf(self) -> bool {
        self.data@.len() <= self.cap
    }

    /// How much room is left.
    pub open spec fn remaining(self) -> int {
        self.cap - self.data@.len()
    }

    /// An empty buffer of capacity `cap`.
    pub fn new(cap: usize) -> (b: FilledBuf)
        ensures
            b.wf(),
            b.data@ == Seq::<u8>::empty(),
            b.cap == cap,
    {
        FilledBuf { data: Vec::new(), cap }
    }
}

/// The network-library-native buffer: a raw region whose leading `filled`
/// bytes are initialized; growing that region takes an explicit advance, and
/// bytes beyond it must never be exposed.
#[derive(Clone, Debug)]
pub struct CursorBuf {
    /// The raw region; bytes at and beyond `filled` are not meaningful yet.
    pub raw: Vec<u8>,
    /// How many leading bytes of `raw` are initialized.
    pub filled: usize,
}

impl CursorBuf {
    /// The cursor never passes the end of the region.
    pub open spec fn wf(self) -> bool {
        self.filled <= self.raw@.len()
    }

    /// How much room is left.
    pub open spec fn remaining(self) -> int {
        self.raw@.len() - self.filled
    }

    /// The bytes this buffer exposes: exactly the filled region.
    pub open spec fn visible(self) -> Seq<u8> {
        self.raw@.take(self.filled as int)
    }

    /// A cursor over a raw region, with nothing filled yet. Whatever the
    /// region held is treated as uninitialized.
    pub fn over(region: Vec<u8>) -> (c: CursorBuf)
        ensures
            c.wf(),
            c.raw@ == region@,
            c.filled == 0,
    {
        CursorBuf { raw: region, filled: 0 }
    }

    /// Marks `n` more bytes as filled. The caller must have initialized
    /// them; the cursor moves by exactly `n`.
    pub fn advance(&mut self, n: usize)
        requires
            old(self).wf(),
            n <= old(self).remaining(),
        ensures
            final(self).wf(),
            final(self).raw == old(self).raw,
            final(self).filled == old(self).filled + n,
    {
        let len = self.raw.len();
        proof {
            assert(self.filled + n <= len);
        }
        self.filled = self.filled + n;
    }
}

/// What the bridge reports to the client's connection pool: a fresh, direct,
/// poolable connection. This layer tracks no age, health or reuse count.
#[derive(Clone, Copy, Debug, PartialEq, Eq)]
pub struct PoolMetadata {
    /// The connection may be pooled and reused.
    pub poolable: bool,
    /// Whether the connection runs through a proxy; a fresh direct
    /// connection does not.
    pub proxied: bool,
}

/// Exclusively owns one established connection and presents it under both
/// stream contracts without buffering or copying payload bytes.
pub struct ConnectionWrapper {
    inner: RawConnection,
}

impl View for ConnectionWrapper {
    type V = StreamModel;

    closed spec fn view(&self) -> StreamModel {
        self.inner@
    }
}

impl ConnectionWrapper {
    /// Takes exclusive ownership of an established connection.
    pub fn wrap(inner: RawConnection) -> (w: ConnectionWrapper)
        ensures
            w@ == inner@,
    {
        ConnectionWrapper { inner }
    }

    /// A read-only look at the underlying connection.
    pub fn raw(&self) -> (r: &RawConnection)
        ensures
            r@ == self@,
    {
        &self.inner
    }

    /// The peer delivering `bytes` to the bridged connection.
    pub fn deliver(&mut self, bytes: &[u8])
        ensures
            final(self)@ == spec_deliver(old(self)@, bytes@),
    {
        self.inner.deliver(bytes)
    }

    /// The runtime-native read contract: forwarded to the connection
    /// unchanged.
    pub fn poll_read_buf(&mut self, buf: &mut FilledBuf) -> (r: Polled<Result<(), IoFault>>)
        requires
            old(buf).wf(),
            old(buf).remaining() >= 1,
        ensures
            final(buf).wf(),
            final(buf).cap == old(buf).cap,
            ({
                let (s1, got, rr) = spec_read(old(self)@, old(buf).remaining());
                &&& r == rr
                &&& final(self)@ == s1
                &&& final(buf).data@ == old(buf).data@ + got
            }),
    {
        self.inner.poll_read(buf)
    }

    /// The network-library-native read contract: reads into a scratch filled
    /// buffer over the cursor's free room, copies exactly what the
    /// connection produced, and advances the cursor by exactly that count.
    /// Both read contracts report byte-for-byte the same data for the same
    /// stream state; bytes beyond what was produced are neither read nor
    /// exposed.
    pub fn poll_read_cursor(&mut self, cur: &mut CursorBuf) -> (r: Polled<Result<(), IoFault>>)
        requires
            old(cur).wf(),
            old(cur).remaining() >= 1,
        ensures
            final(cur).wf(),
            final(cur).raw@.len() == old(cur).raw@.len(),
            ({
                let (s1, got, rr) = spec_read(old(self)@, old(cur).remaining());
                &&& r == rr
                &&& final(self)@ == s1
                &&& final(cur).filled == old(cur).filled + got.len()
                &&& final(cur).visible() == old(cur).visible() + got
                &&& final(cur).raw@.skip(final(cur).filled as int) == old(cur).raw@.skip(
                    final(cur).filled as int,
                )
            }),
    {
        let space = cur.raw.len() - cur.filled;
        let mut scratch = FilledBuf::new(space);
        let r = self.inner.poll_read(&mut scratch);
        match r {
            Polled::Ready(Ok(())) => {
                let n = scratch.data.len();
                let mut k: usize = 0;
                while k < n
                    invariant
                        k <= n,
                        n == scratch.data@.len(),
                        n <= old(cur).remaining(),
                        cur.filled == old(cur).filled,
                        cur.raw@.len() == old(cur).raw@.len(),
                        old(cur).wf(),
                        cur.raw@ =~= old(cur).raw@.take(cur.filled as int) + scratch.data@.take(
                            k as int,
                        ) + old(cur).raw@.skip((cur.filled + k) as int),
                    decreases n - k,
                {
                    let len = cur.raw.len();
                    proof {
                        assert(cur.filled + k < len);
                    }
                    let idx = cur.filled + k;
                    let b = scratch.data[k];
                    cur.raw[idx] = b;
                    proof {
                        assert(cur.raw@ =~= old(cur).raw@.take(cur.filled as int)
                            + scratch.data@.take(k + 1) + old(cur).raw@.skip(
                            (cur.filled + k + 1) as int,
                        ));
                    }
                    k += 1;
                }
                cur.advance(n);
                proof {
                    let (s1, got, rr) = spec_read(old(self)@, old(cur).remaining());
                    assert(scratch.data@ == got);
                    assert(scratch.data@.take(n as int) =~= got);
                    assert(final(cur).visible() =~= old(cur).visible() + got);
                    assert(final(cur).raw@.skip((old(cur).filled + n) as int) =~= old(
                        cur,
                    ).raw@.skip((old(cur).filled + n) as int));
                }
                Polled::Ready(Ok(()))
            },
            Polled::Ready(Err(e)) => Polled::Ready(Err(e)),
            Polled::Pending => Polled::Pending,
        }
    }

    /// The write path shared by both stream contracts: forwarded to the
    /// connection unchanged, partial counts reported truthfully.
    pub fn poll_write(&mut self, data: &[u8]) -> (r: Polled<Result<usize, IoFault>>)
        ensures
            ({
                let (s1, rr) = spec_write(old(self)@, data@);
                &&& r == rr
                &&& final(self)@ == s1
            }),
    {
        self.inner.poll_write(data)
    }

    /// Flush, shared by both stream contracts and forwarded verbatim.
    pub fn poll_flush(&mut self) -> (r: Polled<Result<(), IoFault>>)
        ensures
            ({
                let (s1, rr) = spec_flush(old(self)@);
                &&& r == rr
                &&& final(self)@ == s1
            }),
    {
        self.inner.poll_flush()
    }

    /// Shutdown, shared by both stream contracts and forwarded verbatim;
    /// safe to repeat.
    pub fn poll_shutdown(&mut self) -> (r: Polled<Result<(), IoFault>>)
        ensures
            ({
                let (s1, rr) = spec_shutdown(old(self)@);
                &&& r == rr
                &&& final(self)@ == s1
            }),
    {
        self.inner.poll_shutdown()
    }

    /// The pool-metadata hook: always the static "freshly connected,
    /// poolable, not proxied" descriptor.
    pub fn connected(&self) -> (m: PoolMetadata)
        ensures
            m == (PoolMetadata { poolable: true, proxied: false }),
    {
        PoolMetadata { poolable: true, proxied: false }
    }
}

/// Contract equivalence over the bridge: bytes written through one stream
/// contract's write and looped back by the peer are produced byte-for-byte
/// by the other contract's read, since both contracts take the very same
/// read and write steps. Holds for any non-empty payload that fits the
/// write quota and the read room.
pub proof fn lemma_write_read_round_trip(s: StreamModel, data: Seq<u8>, space: int)
    requires
        s.fault is None,
        !s.shut,
        !s.peer_closed,
        s.incoming.len() == 0,
        0 < data.len() <= s.accept,
        data.len() <= space,
        data.len() <= usize::MAX,
    ensures
        ({
            let (s1, w) = spec_write(s, data);
            &&& w == Polled::Ready(Result::<usize, IoFault>::Ok(data.len() as usize))
            &&& s1.outgoing == s.outgoing + data
            &&& ({
                let s2 = spec_deliver(s1, data);
                let (s3, got, r) = spec_read(s2, space);
                &&& r == Polled::Ready(Result::<(), IoFault>::Ok(()))
                &&& got == data
                &&& s3.incoming == Seq::<u8>::empty()
            })
        }),
{
    let (s1, w) = spec_write(s, data);
    assert(data.take(data.len() as int) =~= data);
    let s2 = spec_deliver(s1, data);
    assert(s2.incoming =~= data);
    let (s3, got, r) = spec_read(s2, space);
    assert(got =~= data);
    assert(s3.incoming =~= Seq::<u8>::empty());
}

/// A read reporting zero bytes means end-of-stream, and that happens exactly
/// when the peer has closed and nothing remains to read; an open stream with
/// no data yet reports pending, never a zero-byte success.
pub proof fn lemma_eof_only_at_close(s: StreamModel, space: int)
    requires
        space >= 1,
        s.fault is None,
    ensures
        ({
            let (s1, got, r) = spec_read(s, space);
            &&& ((r == Polled::Ready(Result::<(), IoFault>::Ok(())) && got.len() == 0) <==> (
            s.peer_closed && s.incoming.len() == 0))
            &&& ((!s.peer_closed && s.incoming.len() == 0) ==> r is Pending)
        }),
{
}

/// Shutting down an already shut stream changes nothing: the step is
/// idempotent.
pub proof fn lemma_shutdown_idempotent(s: StreamModel)
    requires
        s.fault is None,
    ensures
        spec_shutdown(spec_shutdown(s).0).0 == spec_shutdown(s).0,
        spec_shutdown(spec_shutdown(s).0).1 == spec_shutdown(s).1,
{
    assert(spec_shutdown(spec_shutdown(s).0).0 =~= spec_shutdown(s).0);
}

} // verus!
