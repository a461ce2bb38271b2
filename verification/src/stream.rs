//! The non-blocking drain of a channel's two output streams and the
//! collection of the remote exit status. The transport reads, the sleep and
//! the channel close are performed outside; every decision between them —
//! what to forward where, when to sleep, when to stop, when to abort — is
//! taken here.

use vstd::prelude::*;

verus! {

/// What one bounded, non-blocking read of a stream produced.
pub enum ReadOutcome {
    /// Bytes arrived; they are forwarded verbatim.
    Data(Vec<u8>),
    /// The read returned without bytes.
    Empty,
    /// The read would block; not an error, not activity.
    WouldBlock,
    /// Any other read error: fatal.
    Failed,
}

impl ReadOutcome {
    /// The bytes the outcome carries (none unless data arrived).
    pub open spec fn bytes(&self) -> Seq<u8> {
        match self {
            ReadOutcome::Data(b) => b@,
            _ => Seq::empty(),
        }
    }
}

/// Where the drain loop stands after a round.
pub enum RoundNext {
    /// End of stream was observed: stop polling, wait for the close.
    Finished,
    /// Data arrived on at least one stream: poll again at once.
    Continue,
    /// Neither stream produced data: sleep a short fixed interval first.
    SleepThenContinue,
    /// A stream failed: abort the run immediately.
    Abort,
}

/// The channel's life: draining, then (after end of stream) waiting for the
/// close and the exit status, then done — or failed on a fatal read error.
pub enum ChannelPhase {
    Draining,
    Closing,
    Done,
    Failed,
}

/// The multiplexer over one channel: the two local sinks the remote bytes
/// are forwarded to, and the phase of the drain.
pub struct Multiplexer {
    pub out_sink: Vec<u8>,
    pub err_sink: Vec<u8>,
    pub phase: ChannelPhase,
}

/// What the caller reports back once the channel has closed.
pub struct RunResult {
    pub exit_code: i32,
}

impl RunResult {
    /// Zero means the remote command succeeded; anything else is the remote
    /// command's own failure, not a transport failure.
    pub open spec fn is_success(&self) -> bool {
        self.exit_code == 0
    }
}

impl Multiplexer {
    /// A multiplexer for a fresh channel: empty sinks, draining.
    pub fn new() -> (m: Multiplexer)
        ensures
            m.out_sink@ == Seq::<u8>::empty(),
            m.err_sink@ == Seq::<u8>::empty(),
            m.phase is Draining,
    {
        Multiplexer { out_sink: Vec::new(), err_sink: Vec::new(), phase: ChannelPhase::Draining }
    }

    /// One round of the drain loop. End of stream stops the polling before
    /// any read is considered. Otherwise the primary outcome is forwarded
    /// first and its failure aborts before the error stream is touched; then
    /// the error outcome likewise; a round that forwarded nothing asks for
    /// the fixed idle sleep. Would-block outcomes are neither errors nor
    /// activity.
    pub fn round(&mut self, eof: bool, out_read: ReadOutcome, err_read: ReadOutcome) -> (d:
        RoundNext)
        requires
            old(self).phase is Draining,
        ensures
            eof ==> final(self).out_sink@ == old(self).out_sink@
                && final(self).err_sink@ == old(self).err_sink@
                && final(self).phase is Closing
                && d is Finished,
            !eof && out_read is Failed ==> final(self).out_sink@ == old(self).out_sink@
                && final(self).err_sink@ == old(self).err_sink@
                && final(self).phase is Failed
                && d is Abort,
            !eof && !(out_read is Failed) ==> final(self).out_sink@ == sink_step(
                old(self).out_sink@,
                out_read,
            ),
            !eof && !(out_read is Failed) && err_read is Failed ==> final(self).err_sink@ == old(
                self).err_sink@
                && final(self).phase is Failed
                && d is Abort,
            !eof && !(out_read is Failed) && !(err_read is Failed) ==> final(self).err_sink@
                == sink_step(old(self).err_sink@, err_read)
                && final(self).phase is Draining
                && (d is Continue <==> (out_read is Data || err_read is Data))
                && (d is SleepThenContinue <==> !(out_read is Data || err_read is Data)),
    {
        if eof {
            self.phase = ChannelPhase::Closing;
            return RoundNext::Finished;
        }
        let mut activity = false;
        match out_read {
            ReadOutcome::Data(b) => {
                let mut b = b;
                self.out_sink.append(&mut b);
                activity = true;
            },
            ReadOutcome::Empty => {},
            ReadOutcome::WouldBlock => {},
            ReadOutcome::Failed => {
                self.phase = ChannelPhase::Failed;
                return RoundNext::Abort;
            },
        }
        match err_read {
            ReadOutcome::Data(b) => {
                let mut b = b;
                self.err_sink.append(&mut b);
                activity = true;
            },
            ReadOutcome::Empty => {},
            ReadOutcome::WouldBlock => {},
            ReadOutcome::Failed => {
                self.phase = ChannelPhase::Failed;
                return RoundNext::Abort;
            },
        }
        if activity {
            RoundNext::Continue
        } else {
            RoundNext::SleepThenContinue
        }
    }

    /// Collects the exit status once the channel has fully closed. The
    /// status is returned as data, a nonzero value being the remote
    /// command's own report, never a transport error.
    pub fn finish(&mut self, exit_status: i32) -> (r: RunResult)
        requires
            old(self).phase is Closing,
        ensures
            final(self).out_sink@ == old(self).out_sink@,
            final(self).err_sink@ == old(self).err_sink@,
            final(self).phase is Done,
            r.exit_code == exit_status,
            r.is_success() <==> exit_status == 0,
    {
        self.phase = ChannelPhase::Done;
        RunResult { exit_code: exit_status }
    }
}

/// One sink advancing by one read: the forwarded bytes are appended
/// verbatim. `Multiplexer::round` ensures exactly this of each sink.
pub open spec fn sink_step(sink: Seq<u8>, read: ReadOutcome) -> Seq<u8> {
    sink + read.bytes()
}

/// The concatenation of the data chunks of a stream's reads, in order.
pub open spec fn drained_bytes(reads: Seq<ReadOutcome>) -> Seq<u8>
    decreases reads.len(),
{
    if reads.len() == 0 {
        Seq::empty()
    } else {
        drained_bytes(reads.drop_last()) + reads.last().bytes()
    }
}

/// The sink contents after a run of rounds, starting from `init`: each round
/// advances the sink by `sink_step`, exactly as `Multiplexer::round` ensures
/// of each sink.
pub open spec fn sink_after(init: Seq<u8>, reads: Seq<ReadOutcome>) -> Seq<u8>
    decreases reads.len(),
{
    if reads.len() == 0 {
        init
    } else {
        sink_step(sink_after(init, reads.drop_last()), reads.last())
    }
}

/// Law: whatever the interleaving of bursts and would-block gaps, a sink
/// ends as its initial contents followed by every data chunk of that
/// stream, in read order — no byte is lost, none is reordered, and the
/// other stream's rounds (whose reads carry no bytes here) change nothing.
pub proof fn lemma_stream_order_preserved(init: Seq<u8>, reads: Seq<ReadOutcome>)
    ensures
        sink_after(init, reads) == init + drained_bytes(reads),
    decreases reads.len(),
{
    if reads.len() == 0 {
        assert(init + drained_bytes(reads) =~= init);
    } else {
        lemma_stream_order_preserved(init, reads.drop_last());
        assert((init + drained_bytes(reads.drop_last())) + reads.last().bytes() =~= init + (
        drained_bytes(reads.drop_last()) + reads.last().bytes()));
    }
}

} // verus!
