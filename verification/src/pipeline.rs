use vstd::prelude::*;

verus! {

/// What became of a frame handed to the next stage of the pipeline without
/// waiting.
#[derive(Clone, Copy, Debug, PartialEq, Eq, Structural)]
pub enum SendOutcome {
    /// The next stage took the frame.
    Sent,
    /// The next stage's queue was full; the frame is dropped.
    Full,
    /// The next stage is gone; the frame is dropped.
    Disconnected,
}

/// The counts of the capture loop that polls the frame source.
#[derive(Clone, Copy, Debug)]
pub struct CaptureCounters {
    /// Times the frame source was polled.
    pub poll_attempts: u64,
    /// Polls that yielded a frame.
    pub produced_frames: u64,
    /// Polls that found no new frame.
    pub would_block_events: u64,
    /// Bytes of all frames produced.
    pub total_bytes: usize,
    /// Frames the first stage of the pipeline took.
    pub sent_frames: u64,
    /// Frames the first stage of the pipeline did not take.
    pub dropped_frames: u64,
}

impl CaptureCounters {
    /// Every poll either produced a frame or found none, and every produced
    /// frame was either taken by the pipeline or dropped.
    pub open spec fn wf(&self) -> bool {
        &&& self.poll_attempts == self.produced_frames + self.would_block_events
        &&& self.produced_frames == self.sent_frames + self.dropped_frames
    }

    /// No poll yet.
    pub fn new() -> (c: CaptureCounters)
        ensures
            c.wf(),
            c.poll_attempts == 0,
            c.produced_frames == 0,
            c.would_block_events == 0,
            c.total_bytes == 0,
            c.sent_frames == 0,
            c.dropped_frames == 0,
    {
        CaptureCounters {
            poll_attempts: 0,
            produced_frames: 0,
            would_block_events: 0,
            total_bytes: 0,
            sent_frames: 0,
            dropped_frames: 0,
        }
    }

    /// Counts a poll that yielded a frame of `frame_len` bytes, and what the
    /// pipeline did with it.
    pub fn record_frame(&mut self, frame_len: usize, outcome: SendOutcome)
        requires
            old(self).wf(),
            old(self).poll_attempts < u64::MAX,
            old(self).total_bytes + frame_len <= usize::MAX,
        ensures
            final(self).wf(),
            final(self).poll_attempts == old(self).poll_attempts + 1,
            final(self).produced_frames == old(self).produced_frames + 1,
            final(self).would_block_events == old(self).would_block_events,
            final(self).total_bytes == old(self).total_bytes + frame_len,
            outcome == SendOutcome::Sent ==> final(self).sent_frames == old(self).sent_frames + 1
                && final(self).dropped_frames == old(self).dropped_frames,
            outcome != SendOutcome::Sent ==> final(self).dropped_frames == old(self).dropped_frames
                + 1 && final(self).sent_frames == old(self).sent_frames,
    {
        self.poll_attempts = self.poll_attempts + 1;
        self.produced_frames = self.produced_frames + 1;
        self.total_bytes = self.total_bytes + frame_len;
        match outcome {
            SendOutcome::Sent => {
                self.sent_frames = self.sent_frames + 1;
            },
            _ => {
                self.dropped_frames = self.dropped_frames + 1;
            },
        }
    }

    /// Counts a poll that found no new frame; returns how many milliseconds to
    /// back off before the next poll.
    pub fn record_would_block(&mut self) -> (backoff_millis: u64)
        requires
            old(self).wf(),
            old(self).poll_attempts < u64::MAX,
        ensures
            final(self).wf(),
            backoff_millis == 1,
            final(self).poll_attempts == old(self).poll_attempts + 1,
            final(self).would_block_events == old(self).would_block_events + 1,
            final(self).produced_frames == old(self).produced_frames,
            final(self).total_bytes == old(self).total_bytes,
            final(self).sent_frames == old(self).sent_frames,
            final(self).dropped_frames == old(self).dropped_frames,
    {
        self.poll_attempts = self.poll_attempts + 1;
        self.would_block_events = self.would_block_events + 1;
        1
    }

    /// The mean size of a produced frame, rounded down; 0 before any frame.
    pub fn avg_frame_bytes(&self) -> (avg: usize)
        requires
            self.produced_frames <= usize::MAX,
        ensures
            self.produced_frames == 0 ==> avg == 0,
            self.produced_frames > 0 ==> avg == self.total_bytes / (self.produced_frames as usize),
    {
        average(self.total_bytes, self.produced_frames as usize)
    }
}

/// `total / count` rounded down, 0 where `count` is 0.
pub fn average(total: usize, count: usize) -> (avg: usize)
    ensures
        count == 0 ==> avg == 0,
        count > 0 ==> avg == total / count,
        avg <= total,
{
    if count > 0 {
        total / count
    } else {
        0
    }
}

/// The counts of a stage that hands frames on to the next one.
#[derive(Clone, Copy, Debug)]
pub struct StageCounters {
    /// Frames handed on.
    pub sent: u64,
    /// Frames dropped in this stage.
    pub dropped: u64,
}

impl StageCounters {
    /// Nothing handed on or dropped yet.
    pub fn new() -> (c: StageCounters)
        ensures
            c.sent == 0,
            c.dropped == 0,
    {
        StageCounters { sent: 0, dropped: 0 }
    }

    /// Counts what became of a frame handed on; returns whether the stage
    /// goes on, which it does unless the next stage is gone.
    pub fn record_send(&mut self, outcome: SendOutcome) -> (keep_going: bool)
        requires
            old(self).sent < u64::MAX,
            old(self).dropped < u64::MAX,
        ensures
            keep_going == (outcome != SendOutcome::Disconnected),
            outcome == SendOutcome::Sent ==> final(self).sent == old(self).sent + 1
                && final(self).dropped == old(self).dropped,
            outcome != SendOutcome::Sent ==> final(self).dropped == old(self).dropped + 1
                && final(self).sent == old(self).sent,
    {
        match outcome {
            SendOutcome::Sent => {
                self.sent = self.sent + 1;
                true
            },
            SendOutcome::Full => {
                self.dropped = self.dropped + 1;
                true
            },
            SendOutcome::Disconnected => {
                self.dropped = self.dropped + 1;
                false
            },
        }
    }

    /// Counts a frame that this stage failed to process.
    pub fn record_failure(&mut self)
        requires
            old(self).dropped < u64::MAX,
        ensures
            final(self).dropped == old(self).dropped + 1,
            final(self).sent == old(self).sent,
    {
        self.dropped = self.dropped + 1;
    }
}

/// The counts of the last stage, which consumes encoded frames.
#[derive(Clone, Copy, Debug)]
pub struct PublisherCounters {
    pub consumed_frames: u64,
    /// Raw BGRA bytes of the consumed frames: four per pixel.
    pub consumed_bytes: usize,
    /// Encoded bytes of the consumed frames.
    pub total_payload_bytes: usize,
}

impl PublisherCounters {
    /// Nothing consumed yet.
    pub fn new() -> (c: PublisherCounters)
        ensures
            c.consumed_frames == 0,
            c.consumed_bytes == 0,
            c.total_payload_bytes == 0,
    {
        PublisherCounters { consumed_frames: 0, consumed_bytes: 0, total_payload_bytes: 0 }
    }

    /// Counts a consumed frame of `width` by `height` pixels whose encoded
    /// payload has `payload_len` bytes.
    pub fn record(&mut self, width: usize, height: usize, payload_len: usize)
        requires
            old(self).consumed_frames < u64::MAX,
            width * height * 4 <= usize::MAX,
            old(self).consumed_bytes + width * height * 4 <= usize::MAX,
            old(self).total_payload_bytes + payload_len <= usize::MAX,
        ensures
            final(self).consumed_frames == old(self).consumed_frames + 1,
            final(self).consumed_bytes == old(self).consumed_bytes + width * height * 4,
            final(self).total_payload_bytes == old(self).total_payload_bytes + payload_len,
    {
        assert(width * height <= width * height * 4) by (nonlinear_arith);
        let pixels: usize = width * height;
        self.consumed_frames = self.consumed_frames + 1;
        self.consumed_bytes = self.consumed_bytes + pixels * 4;
        self.total_payload_bytes = self.total_payload_bytes + payload_len;
    }

    /// The mean encoded size of a consumed frame, rounded down; 0 before any.
    pub fn avg_payload_bytes(&self) -> (avg: usize)
        requires
            self.consumed_frames <= usize::MAX,
        ensures
            self.consumed_frames == 0 ==> avg == 0,
            self.consumed_frames > 0 ==> avg == self.total_payload_bytes / (
            self.consumed_frames as usize),
    {
        average(self.total_payload_bytes, self.consumed_frames as usize)
    }
}

/// The whole-number figures of a capture probe through the pipeline.
#[derive(Clone, Copy, Debug)]
pub struct PipelineCounts {
    pub width: usize,
    pub height: usize,
    pub produced_frames: u64,
    pub would_block_events: u64,
    pub poll_attempts: u64,
    pub avg_frame_bytes: usize,
    pub pipeline_sent_frames: u64,
    pub pipeline_dropped_frames: u64,
    pub pipeline_consumed_frames: u64,
    pub pipeline_consumed_bytes: usize,
    pub encoder_converted_frames: u64,
    /// Frames dropped by the converter, by the adapter stage and by the
    /// encoder stage together.
    pub encoder_dropped_frames: u64,
    pub publisher_avg_payload_bytes: usize,
}

impl PipelineCounts {
    /// Gathers the counts of the capture loop and of every stage.
    pub fn summarize(
        width: usize,
        height: usize,
        capture: &CaptureCounters,
        converted_frames: u64,
        converter_dropped_frames: u64,
        adapter: &StageCounters,
        encoder: &StageCounters,
        publisher: &PublisherCounters,
    ) -> (r: PipelineCounts)
        requires
            capture.produced_frames <= usize::MAX,
            publisher.consumed_frames <= usize::MAX,
            converter_dropped_frames + adapter.dropped + encoder.dropped <= u64::MAX,
        ensures
            r.width == width,
            r.height == height,
            r.produced_frames == capture.produced_frames,
            r.would_block_events == capture.would_block_events,
            r.poll_attempts == capture.poll_attempts,
            capture.produced_frames == 0 ==> r.avg_frame_bytes == 0,
            capture.produced_frames > 0 ==> r.avg_frame_bytes == capture.total_bytes / (
            capture.produced_frames as usize),
            r.pipeline_sent_frames == capture.sent_frames,
            r.pipeline_dropped_frames == capture.dropped_frames,
            r.pipeline_consumed_frames == publisher.consumed_frames,
            r.pipeline_consumed_bytes == publisher.consumed_bytes,
            r.encoder_converted_frames == converted_frames,
            r.encoder_dropped_frames == converter_dropped_frames + adapter.dropped
                + encoder.dropped,
            publisher.consumed_frames == 0 ==> r.publisher_avg_payload_bytes == 0,
            publisher.consumed_frames > 0 ==> r.publisher_avg_payload_bytes
                == publisher.total_payload_bytes / (publisher.consumed_frames as usize),
    {
        PipelineCounts {
            width,
            height,
            produced_frames: capture.produced_frames,
            would_block_events: capture.would_block_events,
            poll_attempts: capture.poll_attempts,
            avg_frame_bytes: capture.avg_frame_bytes(),
            pipeline_sent_frames: capture.sent_frames,
            pipeline_dropped_frames: capture.dropped_frames,
            pipeline_consumed_frames: publisher.consumed_frames,
            pipeline_consumed_bytes: publisher.consumed_bytes,
            encoder_converted_frames: converted_frames,
            encoder_dropped_frames: converter_dropped_frames + adapter.dropped + encoder.dropped,
            publisher_avg_payload_bytes: publisher.avg_payload_bytes(),
        }
    }

    /// The frames lost anywhere in the pipeline: dropped before the first
    /// stage, plus dropped in the stages.
    pub fn report_dropped_frames(&self) -> (r: u64)
        requires
            self.pipeline_dropped_frames + self.encoder_dropped_frames <= u64::MAX,
        ensures
            r == self.pipeline_dropped_frames + self.encoder_dropped_frames,
    {
        self.pipeline_dropped_frames + self.encoder_dropped_frames
    }
}

} // verus!
