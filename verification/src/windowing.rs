//! Bookkeeping of the streaming spectrum accumulator: how decoded samples
//! fill FFT windows, when decoding stops, and when an analysis has nothing
//! to report.

use vstd::prelude::*;
use crate::errors::AnalysisError;

verus! {

/// The most samples that are decoded from a stream of `sample_rate` hertz
/// under a limit of `max_duration` thousandths of a second: the samples of
/// that stretch, or no limit where the duration is zero or less.
pub open spec fn sample_budget(max_duration: i64, sample_rate: u32) -> Option<int> {
    if max_duration > 0 {
        Some(max_duration * sample_rate / 1000)
    } else {
        None
    }
}

/// Counts the samples of one analysis as they fill FFT windows.
pub struct WindowCounter {
    window_size: usize,
    budget: Option<u128>,
    buffered: usize,
    windows: usize,
    decoded: u128,
}

impl WindowCounter {
    /// The counter holds fewer samples than one window.
    #[verifier::type_invariant]
    spec fn wf(&self) -> bool {
        &&& self.window_size > 0
        &&& self.buffered < self.window_size
    }

    /// Samples per window.
    pub closed spec fn window_size(&self) -> usize {
        self.window_size
    }

    /// Samples waiting in the unfinished window.
    pub closed spec fn buffered(&self) -> usize {
        self.buffered
    }

    /// Windows completed so far.
    pub closed spec fn windows(&self) -> usize {
        self.windows
    }

    /// Samples of the frames decoded so far.
    pub closed spec fn decoded(&self) -> int {
        self.decoded as int
    }

    /// The limit on decoded samples, if any.
    pub closed spec fn budget(&self) -> Option<int> {
        match self.budget {
            Some(b) => Some(b as int),
            None => None,
        }
    }

    /// Starts the count for a stream. A stream without a sample rate, or a
    /// window of no samples, can never complete a window: the analysis fails
    /// at once with `InvalidAudioFormat`.
    pub fn begin(window_size: usize, sample_rate: u32, max_duration: i64) -> (r: Result<
        Self,
        AnalysisError,
    >)
        ensures
            (sample_rate == 0 || window_size == 0) <==> r is Err,
            r matches Err(e) ==> e is InvalidAudioFormat,
            r matches Ok(c) ==> {
                &&& c.window_size() == window_size
                &&& c.buffered() == 0
                &&& c.windows() == 0
                &&& c.decoded() == 0
                &&& c.budget() == sample_budget(max_duration, sample_rate)
            },
    {
        if sample_rate == 0 || window_size == 0 {
            return Err(AnalysisError::InvalidAudioFormat);
        }
        let budget: Option<u128> = if max_duration > 0 {
            assert(max_duration * sample_rate <= 0x8000_0000_0000_0000 * 0x1_0000_0000)
                by (nonlinear_arith)
                requires
                    0 < max_duration <= 0x8000_0000_0000_0000,
                    0 <= sample_rate <= 0x1_0000_0000,
            ;
            Some((max_duration as u128) * (sample_rate as u128) / 1000)
        } else {
            None
        };
        Ok(WindowCounter { window_size, budget, buffered: 0, windows: 0, decoded: 0 })
    }

    /// Samples that still fit into the unfinished window: at least one.
    pub fn room(&self) -> (n: usize)
        ensures
            n == self.window_size() - self.buffered(),
            n > 0,
    {
        proof {
            use_type_invariant(self);
        }
        self.window_size - self.buffered
    }

    /// Windows completed so far.
    pub fn window_count(&self) -> (n: usize)
        ensures
            n == self.windows(),
    {
        self.windows
    }

    /// Takes `n` samples into the unfinished window, `n` being no more than
    /// its room, and tells whether the window is now complete. A complete
    /// window is counted and the next one starts empty.
    pub fn push(&mut self, n: usize) -> (complete: bool)
        requires
            n <= old(self).window_size() - old(self).buffered(),
            old(self).windows() < usize::MAX,
        ensures
            final(self).window_size() == old(self).window_size(),
            final(self).budget() == old(self).budget(),
            final(self).decoded() == old(self).decoded(),
            complete == (old(self).buffered() + n == old(self).window_size()),
            complete ==> final(self).buffered() == 0,
            complete ==> final(self).windows() == old(self).windows() + 1,
            !complete ==> final(self).buffered() == old(self).buffered() + n,
            !complete ==> final(self).windows() == old(self).windows(),
    {
        proof {
            use_type_invariant(&*self);
        }
        if self.buffered + n == self.window_size {
            self.buffered = 0;
            self.windows = self.windows + 1;
            true
        } else {
            self.buffered = self.buffered + n;
            false
        }
    }

    /// Records that a decoded frame of `n` samples has been taken in, and
    /// tells whether decoding stops: it does once the samples of the frames
    /// decoded reach the limit.
    pub fn frame_done(&mut self, n: usize) -> (stop: bool)
        requires
            old(self).decoded() + n <= u128::MAX,
        ensures
            final(self).window_size() == old(self).window_size(),
            final(self).budget() == old(self).budget(),
            final(self).buffered() == old(self).buffered(),
            final(self).windows() == old(self).windows(),
            final(self).decoded() == old(self).decoded() + n,
            stop == (final(self).budget() matches Some(limit) && final(self).decoded() >= limit),
    {
        proof {
            use_type_invariant(&*self);
        }
        self.decoded = self.decoded + n as u128;
        match self.budget {
            Some(limit) => self.decoded >= limit,
            None => false,
        }
    }

    /// Ends the count: the number of completed windows, by which the
    /// accumulated magnitudes are divided, or `InvalidAudioFormat` where no
    /// window was ever completed.
    pub fn finish(&self) -> (r: Result<usize, AnalysisError>)
        ensures
            self.windows() == 0 <==> r is Err,
            r matches Err(e) ==> e is InvalidAudioFormat,
            r matches Ok(n) ==> n == self.windows(),
    {
        if self.windows == 0 {
            Err(AnalysisError::InvalidAudioFormat)
        } else {
            Ok(self.windows)
        }
    }
}

/// The bitrate that the analysis knows of: the decoder's, if it is positive.
pub fn known_bitrate(decoder_bitrate: i64) -> (r: Option<i64>)
    ensures
        r == if decoder_bitrate > 0 {
            Some(decoder_bitrate)
        } else {
            None
        },
{
    if decoder_bitrate > 0 {
        Some(decoder_bitrate)
    } else {
        None
    }
}

} // verus!
