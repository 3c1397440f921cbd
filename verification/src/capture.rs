//! Pacing and bookkeeping of screen capture: the interval between frames,
//! the choice of monitor, the labels of monitors and the frame-rate count.

use vstd::prelude::*;
use vstd::string::*;
use crate::numparse::{append_decimal, decimal_digits};
use crate::text::owned;

verus! {

/// The time between two captures at `max_fps` frames per second, in
/// microseconds.
pub fn frame_interval_micros(max_fps: u32) -> (r: u64)
    requires
        max_fps > 0,
    ensures
        r == 1000000int / (max_fps as int),
{
    1000000 / (max_fps as u64)
}

/// How long to wait after a capture that took `elapsed` so that captures
/// are `interval` apart; nothing where it took that long already.
pub fn pacing_delay_micros(interval: u64, elapsed: u64) -> (r: u64)
    ensures
        r == if elapsed < interval {
            interval - elapsed
        } else {
            0
        },
{
    if elapsed < interval {
        interval - elapsed
    } else {
        0
    }
}

/// Why capture cannot start.
#[derive(Debug, Clone, Copy, PartialEq, Eq, Structural)]
pub enum CaptureError {
    /// The monitor asked for is not among those found.
    MonitorOutOfRange { index: usize, count: usize },
}

impl CaptureError {
    /// The message shown for the error.
    pub fn message(&self) -> (r: String)
        ensures
            match *self {
                CaptureError::MonitorOutOfRange { index, count } => r@ == "Monitor index "@
                    + decimal_digits(index as nat) + " out of range (found "@ + decimal_digits(
                    count as nat,
                ) + " displays)"@,
            },
    {
        match self {
            CaptureError::MonitorOutOfRange { index, count } => {
                let mut s = owned("Monitor index ");
                append_decimal(&mut s, *index as u64);
                s.append(" out of range (found ");
                append_decimal(&mut s, *count as u64);
                s.append(" displays)");
                s
            },
        }
    }
}

/// Checks that monitor `index` is among the `count` found.
pub fn check_monitor_index(index: usize, count: usize) -> (r: Result<(), CaptureError>)
    ensures
        index < count ==> r is Ok,
        index >= count ==> r == Err::<(), CaptureError>(
            CaptureError::MonitorOutOfRange { index, count },
        ),
{
    if index >= count {
        Err(CaptureError::MonitorOutOfRange { index, count })
    } else {
        Ok(())
    }
}

/// The label of monitor `i` of size `width` by `height`.
pub open spec fn display_label_of(i: nat, width: nat, height: nat) -> Seq<char> {
    "Display "@ + decimal_digits(i) + ": "@ + decimal_digits(width) + "x"@ + decimal_digits(
        height,
    )
}

/// The label of monitor `i` of size `width` by `height`, such as
/// `Display 0: 1920x1080`.
pub fn display_label(i: usize, width: usize, height: usize) -> (r: String)
    ensures
        r@ == display_label_of(i as nat, width as nat, height as nat),
{
    let mut s = owned("Display ");
    append_decimal(&mut s, i as u64);
    s.append(": ");
    append_decimal(&mut s, width as u64);
    s.append("x");
    append_decimal(&mut s, height as u64);
    s
}

/// The labels of monitors of the given sizes, numbered in order from 0.
pub fn display_labels(sizes: &Vec<(usize, usize)>) -> (r: Vec<String>)
    ensures
        r@.len() == sizes@.len(),
        forall|i: int|
            0 <= i < sizes@.len() ==> #[trigger] r@[i]@ == display_label_of(
                i as nat,
                sizes@[i].0 as nat,
                sizes@[i].1 as nat,
            ),
{
    let mut r: Vec<String> = Vec::new();
    let mut i: usize = 0;
    while i < sizes.len()
        invariant
            0 <= i <= sizes@.len(),
            r@.len() == i,
            forall|j: int|
                0 <= j < i ==> #[trigger] r@[j]@ == display_label_of(
                    j as nat,
                    sizes@[j].0 as nat,
                    sizes@[j].1 as nat,
                ),
        decreases sizes@.len() - i,
    {
        let (w, h) = sizes[i];
        r.push(display_label(i, w, h));
        i += 1;
    }
    r
}

/// Counts frames and reports the count once a second.
pub struct FrameRate {
    count: u32,
    window_start_ms: u64,
}

impl FrameRate {
    /// A counter whose first second starts at `now_ms`.
    pub fn new(now_ms: u64) -> (r: FrameRate)
        ensures
            r.frames() == 0,
            r.window_start() == now_ms,
    {
        FrameRate { count: 0, window_start_ms: now_ms }
    }

    /// Frames counted in the current second.
    pub closed spec fn frames(&self) -> u32 {
        self.count
    }

    /// When the current second started.
    pub closed spec fn window_start(&self) -> u64 {
        self.window_start_ms
    }

    /// Counts one frame.
    pub fn on_frame(&mut self)
        ensures
            final(self).frames() == old(self).frames().wrapping_add(1),
            final(self).window_start() == old(self).window_start(),
    {
        self.count = self.count.wrapping_add(1);
    }

    /// At `now_ms`: where a second or more has passed since the current
    /// second started, returns the frames counted and starts a new second;
    /// otherwise returns `None` and changes nothing.
    pub fn tick(&mut self, now_ms: u64) -> (r: Option<u32>)
        ensures
            now_ms >= old(self).window_start() && now_ms - old(self).window_start() >= 1000 ==> r
                == Some(old(self).frames()) && final(self).frames() == 0
                && final(self).window_start() == now_ms,
            !(now_ms >= old(self).window_start() && now_ms - old(self).window_start() >= 1000)
                ==> r is None && final(self).frames() == old(self).frames()
                && final(self).window_start() == old(self).window_start(),
    {
        if now_ms >= self.window_start_ms && now_ms - self.window_start_ms >= 1000 {
            let n = self.count;
            self.count = 0;
            self.window_start_ms = now_ms;
            Some(n)
        } else {
            None
        }
    }
}

} // verus!
