//! Virtual monitors: which display index a created monitor has, the
//! helper's report of its display, and the monitor's release.

use vstd::prelude::*;
use vstd::string::*;
use crate::numparse::{parse_unsigned, spec_parse_unsigned};
use crate::text::{contains, occurs_in, owned, starts_with, trim, trim_of};

verus! {

/// A virtual monitor that was created, and which display index it has.
pub struct VirtualMonitor {
    pub display_index: usize,
    released: bool,
}

/// Why a virtual monitor cannot be had.
#[derive(Debug, Clone, Copy, PartialEq, Eq, Structural)]
pub enum VirtualDisplayError {
    /// This system has no way to create one.
    Unsupported,
    /// The helper's report of the display id was not a number.
    InvalidDisplayId,
    /// The helper reported no display id.
    NoDisplayId,
}

impl VirtualDisplayError {
    /// The message shown for the error.
    pub fn message(&self) -> (r: &'static str)
        ensures
            *self == VirtualDisplayError::Unsupported ==> r@
                == "Virtual displays are not supported on this platform"@,
            *self == VirtualDisplayError::InvalidDisplayId ==> r@ == "Invalid display ID"@,
            *self == VirtualDisplayError::NoDisplayId ==> r@
                == "Virtual display helper did not return a display ID. Make sure you're on macOS 14+ (Sonoma)."@,
    {
        match self {
            VirtualDisplayError::Unsupported => "Virtual displays are not supported on this platform",
            VirtualDisplayError::InvalidDisplayId => "Invalid display ID",
            VirtualDisplayError::NoDisplayId => "Virtual display helper did not return a display ID. Make sure you're on macOS 14+ (Sonoma).",
        }
    }
}

impl VirtualMonitor {
    /// A created monitor that has display index `display_index`.
    pub fn new(display_index: usize) -> (r: VirtualMonitor)
        ensures
            r.index() == display_index,
            r.is_active(),
    {
        VirtualMonitor { display_index, released: false }
    }

    /// The display index of the monitor.
    pub closed spec fn index(&self) -> usize {
        self.display_index
    }

    /// Whether the monitor has not been released yet.
    pub closed spec fn is_active(&self) -> bool {
        !self.released
    }

    /// Whether the monitor has not been released yet.
    pub fn active(&self) -> (r: bool)
        ensures
            r == self.is_active(),
    {
        !self.released
    }

    /// Releases the monitor. Releasing succeeds, also when the monitor was
    /// released already, and keeps its display index.
    pub fn destroy(&mut self) -> (r: Result<(), VirtualDisplayError>)
        ensures
            r is Ok,
            !final(self).is_active(),
            final(self).index() == old(self).index(),
    {
        self.released = true;
        Ok(())
    }
}

/// A virtual monitor made by the Windows virtual display driver, of the
/// size it was asked for.
pub struct WinVirtualMonitor {
    pub width: u32,
    pub height: u32,
}

impl WinVirtualMonitor {
    /// The monitor of `width` by `height`.
    pub fn new(width: u32, height: u32) -> (r: WinVirtualMonitor)
        ensures
            r.width == width,
            r.height == height,
    {
        WinVirtualMonitor { width, height }
    }
}

/// The position of `target` among the active display ids, if it is there.
pub fn display_index_for(ids: &Vec<u32>, target: u32) -> (r: Option<usize>)
    ensures
        match r {
            Some(i) => i < ids@.len() && ids@[i as int] == target && forall|j: int|
                0 <= j < i ==> ids@[j] != target,
            None => forall|j: int| 0 <= j < ids@.len() ==> ids@[j] != target,
        },
{
    let mut i: usize = 0;
    while i < ids.len()
        invariant
            0 <= i <= ids@.len(),
            forall|j: int| 0 <= j < i ==> ids@[j] != target,
        decreases ids@.len() - i,
    {
        if ids[i] == target {
            return Some(i);
        }
        i += 1;
    }
    None
}

/// The display index to use where a new monitor's id cannot be found: the
/// last of `count` displays, or 0.
pub fn fallback_display_index(count: usize) -> (r: usize)
    ensures
        r == if count > 0 {
            count - 1
        } else {
            0
        },
{
    count.saturating_sub(1)
}

/// What one line of the helper's output says.
#[derive(Debug, Clone, Copy, PartialEq, Eq, Structural)]
pub enum HelperLine {
    /// The line does not report the display id.
    Other,
    /// The display id reported.
    DisplayId(u32),
    /// The line reports a display id that is not a number.
    Invalid,
}

/// What a helper line says: a line `DISPLAY_ID=<n>` reports `n`, white
/// space around the number allowed.
pub open spec fn helper_line_of(line: Seq<char>) -> HelperLine {
    if "DISPLAY_ID="@.is_prefix_of(line) {
        match spec_parse_unsigned(trim_of(line.subrange(11, line.len() as int)), u32::MAX as int) {
            Some(n) => HelperLine::DisplayId(n as u32),
            None => HelperLine::Invalid,
        }
    } else {
        HelperLine::Other
    }
}

/// Reads one line of the helper's output.
pub fn parse_helper_line(line: &str) -> (r: HelperLine)
    ensures
        r == helper_line_of(line@),
{
    proof {
        reveal_strlit("DISPLAY_ID=");
    }
    if !starts_with(line, "DISPLAY_ID=") {
        return HelperLine::Other;
    }
    let n = line.unicode_len();
    let rest = line.substring_char(11, n);
    let t = trim(rest);
    match parse_unsigned(t.as_str(), 4294967295) {
        Some(v) => HelperLine::DisplayId(v as u32),
        None => HelperLine::Invalid,
    }
}

/// The display id a helper reported, where it is not 0.
pub fn reported_display_id(id: u32) -> (r: Result<u32, VirtualDisplayError>)
    ensures
        id == 0 ==> r == Err::<u32, VirtualDisplayError>(VirtualDisplayError::NoDisplayId),
        id != 0 ==> r == Ok::<u32, VirtualDisplayError>(id),
{
    if id == 0 {
        Err(VirtualDisplayError::NoDisplayId)
    } else {
        Ok(id)
    }
}

/// Whether the device list printed by `pnputil` shows the virtual display
/// driver.
pub fn driver_listed(device_list: &str) -> (r: bool)
    ensures
        r == (occurs_in(device_list@, "Virtual Display"@) || occurs_in(
            device_list@,
            "IddSample"@,
        )),
{
    contains(device_list, "Virtual Display") || contains(device_list, "IddSample")
}

} // verus!
