//! Choices the window makes: which monitor to capture, how to label a
//! resolution, when the viewer needs a new window or should close.

use vstd::prelude::*;
use vstd::string::*;
use crate::numparse::{append_decimal, decimal_digits};
use crate::text::owned;

verus! {

/// The resolutions offered for a virtual display, with their labels.
pub open spec fn resolution_presets() -> Seq<(u32, u32, Seq<char>)> {
    seq![
        (1280u32, 720u32, "1280x720 (HD)"@),
        (1920u32, 1080u32, "1920x1080 (Full HD)"@),
        (2560u32, 1440u32, "2560x1440 (QHD)"@),
        (3840u32, 2160u32, "3840x2160 (4K)"@),
    ]
}

/// The label of a resolution: the preset's where it is one, else
/// `<width>x<height>`.
pub open spec fn resolution_label_of(width: u32, height: u32) -> Seq<char> {
    if width == 1280 && height == 720 {
        "1280x720 (HD)"@
    } else if width == 1920 && height == 1080 {
        "1920x1080 (Full HD)"@
    } else if width == 2560 && height == 1440 {
        "2560x1440 (QHD)"@
    } else if width == 3840 && height == 2160 {
        "3840x2160 (4K)"@
    } else {
        decimal_digits(width as nat) + "x"@ + decimal_digits(height as nat)
    }
}

/// The label of a resolution.
pub fn resolution_label(width: u32, height: u32) -> (r: String)
    ensures
        r@ == resolution_label_of(width, height),
{
    if width == 1280 && height == 720 {
        owned("1280x720 (HD)")
    } else if width == 1920 && height == 1080 {
        owned("1920x1080 (Full HD)")
    } else if width == 2560 && height == 1440 {
        owned("2560x1440 (QHD)")
    } else if width == 3840 && height == 2160 {
        owned("3840x2160 (4K)")
    } else {
        let mut s = String::new();
        append_decimal(&mut s, width as u64);
        s.append("x");
        append_decimal(&mut s, height as u64);
        s
    }
}

/// The sizes of the offered resolutions, in the order they are offered.
pub fn resolution_preset_sizes() -> (r: Vec<(u32, u32)>)
    ensures
        r@.len() == resolution_presets().len(),
        forall|i: int|
            0 <= i < r@.len() ==> r@[i] == (resolution_presets()[i].0, resolution_presets()[i].1),
{
    let r = vec![(1280u32, 720u32), (1920u32, 1080u32), (2560u32, 1440u32), (3840u32, 2160u32)];
    assert(r@ =~= seq![(1280u32, 720u32), (1920u32, 1080u32), (2560u32, 1440u32), (3840u32, 2160u32)]);
    r
}

/// The label of each preset is the label of its resolution.
pub proof fn law_preset_labels(i: int)
    requires
        0 <= i < resolution_presets().len(),
    ensures
        resolution_label_of(resolution_presets()[i].0, resolution_presets()[i].1)
            == resolution_presets()[i].2,
{
}

/// The monitor to capture as primary: the virtual monitor's where one is
/// wanted and was created, else the configured one.
pub fn capture_monitor_for(use_virtual: bool, virtual_index: Option<usize>, configured: usize) -> (r: usize)
    ensures
        r == if use_virtual && virtual_index is Some {
            virtual_index->Some_0
        } else {
            configured
        },
{
    if use_virtual {
        match virtual_index {
            Some(i) => i,
            None => configured,
        }
    } else {
        configured
    }
}

/// Whether the viewer must open a window for a frame of `width` by
/// `height`: it has none, or the size changed.
pub fn needs_new_window(has_window: bool, current: (usize, usize), width: usize, height: usize) -> (r: bool)
    ensures
        r == (!has_window || width != current.0 || height != current.1),
{
    !has_window || width != current.0 || height != current.1
}

/// Whether the viewer stops: its window was closed or Escape is held.
pub fn viewer_should_close(window_open: bool, escape_down: bool) -> (r: bool)
    ensures
        r == (!window_open || escape_down),
{
    !window_open || escape_down
}

} // verus!
