//! Placement of the splash window on the primary display.

use vstd::prelude::*;

verus! {

/// The smallest edge the splash window may have, in physical pixels.
pub const MIN_WINDOW_EDGE: u32 = 4;

/// Where a window stands on a display and how large it is, in physical pixels.
#[derive(Clone, Copy, Debug, PartialEq, Eq, Structural)]
pub struct WindowGeometry {
    pub x: u32,
    pub y: u32,
    pub width: u32,
    pub height: u32,
}

/// An image edge clamped from below to the smallest window edge.
pub open spec fn window_edge(image_edge: u32) -> u32 {
    if image_edge < MIN_WINDOW_EDGE {
        MIN_WINDOW_EDGE
    } else {
        image_edge
    }
}

/// The offset that centers a span of `inner` pixels inside one of `outer`.
pub open spec fn centered_offset(outer: u32, inner: u32) -> int {
    (outer - inner) / 2
}

/// The splash window: as large as the image, but no edge under
/// `MIN_WINDOW_EDGE`, and centered on the display.
pub open spec fn splash_geometry(
    image_width: u32,
    image_height: u32,
    display_width: u32,
    display_height: u32,
) -> WindowGeometry {
    WindowGeometry {
        x: centered_offset(display_width, window_edge(image_width)) as u32,
        y: centered_offset(display_height, window_edge(image_height)) as u32,
        width: window_edge(image_width),
        height: window_edge(image_height),
    }
}

/// Computes the geometry of the splash window for an image of the given
/// size on a display of the given size. The display must be able to hold
/// the window.
pub fn splash_window_geometry(
    image_width: u32,
    image_height: u32,
    display_width: u32,
    display_height: u32,
) -> (g: WindowGeometry)
    requires
        window_edge(image_width) <= display_width,
        window_edge(image_height) <= display_height,
    ensures
        g == splash_geometry(image_width, image_height, display_width, display_height),
        g.x + g.width <= display_width,
        g.y + g.height <= display_height,
{
    let width: u32 = if image_width < MIN_WINDOW_EDGE { MIN_WINDOW_EDGE } else { image_width };
    let height: u32 = if image_height < MIN_WINDOW_EDGE { MIN_WINDOW_EDGE } else { image_height };
    WindowGeometry {
        x: (display_width - width) / 2,
        y: (display_height - height) / 2,
        width,
        height,
    }
}

} // verus!
