use vstd::prelude::*;

verus! {

/// True when `r` is the format index picked from a list whose sRGB flags are `srgb`:
/// the first sRGB-capable format, or the first format when none is sRGB.
pub open spec fn is_chosen_format(srgb: Seq<bool>, r: int) -> bool {
    &&& 0 <= r < srgb.len()
    &&& forall|j: int| 0 <= j < r ==> !srgb[j]
    &&& (srgb[r] || (r == 0 && forall|j: int| 0 <= j < srgb.len() ==> !srgb[j]))
}

/// Picks the surface format among the formats the surface supports, given
/// whether each one is sRGB: the first sRGB one, else the first one.
/// There is nothing to pick from an empty list.
pub fn choose_format(srgb: &Vec<bool>) -> (r: Option<usize>)
    ensures
        srgb@.len() == 0 <==> r is None,
        r matches Some(i) ==> is_chosen_format(srgb@, i as int),
{
    let mut i: usize = 0;
    while i < srgb.len()
        invariant
            i <= srgb@.len(),
            forall|j: int| 0 <= j < i ==> !srgb@[j],
        decreases srgb@.len() - i,
    {
        if srgb[i] {
            return Some(i);
        }
        i = i + 1;
    }
    if srgb.len() == 0 {
        None
    } else {
        Some(0)
    }
}

/// When presented frames reach the display.
#[derive(Clone, Copy, Debug, PartialEq, Eq, Structural)]
pub enum PresentMode {
    /// Frames wait in a queue for the display's vertical blank.
    Fifo,
}

/// A surface of this size that reports these formats and this many alpha
/// modes can be configured.
pub open spec fn configurable(width: u32, height: u32, srgb: Seq<bool>, alpha_modes: usize) -> bool {
    width > 0 && height > 0 && srgb.len() > 0 && alpha_modes > 0
}

/// The part of the surface configuration that the render state decides:
/// its size, which supported format and alpha mode it presents in (as
/// indices among those the surface reports), and the presentation mode.
#[derive(Clone, Copy, Debug, PartialEq, Eq, Structural)]
pub struct SurfaceConfig {
    pub width: u32,
    pub height: u32,
    pub format_index: usize,
    pub alpha_mode_index: usize,
    pub present_mode: PresentMode,
}

impl SurfaceConfig {
    /// Every configuration handed to the surface has a non-zero area.
    pub open spec fn wf(&self) -> bool {
        self.width > 0 && self.height > 0
    }

    /// The first configuration of a surface: the window's size, the chosen
    /// format, the first alpha mode the surface reports, and first-in
    /// first-out presentation. Fails when the window has no area or the
    /// surface reports no format or no alpha mode.
    pub fn new(width: u32, height: u32, srgb: &Vec<bool>, alpha_modes: usize) -> (r: Option<
        SurfaceConfig,
    >)
        ensures
            r is Some <==> configurable(width, height, srgb@, alpha_modes),
            r matches Some(c) ==> {
                &&& c.wf()
                &&& c.width == width
                &&& c.height == height
                &&& is_chosen_format(srgb@, c.format_index as int)
                &&& c.alpha_mode_index == 0
                &&& c.present_mode == PresentMode::Fifo
            },
    {
        if width == 0 || height == 0 || alpha_modes == 0 {
            return None;
        }
        match choose_format(srgb) {
            Some(i) => Some(
                SurfaceConfig {
                    width,
                    height,
                    format_index: i,
                    alpha_mode_index: 0,
                    present_mode: PresentMode::Fifo,
                },
            ),
            None => None,
        }
    }

    /// Applies a size-change event. When both dimensions are non-zero they
    /// replace the stored ones and the result asks for the surface to be
    /// reconfigured; otherwise nothing changes and nothing is to be done.
    pub fn resize(&mut self, width: u32, height: u32) -> (reconfigure: bool)
        requires
            old(self).wf(),
        ensures
            final(self).wf(),
            reconfigure == (width > 0 && height > 0),
            reconfigure ==> *final(self) == (SurfaceConfig { width, height, ..*old(self) }),
            !reconfigure ==> *final(self) == *old(self),
    {
        if width > 0 && height > 0 {
            self.width = width;
            self.height = height;
            true
        } else {
            false
        }
    }
}

} // verus!
