use vstd::prelude::*;

verus! {

/// A video mode that a monitor offers: its resolution in pixels and its
/// refresh rate in millihertz.
#[derive(PartialEq, Eq, Structural, Clone, Copy, Debug)]
pub struct VideoMode {
    pub width: u32,
    pub height: u32,
    pub refresh_rate_millihertz: u32,
}

/// The number of pixels of a mode.
pub open spec fn spec_area(mode: VideoMode) -> int {
    mode.width as int * mode.height as int
}

/// Whether `a` ranks strictly above `b`: more pixels, or as many pixels and a
/// higher refresh rate.
pub open spec fn outranks(a: VideoMode, b: VideoMode) -> bool {
    spec_area(a) > spec_area(b) || (spec_area(a) == spec_area(b) && a.refresh_rate_millihertz
        > b.refresh_rate_millihertz)
}

/// Whether the area of every mode fits in a `u32`.
pub open spec fn areas_fit(modes: Seq<VideoMode>) -> bool {
    forall|i: int| 0 <= i < modes.len() ==> #[trigger] spec_area(modes[i]) <= u32::MAX
}

/// Whether `best` is the index of the mode that fullscreen picks: no mode
/// outranks it, and it outranks every mode after it, so that among modes
/// that rank equally the last one is chosen.
pub open spec fn is_best_mode(modes: Seq<VideoMode>, best: int) -> bool {
    &&& 0 <= best < modes.len()
    &&& forall|j: int| 0 <= j < modes.len() ==> !outranks(#[trigger] modes[j], modes[best])
    &&& forall|j: int| best < j < modes.len() ==> outranks(modes[best], #[trigger] modes[j])
}

impl VideoMode {
    /// The number of pixels of the mode.
    pub fn area(&self) -> (res: u32)
        requires
            spec_area(*self) <= u32::MAX,
        ensures
            res == spec_area(*self),
    {
        self.width * self.height
    }
}

/// Picks the video mode for exclusive fullscreen: the one with the most
/// pixels and, among those, the highest refresh rate; among modes that rank
/// equally, the last. There must be at least one mode.
///
/// Areas are computed in `u32` as soon as two modes are compared, so with two
/// or more modes every area must fit.
pub fn best_video_mode(modes: &Vec<VideoMode>) -> (res: usize)
    requires
        modes@.len() > 0,
        modes@.len() >= 2 ==> areas_fit(modes@),
    ensures
        is_best_mode(modes@, res as int),
        res < modes@.len(),
        forall|j: int|
            0 <= j < modes@.len() ==> {
                let (a, b) = (#[trigger] modes@[j], modes@[res as int]);
                &&& (a.width as int) * (a.height as int) <= (b.width as int) * (b.height as int)
                &&& (a.width as int) * (a.height as int) == (b.width as int) * (b.height as int)
                    ==> a.refresh_rate_millihertz <= b.refresh_rate_millihertz
            },
        forall|j: int|
            res < j < modes@.len() ==> {
                let (a, b) = (#[trigger] modes@[j], modes@[res as int]);
                ||| (a.width as int) * (a.height as int) < (b.width as int) * (b.height as int)
                ||| ((a.width as int) * (a.height as int) == (b.width as int) * (b.height as int)
                    && a.refresh_rate_millihertz < b.refresh_rate_millihertz)
            },
{
    let mut best: usize = 0;
    let mut k: usize = 1;
    while k < modes.len()
        invariant
            modes@.len() >= 2 ==> areas_fit(modes@),
            1 <= k <= modes@.len(),
            best < k,
            forall|j: int| 0 <= j < k ==> !outranks(#[trigger] modes@[j], modes@[best as int]),
            forall|j: int| best < j < k ==> outranks(modes@[best as int], #[trigger] modes@[j]),
        decreases modes@.len() - k,
    {
        let a: u32 = modes[best].area();
        let b: u32 = modes[k].area();
        let keep = a > b || (a == b && modes[best].refresh_rate_millihertz
            > modes[k].refresh_rate_millihertz);
        if !keep {
            best = k;
        }
        k = k + 1;
    }
    best
}

/// The chosen mode has the most pixels, counted as width times height, and
/// among modes with as many pixels none has a higher refresh rate; every
/// later mode has fewer pixels, or as many and a lower refresh rate.
pub proof fn best_mode_has_most_pixels(modes: Seq<VideoMode>, best: int)
    requires
        is_best_mode(modes, best),
    ensures
        forall|j: int|
            0 <= j < modes.len() ==> {
                let (a, b) = (#[trigger] modes[j], modes[best]);
                &&& (a.width as int) * (a.height as int) <= (b.width as int) * (b.height as int)
                &&& (a.width as int) * (a.height as int) == (b.width as int) * (b.height as int)
                    ==> a.refresh_rate_millihertz <= b.refresh_rate_millihertz
            },
        forall|j: int|
            best < j < modes.len() ==> {
                let (a, b) = (#[trigger] modes[j], modes[best]);
                ||| (a.width as int) * (a.height as int) < (b.width as int) * (b.height as int)
                ||| ((a.width as int) * (a.height as int) == (b.width as int) * (b.height as int)
                    && a.refresh_rate_millihertz < b.refresh_rate_millihertz)
            },
{
}

} // verus!
