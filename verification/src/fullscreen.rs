use vstd::prelude::*;

verus! {

/// How a window goes fullscreen: taking over a video mode exclusively, or
/// borderless over the desktop.
#[derive(Debug, Clone, Copy, PartialEq, Eq, Structural, Hash)]
pub enum FullscreenMode {
    Exclusive,
    Borderless,
}

/// The pixel area of a video mode given as width and height.
pub open spec fn mode_area(m: (u32, u32)) -> int {
    m.0 * m.1
}

/// The preferred video mode for exclusive fullscreen: the earliest mode
/// with the largest pixel area, or None when no mode is available.
pub fn preferred_video_mode_index(modes: &Vec<(u32, u32)>) -> (r: Option<usize>)
    ensures
        (r is Some) == (modes@.len() > 0),
        r matches Some(i) ==> i < modes@.len() && (forall|j: int|
            0 <= j < modes@.len() ==> mode_area(modes@[j]) <= mode_area(modes@[i as int])) && (
        forall|j: int| 0 <= j < i ==> mode_area(modes@[j]) < mode_area(modes@[i as int])),
{
    let n = modes.len();
    if n == 0 {
        return None;
    }
    let mut best: usize = 0;
    let mut i: usize = 1;
    while i < n
        invariant
            n == modes@.len(),
            best < i <= n,
            forall|j: int| 0 <= j < i ==> mode_area(modes@[j]) <= mode_area(modes@[best as int]),
            forall|j: int| 0 <= j < best ==> mode_area(modes@[j]) < mode_area(modes@[best as int]),
        decreases n - i,
    {
        let (bw, bh) = modes[best];
        let (w, h) = modes[i];
        proof {
            vstd::arithmetic::mul::lemma_mul_upper_bound(
                bw as int,
                0xFFFF_FFFF,
                bh as int,
                0xFFFF_FFFF,
            );
            vstd::arithmetic::mul::lemma_mul_upper_bound(
                w as int,
                0xFFFF_FFFF,
                h as int,
                0xFFFF_FFFF,
            );
        }
        if (bw as u64) * (bh as u64) < (w as u64) * (h as u64) {
            best = i;
        }
        i += 1;
    }
    Some(best)
}

} // verus!
