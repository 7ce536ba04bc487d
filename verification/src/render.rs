use vstd::prelude::*;

verus! {

/// Alpha of the thin bright glow line drawn just inside an accretion band of
/// alpha `band_alpha`: `band_alpha * 55 / 215`, rounded down.
pub fn glow_alpha(band_alpha: u8) -> (a: u8)
    ensures
        a == band_alpha as int * 55 / 215,
        a <= 65,
{
    ((band_alpha as u32) * 55 / 215) as u8
}

/// Alpha of the radial spoke `spoke` around the black hole: the even spokes
/// are drawn with alpha 50, the odd ones with alpha 20.
pub fn spoke_alpha(spoke: u32) -> (a: u8)
    ensures
        a == (if spoke % 2 == 0 { 50u8 } else { 20u8 }),
{
    if spoke % 2 == 0 {
        50
    } else {
        20
    }
}

/// Whether a background star of luminance `lum` gets the small cross flare:
/// only stars brighter than 220 do.
pub fn has_flare(lum: u8) -> (b: bool)
    ensures
        b == (lum > 220),
{
    lum > 220
}

} // verus!
