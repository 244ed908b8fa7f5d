use vstd::prelude::*;

verus! {

/// A bounds rectangle in pixels, held as the bit patterns of its four
/// coordinates (origin x, origin y, width, height). The library stores and
/// hands back such values unchanged; it never computes with them.
#[derive(Clone, Copy, Debug, PartialEq, Eq, Structural)]
pub struct BoundsBits {
    pub origin_x: u32,
    pub origin_y: u32,
    pub width: u32,
    pub height: u32,
}

} // verus!
