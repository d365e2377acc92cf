use vstd::prelude::*;

verus! {

/// Enumerates all textured models that exist in the project; the render
/// host resolves each name to mesh and texture data.
#[derive(Debug, PartialEq, Eq, Structural, Clone, Copy)]
pub enum TexturedModelName {
    Cube,
    Triangle,
    Suzanne,
    HandThree,
    HandTwo,
    HandOne,
    HandFist,
    FryPanBlack,
    FryPanWhite,
    FryPanBlue,
    FryPanRed,
    Potato,
    Plate,
    OilSea,
    OilBubble,
}

} // verus!
