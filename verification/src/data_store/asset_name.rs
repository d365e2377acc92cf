use vstd::prelude::*;

verus! {

/// Enumerates all raw assets that exist in the project. Each name resolves
/// to an immutable byte blob compiled into the host program; resolution is
/// the host's concern and always succeeds at build time.
#[derive(Debug, PartialEq, Eq, Structural, Clone, Copy)]
pub enum AssetName {
    Cube,
    Suzanne,
    Triangle,
    CubeTexture,
    TriangleTexture,
    SuzanneTexture,
    DemoMusic,
    BoingSFX,
    FreeMonoBold,
}

} // verus!
