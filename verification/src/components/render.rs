use crate::data_store::textured_model_name::TexturedModelName;
use vstd::prelude::*;

verus! {

/// Link from an entity to the render collaborator's model asset.
#[derive(Debug, PartialEq, Eq, Structural, Clone, Copy)]
pub struct MeshInstance {
    pub model_name: TexturedModelName,
}

/// A UI text overlay.
#[derive(Debug)]
pub struct Text {
    pub x: i32,
    pub y: i32,
    pub text: String,
    pub size: u32,
    pub color: u32,
}

impl Clone for Text {
    /// Clones the overlay, field for field.
    fn clone(&self) -> (r: Self)
        ensures
            r == self,
    {
        Text {
            x: self.x,
            y: self.y,
            text: self.text.clone(),
            size: self.size,
            color: self.color,
        }
    }
}

} // verus!
