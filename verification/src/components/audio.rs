use crate::data_store::asset_name::AssetName;
use vstd::prelude::*;

verus! {

/// How the audio collaborator plays a clip.
#[derive(Debug, PartialEq, Eq, Structural, Clone, Copy)]
pub enum AudioPlayMode {
    Once,
    Infinite,
}

/// An audio clip attached to an entity; playback is the audio
/// collaborator's concern.
#[derive(Debug, PartialEq, Eq, Structural, Clone, Copy)]
pub struct Audio {
    pub name: AssetName,
    pub play_mode: AudioPlayMode,
}

impl Audio {
    /// Builds an audio component for the named asset.
    pub fn new(name: AssetName, play_mode: AudioPlayMode) -> (r: Audio)
        ensures
            r == (Audio { name, play_mode }),
    {
        Audio { name, play_mode }
    }
}

} // verus!
