//! Plain data that the generator exchanges with a front end.

use vstd::prelude::*;

verus! {

/// What a game is, in the words of its author.
#[derive(Debug, Clone)]
pub struct GameInfo {
    pub name: String,
    pub tagline: String,
    pub description: String,
    pub genre: String,
    pub setting: String,
    pub art_style: String,
}

/// The choices that shape a generation run.
#[derive(Debug, Clone)]
pub struct GenerationOptions {
    pub include_voice_acting: bool,
    pub include_orchestral_music: bool,
    pub target_playtime_hours: u32,
    pub difficulty_options: Vec<String>,
    pub accessibility_features: Vec<String>,
}

/// Something that a generation run produced.
#[derive(Debug, Clone)]
pub struct GeneratedArtifact {
    pub artifact_type: String,
    pub name: String,
    pub path: Option<String>,
    /// A preview of an image, Base64 encoded.
    pub preview: Option<String>,
}

} // verus!
