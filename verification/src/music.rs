//! Where the game's music is stored.
use vstd::prelude::*;
use crate::text::{join_path, join_path_spec, owned};

verus! {

/// A piece of music, by name.
#[derive(Debug, Clone, Copy)]
pub struct MusicAsset(pub &'static str);

/// A sound, by its path under the audio folder, without extension.
pub struct AudioAsset(pub String);

/// The file of the sound at `path` under the audio folder.
pub open spec fn audio_file(path: Seq<char>) -> Seq<char> {
    join_path_spec("audio"@, path + ".ogg"@)
}

impl MusicAsset {
    /// The sound the music is: its name under the music folder.
    pub fn audio(&self) -> (a: AudioAsset)
        ensures
            a.0@ == join_path_spec("music"@, self.0@),
    {
        AudioAsset(join_path("music", self.0))
    }

    /// The file of the music.
    pub fn path(&self) -> (p: String)
        ensures
            p@ == audio_file(join_path_spec("music"@, self.0@)),
    {
        self.audio().path()
    }
}

impl AudioAsset {
    /// The file of the sound.
    pub fn path(&self) -> (p: String)
        ensures
            p@ == audio_file(self.0@),
    {
        let mut file = owned(self.0.as_str());
        file.append(".ogg");
        join_path("audio", file.as_str())
    }
}

} // verus!
