//! Files the game loads, located by name.
use vstd::prelude::*;
use crate::text::{join_path, join_path_spec};

verus! {

/// Something stored in a file of the game's assets.
pub trait Asset {
    /// The path of its file.
    spec fn spec_path(&self) -> Seq<char>;

    fn path(&self) -> (p: String)
        ensures
            p@ == self.spec_path(),
    ;
}

/// A texture, known by its file name under the textures folder.
pub trait TextureAsset {
    /// The file name of the texture.
    spec fn spec_name(&self) -> Seq<char>;

    fn name(&self) -> (n: String)
        ensures
            n@ == self.spec_name(),
    ;
}

impl<T: TextureAsset> Asset for T {
    /// Textures are stored under the textures folder.
    open spec fn spec_path(&self) -> Seq<char> {
        join_path_spec("textures"@, self.spec_name())
    }

    fn path(&self) -> (p: String) {
        let name = self.name();
        join_path("textures", name.as_str())
    }
}

} // verus!
