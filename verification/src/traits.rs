//! How the parts of the game are built from their settings.

use vstd::prelude::*;

verus! {

/// Something that is built from a configuration of its own kind.
pub trait FromConfig: Sized {
    type Config<'a>;

    /// The thing that `config` describes.
    fn from_config<'a>(config: Self::Config<'a>) -> Self;

    /// Takes over a new configuration. By default nothing is taken over.
    fn set_config<'a>(&mut self, _config: Self::Config<'a>) {
    }
}

} // verus!
