//! Per-model capability table: maximum image width, character-set
//! support, and column count for each understood printer model.

use vstd::prelude::*;
use crate::commands::CharacterSet;
use crate::epson_image::Raster;
use crate::Error;

verus! {

/// Maintained and understood models of thermal printers.
#[derive(Copy, Clone, Debug, PartialEq, Eq, Structural)]
pub enum Model {
    /// A generic ESC/POS-compatible thermal printer, with a conservative
    /// set of capabilities and safe defaults.
    Generic,
    /// TM-T20II thermal printer.
    T20II,
    /// TM-T30II thermal printer.
    T30II,
}

/// Maximum printable image width of a model, in pixels.
pub open spec fn spec_max_image_width(model: Model) -> usize {
    match model {
        Model::Generic => 512,
        Model::T20II => 576,
        Model::T30II => 576,
    }
}

/// Whether a model understands a given character set. `Raw` is
/// universally supported; `Unicode` only by the TM-T30II.
pub open spec fn spec_supports_character_set(model: Model, c: CharacterSet) -> bool {
    match c {
        CharacterSet::Raw => true,
        CharacterSet::Unicode => model is T30II,
    }
}

/// Number of printable text columns of a model.
pub open spec fn spec_columns(model: Model) -> usize {
    match model {
        Model::Generic => 48,
        Model::T20II => 48,
        Model::T30II => 48,
    }
}

impl Model {
    /// Return the maximum number of pixels that is wise to send to the
    /// printer. This is in *pixels*, not bytes.
    pub fn get_max_image_width(&self) -> (r: usize)
        ensures
            r == spec_max_image_width(*self),
    {
        match self {
            // Lower, but safe, default.
            Model::Generic => 512,
            // 12 pixels per column, 48 columns, so 576 pixels.
            Model::T20II => 576,
            Model::T30II => 576,
        }
    }

    /// Return the level of support for a specific character set.
    pub fn supports_character_set(&self, c: CharacterSet) -> (r: bool)
        ensures
            r == spec_supports_character_set(*self, c),
    {
        match c {
            CharacterSet::Raw => true,
            CharacterSet::Unicode => match self {
                Model::T20II => false,
                Model::T30II => true,
                Model::Generic => false,
            },
        }
    }

    /// Return the number of printable columns in normal text mode.
    pub fn get_columns(&self) -> (r: usize)
        ensures
            r == spec_columns(*self),
    {
        match self {
            Model::Generic => 48,
            Model::T20II => 48,
            Model::T30II => 48,
        }
    }

    /// Check that an image is narrow enough to be printable on this model.
    pub fn check_image(&self, img: &Raster) -> (r: Result<(), Error>)
        ensures
            r is Ok <==> img.width <= spec_max_image_width(*self),
            r is Err ==> r->Err_0 == Error::ImageTooLarge,
    {
        let max = self.get_max_image_width();
        if img.width as usize > max {
            // Refuse the raster rather than print trash.
            return Err(Error::ImageTooLarge);
        }
        Ok(())
    }
}

/// Every model supports the `Raw` character set, and the TM-T30II is the
/// only model that supports `Unicode`.
pub proof fn lemma_character_set_support()
    ensures
        forall|m: Model| spec_supports_character_set(m, CharacterSet::Raw),
        forall|m: Model|
            spec_supports_character_set(m, CharacterSet::Unicode) <==> m == Model::T30II,
{
}

} // verus!
