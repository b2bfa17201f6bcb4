use vstd::prelude::*;
use zellij_utils::zellij_tile::data::Palette;

verus! {

#[verifier::external_type_specification]
#[verifier::external_body]
pub struct ExPalette(Palette);

/// The built-in colour palette. The outside function takes no argument; the
/// parameter is there only because a name needs one, and is always zero.
pub uninterp spec fn builtin_palette(revision: u8) -> Palette;

/// Relies on zellij_utils::shared::default_palette: it returns the built-in
/// colour palette, a fixed value built from constants.
#[verifier::external_body]
fn default_palette() -> (r: Palette)
    ensures
        r == builtin_palette(0),
{
    zellij_utils::shared::default_palette()
}

/// The colour palette handed to clients: the built-in default.
pub fn load_palette() -> (r: Palette)
    ensures
        r == builtin_palette(0),
{
    default_palette()
}

} // verus!
