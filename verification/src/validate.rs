//! The checks that a block of colors must pass before it is queued.

use vstd::prelude::*;
use crate::error::ValidationError;
use crate::geometry::Area;

verus! {

/// The outcome of the checks for a block of `colors_len` color bytes aimed at
/// `area` on a display of the given size. The width is looked at first, then
/// the height, then the length of the buffer; the first check that fails
/// names the error.
pub open spec fn validation(
    display_width: u8,
    display_height: u8,
    area: Area,
    colors_len: nat,
) -> Result<(), ValidationError> {
    if area.spec_too_wide(display_width) {
        Err(ValidationError::TooWide)
    } else if area.spec_too_tall(display_height) {
        Err(ValidationError::TooTall)
    } else if colors_len != area.spec_color_len() {
        Err(ValidationError::WrongLength)
    } else {
        Ok(())
    }
}

/// Checks that `area` lies on the display and that `colors` holds exactly
/// three bytes for each of its cells.
pub fn validate(display_width: u8, display_height: u8, area: &Area, colors: &[u8]) -> (outcome:
    Result<(), ValidationError>)
    ensures
        outcome == validation(display_width, display_height, *area, colors@.len()),
{
    if area.too_wide(display_width) {
        return Err(ValidationError::TooWide);
    }
    if area.too_tall(display_height) {
        return Err(ValidationError::TooTall);
    }
    if area.color_len() != colors.len() {
        return Err(ValidationError::WrongLength);
    }
    Ok(())
}

/// The checks pass exactly for an area that fits on the display together
/// with a buffer of three bytes for each of its cells, and each error stands
/// for one failed check.
pub proof fn lemma_validation_outcomes(
    display_width: u8,
    display_height: u8,
    area: Area,
    colors_len: nat,
)
    ensures
        validation(display_width, display_height, area, colors_len) is Ok <==> area.fits(
            display_width,
            display_height,
        ) && colors_len == area.spec_color_len(),
        validation(display_width, display_height, area, colors_len) == Err::<(), _>(
            ValidationError::TooWide,
        ) <==> area.spec_too_wide(display_width),
        validation(display_width, display_height, area, colors_len) == Err::<(), _>(
            ValidationError::TooTall,
        ) <==> !area.spec_too_wide(display_width) && area.spec_too_tall(display_height),
        validation(display_width, display_height, area, colors_len) == Err::<(), _>(
            ValidationError::WrongLength,
        ) <==> area.fits(display_width, display_height) && colors_len != area.spec_color_len(),
{
}

} // verus!
