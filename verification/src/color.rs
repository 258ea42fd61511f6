//! CSS color parsing for mark paint fields.
//!
//! The grammar (hex, `rgb()`/`hsl()`-style functional forms, named colors)
//! is implemented by the `csscolorparser` crate; this module exposes it as
//! a total, deterministic function from strings to 8-bit RGB triples with a
//! typed error for every string outside the grammar.

use vstd::prelude::*;
use crate::value::Rgb;
use crate::error::VegaWgpuError;

verus! {

/// What the CSS color grammar assigns to a string: `Some` with the 8-bit
/// RGB channels for a string inside the grammar, `None` outside it.  The
/// result depends on the characters of the string alone.
pub uninterp spec fn css_color_of(s: Seq<char>) -> Option<(u8, u8, u8)>;

/// Relies on `csscolorparser::parse` (and `Color::to_rgba8`): parsing is a
/// pure function of the string, returning `Ok` exactly on the strings of
/// the CSS color grammar; `to_rgba8` rounds each channel to 8 bits.
#[verifier::external_body]
fn parse_css(s: &str) -> (r: Option<Rgb>)
    ensures
        r matches Some(c) ==> css_color_of(s@) == Some((c.r, c.g, c.b)),
        r is None ==> css_color_of(s@) is None,
{
    match csscolorparser::parse(s) {
        Ok(c) => {
            let [r, g, b, _] = c.to_rgba8();
            Some(Rgb { r, g, b })
        },
        Err(_) => None,
    }
}

/// Parse a textual color into an 8-bit RGB triple.  Accepts exactly the
/// strings of the CSS color grammar; every other string yields the typed
/// `InvalidColor` error, never a silently substituted default.
pub fn parse_color(s: &str) -> (r: Result<Rgb, VegaWgpuError>)
    ensures
        r matches Ok(c) ==> css_color_of(s@) == Some((c.r, c.g, c.b)),
        r matches Err(e) ==> css_color_of(s@) is None && e == VegaWgpuError::InvalidColor,
        r is Ok <==> css_color_of(s@) is Some,
{
    match parse_css(s) {
        Some(c) => Ok(c),
        None => Err(VegaWgpuError::InvalidColor),
    }
}

/// The mid-gray paint substituted when a mark's paint field is absent
/// altogether (the one documented default; an invalid string is still an
/// error).
pub fn default_gray() -> (r: Rgb)
    ensures
        r == (Rgb { r: 128, g: 128, b: 128 }),
{
    Rgb { r: 128, g: 128, b: 128 }
}

} // verus!
