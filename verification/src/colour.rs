//! RGB colours of permission groups, packed as the platform stores them.

use vstd::prelude::*;

verus! {

/// The packed value of a colour: red in bits 16 to 23, green in bits 8 to
/// 15, blue in bits 0 to 7.
pub open spec fn packed(red: u8, green: u8, blue: u8) -> int {
    red as int * 65536 + green as int * 256 + blue as int
}

/// The red component of a packed colour.
pub open spec fn red(colour: u32) -> int {
    (colour as int / 65536) % 256
}

/// The green component of a packed colour.
pub open spec fn green(colour: u32) -> int {
    (colour as int / 256) % 256
}

/// The blue component of a packed colour.
pub open spec fn blue(colour: u32) -> int {
    colour as int % 256
}

/// Calls `serenity::utils::Colour::from_rgb` and hands out the `u32` that
/// the colour holds. Trusted: the result is the three components laid side
/// by side, eight bits each, red highest.
#[verifier::external_body]
pub(crate) fn pack_rgb(red: u8, green: u8, blue: u8) -> (colour: u32)
    ensures
        colour as int == packed(red, green, blue),
{
    serenity::utils::Colour::from_rgb(red, green, blue).0
}

/// Calls `serenity::utils::Colour::r` on the colour that holds `colour`.
/// Trusted: the result is bits 16 to 23 of the packed value.
#[verifier::external_body]
pub(crate) fn red_of(colour: u32) -> (component: u8)
    ensures
        component as int == red(colour),
{
    serenity::utils::Colour(colour).r()
}

/// Calls `serenity::utils::Colour::g` on the colour that holds `colour`.
/// Trusted: the result is bits 8 to 15 of the packed value.
#[verifier::external_body]
pub(crate) fn green_of(colour: u32) -> (component: u8)
    ensures
        component as int == green(colour),
{
    serenity::utils::Colour(colour).g()
}

/// Calls `serenity::utils::Colour::b` on the colour that holds `colour`.
/// Trusted: the result is bits 0 to 7 of the packed value.
#[verifier::external_body]
pub(crate) fn blue_of(colour: u32) -> (component: u8)
    ensures
        component as int == blue(colour),
{
    serenity::utils::Colour(colour).b()
}

/// A packed colour gives back the components it was packed from.
pub proof fn lemma_components_of_packed(r: u8, g: u8, b: u8)
    ensures
        0 <= packed(r, g, b) <= u32::MAX,
        red(packed(r, g, b) as u32) == r,
        green(packed(r, g, b) as u32) == g,
        blue(packed(r, g, b) as u32) == b,
{
    let r = r as int;
    let g = g as int;
    let b = b as int;
    assert((r * 65536 + g * 256 + b) / 65536 == r && (r * 65536 + g * 256 + b) / 256 == r * 256
        + g && (r * 256 + g) % 256 == g && (r * 65536 + g * 256 + b) % 256 == b) by (nonlinear_arith)
        requires
            0 <= r < 256,
            0 <= g < 256,
            0 <= b < 256,
    ;
}

} // verus!
