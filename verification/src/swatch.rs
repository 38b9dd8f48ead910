//! The swatch beside each colour: the fill that previews it.

use crate::color::{hsv_2_rgb, rgb_of, Pixel};
use crate::decimal::{append_digits, digits};
use crate::panel::{color_of, hue_of, read_color, value_of, SlotInputs};
use vstd::prelude::*;
use vstd::string::*;

verus! {

/// The fill that shows `p`: the three channels in decimal, fully opaque.
pub open spec fn fill_text(p: Pixel) -> Seq<char> {
    "rgba("@ + digits(p.r as nat) + ", "@ + digits(p.g as nat) + ", "@ + digits(p.b as nat)
        + ", 1.0)"@
}

/// The fill of a slot's swatch for what its fields gave.
pub open spec fn swatch_text(inputs: SlotInputs) -> Seq<char> {
    fill_text(rgb_of(color_of(inputs)))
}

/// Writes the fill that shows `p`.
pub fn fill_string(p: &Pixel) -> (fill: String)
    ensures
        fill@ == fill_text(*p),
{
    let mut fill = String::new();
    fill.append("rgba(");
    append_digits(&mut fill, p.r as u32);
    fill.append(", ");
    append_digits(&mut fill, p.g as u32);
    fill.append(", ");
    append_digits(&mut fill, p.b as u32);
    fill.append(", 1.0)");
    assert(fill@ =~= fill_text(*p));
    fill
}

/// The fill to give a slot's swatch: the slot's colour as read, converted
/// for the preview. The result depends on the three readings and on nothing
/// else.
pub fn set_swatch(inputs: &SlotInputs) -> (fill: String)
    ensures
        fill@ == swatch_text(*inputs),
{
    let col = read_color(inputs);
    let rgb = hsv_2_rgb(&col);
    fill_string(&rgb)
}

/// Repainting is idempotent: readings that count as the same three numbers
/// give the same fill, so a second repaint with nothing changed leaves the
/// swatch as the first one made it.
pub proof fn lemma_same_values_same_fill(a: SlotInputs, b: SlotInputs)
    requires
        hue_of(a.h) == hue_of(b.h),
        value_of(a.s) == value_of(b.s),
        value_of(a.v) == value_of(b.v),
    ensures
        swatch_text(a) == swatch_text(b),
{
    assert(color_of(a) == color_of(b));
}

} // verus!
