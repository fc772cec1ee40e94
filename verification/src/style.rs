//! The stylesheet that gives an image its color.

use crate::text::append_decimal;
use crate::text::decimal;
use vstd::prelude::*;
use vstd::string::StringExecFns;

verus! {

/// The text of the rule that sets the current color of every element to
/// `color`, channels in decimal: `* { color: rgb(r,g,b); }`.
pub open spec fn style_text(color: (u8, u8, u8)) -> Seq<char> {
    "* { color: rgb("@ + decimal(color.0 as nat) + ","@ + decimal(color.1 as nat) + ","@ + decimal(
        color.2 as nat,
    ) + "); }"@
}

/// Writes the stylesheet that is handed to the parser with an image, so
/// that whatever the image draws in the current color comes out in `color`.
pub fn style_override(color: (u8, u8, u8)) -> (r: String)
    ensures
        r@ == style_text(color),
{
    let mut out = String::from_str("* { color: rgb(");
    append_decimal(&mut out, color.0 as u32);
    out.append(",");
    append_decimal(&mut out, color.1 as u32);
    out.append(",");
    append_decimal(&mut out, color.2 as u32);
    out.append("); }");
    out
}

} // verus!
