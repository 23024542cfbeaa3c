use vstd::prelude::*;

verus! {

/// Colors that status labels may be rendered in. The library itself never
/// talks to a terminal: rendering is the caller's concern.
pub enum PossibleColor {
    BrightBlue,
    BrightCyan,
    BrightGreen,
    BrightMagenta,
    BrightPurple,
    BrightRed,
    BrightWhite,
    BrightYellow,
    Green,
}

/// Passes the text through unchanged; a caller that can color its error
/// stream substitutes its own rendering for the given color.
pub fn err_color_print(text: &str, _color: &PossibleColor) -> (r: String)
    ensures
        r@ == text@,
{
    text.to_owned()
}

} // verus!
