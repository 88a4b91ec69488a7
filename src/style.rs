use vstd::prelude::*;

use dekor::Style;

verus! {

// Declared with its variants visible: `Style` is a field-less enum, and the
// default configuration names its variants.
#[verifier::external_type_specification]
pub struct ExStyle(dekor::Style);

/// The decimal code that dekor writes for a style: the variant's discriminant.
pub open spec fn style_code(s: Style) -> Seq<char> {
    match s {
        Style::Reset => "0"@,
        Style::Bold => "1"@,
        Style::Italic => "3"@,
        Style::Underline => "4"@,
        Style::FGBlack => "30"@,
        Style::FGRed => "31"@,
        Style::FGGreen => "32"@,
        Style::FGYellow => "33"@,
        Style::FGBlue => "34"@,
        Style::FGPurple => "35"@,
        Style::FGCyan => "36"@,
        Style::FGWhite => "37"@,
        Style::FGRGB => "38"@,
        Style::BGBlack => "40"@,
        Style::BGRed => "41"@,
        Style::BGGreen => "42"@,
        Style::BGYellow => "43"@,
        Style::BGBlue => "44"@,
        Style::BGPurple => "45"@,
        Style::BGCyan => "46"@,
        Style::BGWhite => "47"@,
        Style::BGRGB => "48"@,
    }
}

/// The codes of `styles` in order, separated by `;`.
pub open spec fn style_codes(styles: Seq<Style>) -> Seq<char>
    decreases styles.len(),
{
    if styles.len() == 0 {
        Seq::empty()
    } else if styles.len() == 1 {
        style_code(styles[0])
    } else {
        style_codes(styles.drop_last()) + seq![';'] + style_code(styles.last())
    }
}

/// The opening escape sequence of a styled text.
pub open spec fn sgr_open() -> Seq<char> {
    seq!['\x1b', '[']
}

/// The escape sequence that ends a styled text.
pub open spec fn sgr_reset() -> Seq<char> {
    seq!['\x1b', '[', '0', 'm']
}

/// `text` decorated with `styles` for a terminal.
pub open spec fn styled(styles: Seq<Style>, text: Seq<char>) -> Seq<char> {
    sgr_open() + style_codes(styles) + seq!['m'] + text + sgr_reset()
}

/// Relies on the `PartialEq` that dekor derives for its field-less `Style`
/// enum: two styles compare equal exactly when they are the same variant.
#[verifier::external_body]
pub(crate) fn same_style(a: &Style, b: &Style) -> (r: bool)
    ensures
        r == (*a == *b),
{
    *a == *b
}

/// Relies on `dekor::style`, which writes `ESC [`, the codes of the styles
/// joined by `;`, `m`, the text, and the reset sequence `ESC [ 0 m`.
#[verifier::external_body]
pub(crate) fn decorate(styles: &Vec<Style>, text: &str) -> (r: String)
    ensures
        r@ == styled(styles@, text@),
{
    dekor::style(styles.clone(), text)
}

} // verus!
