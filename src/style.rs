//! Terminal emphasis, through the `console` crate.
use crate::layout::{alarmed, emphasized};
use vstd::prelude::*;

verus! {

/// Relies on `console::colors_enabled_stderr`: whether styling is switched on
/// for standard error in this process. It depends on the environment, so
/// nothing is promised of it.
#[verifier::external_body]
pub(crate) fn stderr_colors_enabled() -> bool {
    console::colors_enabled_stderr()
}

/// Relies on `console::style` with `for_stderr`, `force_styling(colors)` and
/// `bold`, displayed: with styling forced on, the text between the bold escape
/// and the reset escape; forced off, the text unchanged.
#[verifier::external_body]
pub(crate) fn bold(s: &str, colors: bool) -> (r: String)
    ensures
        r@ == emphasized(s@, colors),
{
    console::style(s).for_stderr().force_styling(colors).bold().to_string()
}

/// Relies on `console::style` with `for_stderr`, `force_styling(colors)`, `red`
/// and `bold`, displayed: with styling forced on, the red escape, the bold
/// escape, the text and the reset escape; forced off, the text unchanged.
#[verifier::external_body]
pub(crate) fn red_bold(s: &str, colors: bool) -> (r: String)
    ensures
        r@ == alarmed(s@, colors),
{
    console::style(s).for_stderr().force_styling(colors).red().bold().to_string()
}

} // verus!
