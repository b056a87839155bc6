//! The text layout of a rendered trace, as spec functions over the texts of
//! its levels.
use vstd::prelude::*;

verus! {

/// The header that introduces the causes.
pub open spec fn header_text() -> Seq<char> {
    seq!['C', 'a', 'u', 's', 'e', 'd', ' ', 'b', 'y', ':']
}

/// What stands before each cause: a newline, a space, the marker `o` and a space.
pub open spec fn bullet_prefix() -> Seq<char> {
    seq!['\n', ' ', 'o', ' ']
}

/// Two newlines: between the message and the header, and after the last cause.
pub open spec fn blank_line() -> Seq<char> {
    seq!['\n', '\n']
}

/// One bullet line per cause, outermost first.
pub open spec fn bullet_lines(causes: Seq<Seq<char>>) -> Seq<char>
    decreases causes.len(),
{
    if causes.len() == 0 {
        Seq::empty()
    } else {
        bullet_lines(causes.drop_last()) + bullet_prefix() + causes.last()
    }
}

/// The plain rendering of message `top` with the given causes (outermost first).
pub open spec fn trace_text(top: Seq<char>, causes: Seq<Seq<char>>) -> Seq<char> {
    if causes.len() == 0 {
        top
    } else {
        top + blank_line() + header_text() + bullet_lines(causes) + blank_line()
    }
}

/// The escape sequence that switches bold on.
pub open spec fn bold_on() -> Seq<char> {
    seq!['\u{1b}', '[', '1', 'm']
}

/// The escape sequence that switches red foreground on.
pub open spec fn red_on() -> Seq<char> {
    seq!['\u{1b}', '[', '3', '1', 'm']
}

/// The escape sequence that resets every style.
pub open spec fn style_reset() -> Seq<char> {
    seq!['\u{1b}', '[', '0', 'm']
}

/// `s` in bold where `colors` holds, else `s` unchanged.
pub open spec fn emphasized(s: Seq<char>, colors: bool) -> Seq<char> {
    if colors {
        bold_on() + s + style_reset()
    } else {
        s
    }
}

/// `s` in bold red where `colors` holds, else `s` unchanged.
pub open spec fn alarmed(s: Seq<char>, colors: bool) -> Seq<char> {
    if colors {
        red_on() + bold_on() + s + style_reset()
    } else {
        s
    }
}

/// One bullet line per cause, with each cause's text emphasized.
pub open spec fn styled_bullet_lines(causes: Seq<Seq<char>>, colors: bool) -> Seq<char>
    decreases causes.len(),
{
    if causes.len() == 0 {
        Seq::empty()
    } else {
        styled_bullet_lines(causes.drop_last(), colors) + bullet_prefix() + emphasized(
            causes.last(),
            colors,
        )
    }
}

/// The emphasized rendering: the layout of `trace_text`, with the message and
/// each cause in bold and the header in bold red where `colors` holds.
pub open spec fn styled_trace_text(top: Seq<char>, causes: Seq<Seq<char>>, colors: bool) -> Seq<
    char,
> {
    if causes.len() == 0 {
        emphasized(top, colors)
    } else {
        emphasized(top, colors) + blank_line() + alarmed(header_text(), colors)
            + styled_bullet_lines(causes, colors) + blank_line()
    }
}

} // verus!
