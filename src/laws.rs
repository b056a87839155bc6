//! Laws of rendering and freezing, proved over the layout's spec functions.
use crate::color::ErrorTraceColorFormatter;
use crate::formatter::ErrorTraceFormatter;
use crate::frozen::{ErrorTrace, FrozenTrace};
use crate::layout::{
    blank_line, bullet_lines, bullet_prefix, header_text, styled_bullet_lines, styled_trace_text,
    trace_text,
};
use vstd::prelude::*;

verus! {

/// The bullet lines of two runs of causes, one after the other, are the lines
/// of the first run followed by those of the second.
pub proof fn lemma_bullet_lines_concat(a: Seq<Seq<char>>, b: Seq<Seq<char>>)
    ensures
        bullet_lines(a + b) == bullet_lines(a) + bullet_lines(b),
    decreases b.len(),
{
    if b.len() == 0 {
        assert(a + b =~= a);
        assert(bullet_lines(a) + bullet_lines(b) =~= bullet_lines(a));
    } else {
        assert((a + b).drop_last() =~= a + b.drop_last());
        assert((a + b).last() == b.last());
        lemma_bullet_lines_concat(a, b.drop_last());
        assert(bullet_lines(a + b) =~= bullet_lines(a) + bullet_lines(b));
    }
}

/// The bullet lines are, for each cause in turn, the bullet prefix and the
/// cause's text.
pub proof fn lemma_bullet_lines_flatten(causes: Seq<Seq<char>>)
    ensures
        bullet_lines(causes) == causes.map_values(|l: Seq<char>| bullet_prefix() + l).flatten(),
    decreases causes.len(),
{
    let f = |l: Seq<char>| bullet_prefix() + l;
    if causes.len() == 0 {
        assert(causes.map_values(f) =~= Seq::<Seq<char>>::empty());
    } else {
        let init = causes.drop_last();
        lemma_bullet_lines_flatten(init);
        assert(causes.map_values(f) =~= init.map_values(f).push(f(causes.last())));
        init.map_values(f).lemma_flatten_push(f(causes.last()));
        assert(bullet_lines(causes) =~= init.map_values(f).flatten() + f(causes.last()));
    }
}

/// An error without a cause renders as exactly its message.
pub proof fn law_no_cause_renders_message(f: &ErrorTraceFormatter)
    requires
        f.causes().len() == 0,
    ensures
        trace_text(f.message(), f.causes()) == f.message(),
{
}

/// With one or more causes, the rendering is the message, a blank line, the
/// header once, then one bullet line per cause, outermost first, each made of
/// the bullet prefix and the cause's text, and a final blank line.
pub proof fn law_one_bullet_per_cause(top: Seq<char>, causes: Seq<Seq<char>>)
    requires
        causes.len() >= 1,
    ensures
        trace_text(top, causes) == top + blank_line() + header_text() + causes.map_values(
            |l: Seq<char>| bullet_prefix() + l,
        ).flatten() + blank_line(),
        causes.map_values(|l: Seq<char>| bullet_prefix() + l).len() == causes.len(),
{
    lemma_bullet_lines_flatten(causes);
}

/// A frozen copy of an error renders as the error itself does: a formatter for
/// the error and one for its frozen copy yield the same text.
pub proof fn law_freeze_keeps_trace<E: ErrorTrace>(
    err: &E,
    frozen: &FrozenTrace,
    live: &ErrorTraceFormatter,
    detached: &ErrorTraceFormatter,
)
    requires
        frozen.levels() == err.trace_levels(),
        seq![live.message()] + live.causes() == err.trace_levels(),
        seq![detached.message()] + detached.causes() == frozen.trace_levels(),
    ensures
        trace_text(detached.message(), detached.causes()) == trace_text(
            live.message(),
            live.causes(),
        ),
{
    let levels = err.trace_levels();
    assert(live.message() == levels[0]);
    assert(detached.message() == levels[0]);
    assert(live.causes() =~= levels.drop_first());
    assert(detached.causes() =~= levels.drop_first());
}

/// A trace made from a single message renders as exactly that message.
pub proof fn law_single_message_renders_itself(text: Seq<char>, f: &ErrorTraceFormatter)
    requires
        seq![f.message()] + f.causes() == seq![text],
    ensures
        trace_text(f.message(), f.causes()) == text,
{
    assert(f.message() == seq![f.message()].add(f.causes())[0]);
    assert(f.causes().len() == 0);
}

/// The layout around one cause's text does not depend on that text: replacing
/// it by another representation changes the rendering in that place alone.
pub proof fn law_level_text_stands_alone(
    top: Seq<char>,
    causes: Seq<Seq<char>>,
    i: int,
    other: Seq<char>,
)
    requires
        0 <= i < causes.len(),
    ensures
        ({
            let before = top + blank_line() + header_text() + bullet_lines(causes.take(i))
                + bullet_prefix();
            let after = bullet_lines(causes.skip(i + 1)) + blank_line();
            &&& trace_text(top, causes) == before + causes[i] + after
            &&& trace_text(top, causes.update(i, other)) == before + other + after
        }),
{
    let changed = causes.update(i, other);
    let head = causes.take(i);
    let tail = causes.skip(i + 1);
    assert(causes =~= head.push(causes[i]) + tail);
    assert(changed =~= head.push(other) + tail);
    lemma_bullet_lines_concat(head.push(causes[i]), tail);
    lemma_bullet_lines_concat(head.push(other), tail);
    assert(head.push(causes[i]).drop_last() =~= head);
    assert(head.push(other).drop_last() =~= head);
    assert(trace_text(top, causes) =~= top + blank_line() + header_text() + bullet_lines(head)
        + bullet_prefix() + causes[i] + bullet_lines(tail) + blank_line());
    assert(trace_text(top, changed) =~= top + blank_line() + header_text() + bullet_lines(head)
        + bullet_prefix() + other + bullet_lines(tail) + blank_line());
}

/// With styling off, the emphasized bullet lines are the plain ones.
pub proof fn lemma_unstyled_bullet_lines(causes: Seq<Seq<char>>)
    ensures
        styled_bullet_lines(causes, false) == bullet_lines(causes),
    decreases causes.len(),
{
    if causes.len() > 0 {
        lemma_unstyled_bullet_lines(causes.drop_last());
    }
}

/// With styling off, the emphasized rendering is byte for byte the plain one.
pub proof fn law_colors_off_is_plain(top: Seq<char>, causes: Seq<Seq<char>>)
    ensures
        styled_trace_text(top, causes, false) == trace_text(top, causes),
{
    lemma_unstyled_bullet_lines(causes);
}

/// An emphasizing formatter with styling off renders what a plain formatter of
/// the same message and causes renders.
pub proof fn law_color_formatter_without_colors(
    plain: &ErrorTraceFormatter,
    colored: &ErrorTraceColorFormatter,
)
    requires
        plain.message() == colored.message(),
        plain.causes() == colored.causes(),
    ensures
        styled_trace_text(colored.message(), colored.causes(), false) == trace_text(
            plain.message(),
            plain.causes(),
        ),
{
    law_colors_off_is_plain(plain.message(), plain.causes());
}

} // verus!
