//! The tap operation and what holds of it.

use vstd::prelude::*;
use crate::level::Level;
use crate::record::{message_text, Record};

verus! {

/// Holds when `tapped` is what a tap of `value` at `level` under the label
/// `ctx` returns with the rendering `render`: the value itself, and a record
/// for the channel `level` whose message is composed from `ctx` and a text
/// that `render` gives for the value.
pub open spec fn is_tap_of<T, F: FnOnce(&T) -> String>(
    value: T,
    level: Level,
    ctx: Seq<char>,
    render: F,
    tapped: (T, Record),
) -> bool {
    &&& tapped.0 == value
    &&& tapped.1@.level == level
    &&& exists|text: String| #[trigger]
        call_ensures(render, (&value,), text) && tapped.1@.message == message_text(ctx, text@)
}

/// Holds when step `i` of a chain of taps is a tap: the first step taps
/// `value`, each later one taps the value that the step before it returned,
/// `steps` gives the level and label of each and `renders` its rendering.
pub open spec fn is_tap_step<T, F: FnOnce(&T) -> String>(
    value: T,
    steps: Seq<(Level, Seq<char>)>,
    renders: Seq<F>,
    outcomes: Seq<(T, Record)>,
    i: int,
) -> bool {
    is_tap_of(
        if i == 0 {
            value
        } else {
            outcomes[i - 1].0
        },
        steps[i].0,
        steps[i].1,
        renders[i],
        outcomes[i],
    )
}

/// Holds when `outcomes` is what a chain of taps that starts from `value`
/// returns, one step after the other.
pub open spec fn is_tap_chain<T, F: FnOnce(&T) -> String>(
    value: T,
    steps: Seq<(Level, Seq<char>)>,
    renders: Seq<F>,
    outcomes: Seq<(T, Record)>,
) -> bool {
    &&& outcomes.len() == steps.len()
    &&& renders.len() == steps.len()
    &&& forall|i: int|
        0 <= i < steps.len() ==> #[trigger] is_tap_step(value, steps, renders, outcomes, i)
}

/// Tapping: describe a value in a log record and pass the value on.
pub trait TapLog: Sized {
    /// Renders `self` with `render`, once, and composes one record from the
    /// text at `level`, labelled `ctx` unless `ctx` is empty. Returns `self`
    /// unchanged together with that record, which is for the caller to hand
    /// to its logging backend.
    ///
    /// The rendering is the caller's: `render` must accept `self`, and what
    /// it does beyond returning a text is not dealt with here. In particular
    /// nothing catches a `render` that unwinds.
    fn tap_log<F>(self, level: Level, ctx: &str, render: F) -> (tapped: (Self, Record))
        where
            F: FnOnce(&Self) -> String,
        requires
            call_requires(render, (&self,)),
        ensures
            is_tap_of(self, level, ctx@, render, tapped),
    {
        let text = render(&self);
        let record = Record::compose(level, ctx, text.as_str());
        (self, record)
    }
}

/// Every type can be tapped.
impl<T> TapLog for T {
}

/// A tap names the channel it was asked for and no other.
pub proof fn lemma_tap_routes_to_its_level<T, F: FnOnce(&T) -> String>(
    value: T,
    level: Level,
    ctx: Seq<char>,
    render: F,
    tapped: (T, Record),
    other: Level,
)
    requires
        is_tap_of(value, level, ctx, render, tapped),
    ensures
        tapped.1@.level == level,
        other != level ==> tapped.1@.level != other,
{
}

/// Where the rendering gives one text only, the message of a tap is the
/// message composed from the label and that text.
pub proof fn lemma_tap_message_is_composed<T, F: FnOnce(&T) -> String>(
    value: T,
    level: Level,
    ctx: Seq<char>,
    render: F,
    tapped: (T, Record),
    text: Seq<char>,
)
    requires
        is_tap_of(value, level, ctx, render, tapped),
        forall|out: String| call_ensures(render, (&value,), out) ==> out@ == text,
    ensures
        tapped.1@.message == message_text(ctx, text),
{
}

/// Tapping what a tap returned gives back the value that went into the first
/// tap, whatever the levels, labels and renderings.
pub proof fn lemma_tap_twice_keeps_value<T, F: FnOnce(&T) -> String, G: FnOnce(&T) -> String>(
    value: T,
    first_level: Level,
    first_ctx: Seq<char>,
    first_render: F,
    first: (T, Record),
    second_level: Level,
    second_ctx: Seq<char>,
    second_render: G,
    second: (T, Record),
)
    requires
        is_tap_of(value, first_level, first_ctx, first_render, first),
        is_tap_of(first.0, second_level, second_ctx, second_render, second),
    ensures
        second.0 == value,
{
}

/// However long a chain of taps is, every step of it returns the value that
/// went into the first.
pub proof fn lemma_tap_chain_keeps_value<T, F: FnOnce(&T) -> String>(
    value: T,
    steps: Seq<(Level, Seq<char>)>,
    renders: Seq<F>,
    outcomes: Seq<(T, Record)>,
)
    requires
        is_tap_chain(value, steps, renders, outcomes),
    ensures
        forall|i: int| 0 <= i < outcomes.len() ==> (#[trigger] outcomes[i]).0 == value,
{
    assert forall|i: int| 0 <= i < outcomes.len() implies (#[trigger] outcomes[i]).0 == value by {
        lemma_tap_chain_step_keeps_value(value, steps, renders, outcomes, i);
    }
}

/// Step `i` of a chain of taps returns the value that went into the first,
/// by induction on `i`.
proof fn lemma_tap_chain_step_keeps_value<T, F: FnOnce(&T) -> String>(
    value: T,
    steps: Seq<(Level, Seq<char>)>,
    renders: Seq<F>,
    outcomes: Seq<(T, Record)>,
    i: int,
)
    requires
        is_tap_chain(value, steps, renders, outcomes),
        0 <= i < outcomes.len(),
    ensures
        outcomes[i].0 == value,
    decreases i,
{
    assert(is_tap_step(value, steps, renders, outcomes, i));
    if i > 0 {
        lemma_tap_chain_step_keeps_value(value, steps, renders, outcomes, i - 1);
    }
}

} // verus!
