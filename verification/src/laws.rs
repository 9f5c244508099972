//! Properties of the renderer that hold across whole passes: determinism,
//! nesting balance, round trips on plain text, heading ordering, empty-block
//! suppression, code routing and list indentation.

use vstd::prelude::*;

use crate::events::{BlockKindModel, EventModel};
use crate::render::{lemma_render_pass_from_snoc, render_pass, render_pass_from, step};
use crate::state::{initial_state, StateModel};
use crate::visuals::{paragraph_run, spec_heading_size, VisualModel};

verus! {

/// Well-nestedness of an event stream, tracked from a given list depth and
/// set of active style flags: every `EndBlock(List)` has a list open, styles
/// open and close in strict alternation, and everything opened is closed
/// again by the end of the stream.
pub open spec fn well_nested_from(
    events: Seq<EventModel>,
    depth: int,
    emphasis: bool,
    strong: bool,
    strikethrough: bool,
) -> bool
    decreases events.len(),
{
    if events.len() == 0 {
        depth == 0 && !emphasis && !strong && !strikethrough
    } else {
        let rest = events.drop_first();
        match events[0] {
            EventModel::StartBlock(BlockKindModel::List) => well_nested_from(
                rest,
                depth + 1,
                emphasis,
                strong,
                strikethrough,
            ),
            EventModel::EndBlock(BlockKindModel::List) => depth > 0 && well_nested_from(
                rest,
                depth - 1,
                emphasis,
                strong,
                strikethrough,
            ),
            EventModel::StartBlock(BlockKindModel::Emphasis) => !emphasis && well_nested_from(
                rest,
                depth,
                true,
                strong,
                strikethrough,
            ),
            EventModel::EndBlock(BlockKindModel::Emphasis) => emphasis && well_nested_from(
                rest,
                depth,
                false,
                strong,
                strikethrough,
            ),
            EventModel::StartBlock(BlockKindModel::Strong) => !strong && well_nested_from(
                rest,
                depth,
                emphasis,
                true,
                strikethrough,
            ),
            EventModel::EndBlock(BlockKindModel::Strong) => strong && well_nested_from(
                rest,
                depth,
                emphasis,
                false,
                strikethrough,
            ),
            EventModel::StartBlock(BlockKindModel::Strikethrough) => !strikethrough
                && well_nested_from(rest, depth, emphasis, strong, true),
            EventModel::EndBlock(BlockKindModel::Strikethrough) => strikethrough
                && well_nested_from(rest, depth, emphasis, strong, false),
            _ => well_nested_from(rest, depth, emphasis, strong, strikethrough),
        }
    }
}

/// A stream the event source is contracted to deliver: lists and styles
/// properly opened and closed, nothing left open at the end.
pub open spec fn well_nested(events: Seq<EventModel>) -> bool {
    well_nested_from(events, 0, false, false, false)
}

/// Rendering the same document twice, in two independent passes with the
/// same theme, produces identical visual output.
pub proof fn lemma_pass_deterministic(
    events: Seq<EventModel>,
    dark_mode: bool,
    first: Seq<VisualModel>,
    second: Seq<VisualModel>,
)
    requires
        first == render_pass(events, dark_mode).1,
        second == render_pass(events, dark_mode).1,
    ensures
        first == second,
{
}

proof fn lemma_nesting_balance_from(s: StateModel, events: Seq<EventModel>, dark_mode: bool)
    requires
        well_nested_from(
            events,
            s.list_depth,
            s.emphasis_active,
            s.strong_active,
            s.strikethrough_active,
        ),
    ensures
        render_pass_from(s, events, dark_mode).0 matches Some(fin) && fin.list_depth == 0
            && !fin.emphasis_active && !fin.strong_active && !fin.strikethrough_active,
    decreases events.len(),
{
    if events.len() == 0 {
    } else {
        match step(s, events[0], dark_mode) {
            Some(next) => {
                lemma_nesting_balance_from(next.0, events.drop_first(), dark_mode);
            },
            None => {
                assert(false);
            },
        }
    }
}

/// Over every well-nested stream the pass succeeds, the list depth returns
/// to zero, and all style flags are off when the pass ends.
pub proof fn lemma_nesting_balance(events: Seq<EventModel>, dark_mode: bool)
    requires
        well_nested(events),
    ensures
        render_pass(events, dark_mode).0 matches Some(fin) && fin.list_depth == 0
            && !fin.emphasis_active && !fin.strong_active && !fin.strikethrough_active,
{
    lemma_nesting_balance_from(initial_state(), events, dark_mode);
}

/// A document that is one paragraph holding one nonempty text run renders
/// as exactly one body-styled text run bracketed by the paragraph spacers,
/// with no style applied.
pub proof fn lemma_plain_text_round_trip(text: Seq<char>, dark_mode: bool)
    requires
        text.len() > 0,
    ensures
        ({
            let events = seq![
                EventModel::StartBlock(BlockKindModel::Paragraph),
                EventModel::Text(text),
                EventModel::EndBlock(BlockKindModel::Paragraph),
            ];
            let outcome = render_pass(events, dark_mode);
            outcome.0 is Some && outcome.1 == seq![
                VisualModel::Spacer(8),
                VisualModel::StyledText(paragraph_run(text, false, false, false)),
                VisualModel::Spacer(8),
            ]
        }),
{
    let start = EventModel::StartBlock(BlockKindModel::Paragraph);
    let middle = EventModel::Text(text);
    let finish = EventModel::EndBlock(BlockKindModel::Paragraph);
    let events = seq![start, middle, finish];
    let s0 = initial_state();
    lemma_render_pass_from_snoc(s0, Seq::empty(), start, dark_mode);
    lemma_render_pass_from_snoc(s0, seq![start], middle, dark_mode);
    lemma_render_pass_from_snoc(s0, seq![start, middle], finish, dark_mode);
    assert(Seq::<EventModel>::empty().push(start) =~= seq![start]);
    assert(seq![start].push(middle) =~= seq![start, middle]);
    assert(seq![start, middle].push(finish) =~= events);
    let s1 = step(s0, start, dark_mode).unwrap().0;
    let s2 = step(s1, middle, dark_mode).unwrap().0;
    assert(s2.text_accumulator =~= text);
    assert(render_pass(events, dark_mode).1 =~= seq![
        VisualModel::Spacer(8),
        VisualModel::StyledText(paragraph_run(text, false, false, false)),
        VisualModel::Spacer(8),
    ]);
}

/// Between valid heading levels the lower-numbered level never renders at a
/// smaller size than the higher-numbered one.
pub proof fn lemma_heading_size_ordering(first: int, second: int)
    requires
        1 <= first,
        first < second,
        second <= 6,
    ensures
        spec_heading_size(first) >= spec_heading_size(second),
{
}

/// An empty heading, at any level, emits only the leading and trailing
/// spacers of its start and end handling: no text run, no rule.
pub proof fn lemma_empty_heading_suppressed(level: int, dark_mode: bool)
    ensures
        ({
            let events = seq![
                EventModel::StartBlock(BlockKindModel::Heading(level)),
                EventModel::EndBlock(BlockKindModel::Heading(level)),
            ];
            let outcome = render_pass(events, dark_mode);
            outcome.0 is Some && outcome.1 == seq![VisualModel::Spacer(20), VisualModel::Spacer(10)]
        }),
{
    let start = EventModel::StartBlock(BlockKindModel::Heading(level));
    let finish = EventModel::EndBlock(BlockKindModel::Heading(level));
    let events = seq![start, finish];
    let s0 = initial_state();
    lemma_render_pass_from_snoc(s0, Seq::empty(), start, dark_mode);
    lemma_render_pass_from_snoc(s0, seq![start], finish, dark_mode);
    assert(Seq::<EventModel>::empty().push(start) =~= seq![start]);
    assert(seq![start].push(finish) =~= events);
    assert(render_pass(events, dark_mode).1 =~= seq![
        VisualModel::Spacer(20),
        VisualModel::Spacer(10),
    ]);
}

/// While a code block is open, a text event appends to the code accumulator
/// only: the text accumulator is untouched and nothing is emitted.
pub proof fn lemma_code_routing(s: StateModel, text: Seq<char>, dark_mode: bool)
    requires
        s.code_block_open,
    ensures
        step(s, EventModel::Text(text), dark_mode) matches Some(next)
            && next.0.text_accumulator == s.text_accumulator && next.0.code_accumulator
            == s.code_accumulator + text && next.1 == Seq::<VisualModel>::empty(),
{
}

/// A finished list item with accumulated text flushes one bullet indented
/// one level less than the current list nesting depth, so items of a list
/// nested inside another sit one level deeper.
pub proof fn lemma_list_item_indent(s: StateModel, dark_mode: bool)
    requires
        s.list_depth >= 1,
        s.text_accumulator.len() > 0,
    ensures
        step(s, EventModel::EndBlock(BlockKindModel::ListItem), dark_mode) matches Some(next)
            && next.1 == seq![
            VisualModel::ListBullet { indent: s.list_depth - 1, content: s.text_accumulator },
        ],
{
}

/// Whether, starting from the given list depth, no `EndBlock(List)` in the
/// stream arrives with no list open.
pub open spec fn lists_balanced_from(events: Seq<EventModel>, depth: int) -> bool
    decreases events.len(),
{
    if events.len() == 0 {
        true
    } else {
        let rest = events.drop_first();
        match events[0] {
            EventModel::StartBlock(BlockKindModel::List) => lists_balanced_from(rest, depth + 1),
            EventModel::EndBlock(BlockKindModel::List) => depth > 0 && lists_balanced_from(
                rest,
                depth - 1,
            ),
            _ => lists_balanced_from(rest, depth),
        }
    }
}

proof fn lemma_pass_succeeds_iff_lists_balanced_from(
    s: StateModel,
    events: Seq<EventModel>,
    dark_mode: bool,
)
    ensures
        render_pass_from(s, events, dark_mode).0 is Some <==> lists_balanced_from(
            events,
            s.list_depth,
        ),
    decreases events.len(),
{
    if events.len() == 0 {
    } else {
        match step(s, events[0], dark_mode) {
            Some(next) => {
                lemma_pass_succeeds_iff_lists_balanced_from(
                    next.0,
                    events.drop_first(),
                    dark_mode,
                );
            },
            None => {},
        }
    }
}

/// A pass completes exactly when no `EndBlock(List)` in the stream closes a
/// list that is not open; on any other stream it aborts.
pub proof fn lemma_pass_succeeds_iff_lists_balanced(events: Seq<EventModel>, dark_mode: bool)
    ensures
        render_pass(events, dark_mode).0 is Some <==> lists_balanced_from(events, 0),
{
    lemma_pass_succeeds_iff_lists_balanced_from(initial_state(), events, dark_mode);
}

} // verus!

