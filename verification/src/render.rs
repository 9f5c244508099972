//! The streaming renderer: one linear pass over the event stream, emitting
//! visual blocks to a sink vector.
//!
//! The spec functions `step_start`, `step_end` and `step` are the transition
//! relation of the state machine; `render_pass_from` folds it over a whole
//! event sequence. The executable `RenderState::handle_event` and
//! `render_events` are proved to follow them exactly.

use vstd::prelude::*;

use crate::events::{BlockKind, BlockKindModel, Event, EventModel};
use crate::state::{initial_state, RenderState, StateModel};
use crate::visuals::{
    heading_run, inline_code_run, paragraph_run, TextRun, VisualBlock, VisualModel,
};

verus! {

/// Failure of a rendering pass on a malformed event stream.
#[derive(Debug, Clone, PartialEq, Eq)]
pub enum RenderError {
    /// An `EndBlock(List)` arrived with no list open.
    ListUnderflow,
}

/// The text of a code-language label: the fence followed by the tag.
pub open spec fn code_label(lang: Seq<char>) -> Seq<char> {
    "```"@ + lang
}

/// Effect of a `StartBlock` event: the new state and the visuals emitted.
/// Starting a block never fails.
pub open spec fn step_start(s: StateModel, kind: BlockKindModel, dark_mode: bool) -> (
    StateModel,
    Seq<VisualModel>,
) {
    match kind {
        BlockKindModel::Heading(_) => (
            StateModel { text_accumulator: Seq::empty(), ..s },
            seq![VisualModel::Spacer(20)],
        ),
        BlockKindModel::Paragraph => (
            StateModel { text_accumulator: Seq::empty(), ..s },
            if s.inside_list {
                Seq::empty()
            } else {
                seq![VisualModel::Spacer(8)]
            },
        ),
        BlockKindModel::CodeBlock(lang) => (
            StateModel {
                code_block_open: true,
                code_accumulator: Seq::empty(),
                current_code_language: lang,
                ..s
            },
            seq![VisualModel::Spacer(10)] + match lang {
                Some(tag) => if tag.len() > 0 {
                    seq![VisualModel::CodeLanguageLabel(code_label(tag))]
                } else {
                    Seq::empty()
                },
                None => Seq::empty(),
            },
        ),
        BlockKindModel::List => (
            StateModel { inside_list: true, list_depth: s.list_depth + 1, ..s },
            seq![VisualModel::Spacer(8)],
        ),
        BlockKindModel::ListItem => (
            StateModel { text_accumulator: Seq::empty(), ..s },
            Seq::empty(),
        ),
        BlockKindModel::Emphasis => (StateModel { emphasis_active: true, ..s }, Seq::empty()),
        BlockKindModel::Strong => (StateModel { strong_active: true, ..s }, Seq::empty()),
        BlockKindModel::Strikethrough => (
            StateModel { strikethrough_active: true, ..s },
            Seq::empty(),
        ),
        BlockKindModel::BlockQuote => (
            s,
            seq![VisualModel::Spacer(8), VisualModel::Separator],
        ),
        BlockKindModel::Other => (s, Seq::empty()),
    }
}

/// Visuals a finished heading flushes: its text run if any was accumulated,
/// a rule under levels 1 and 2, and a trailing spacer in every case.
pub open spec fn heading_flush(content: Seq<char>, level: int, dark_mode: bool) -> Seq<
    VisualModel,
> {
    let run = if content.len() > 0 {
        seq![VisualModel::StyledText(heading_run(content, level, dark_mode))]
    } else {
        Seq::empty()
    };
    let rule = if content.len() > 0 && (level == 1 || level == 2) {
        seq![VisualModel::Separator, VisualModel::Spacer(5)]
    } else {
        Seq::empty()
    };
    run + rule + seq![VisualModel::Spacer(10)]
}

/// Visuals a finished paragraph flushes: its styled run if any text was
/// accumulated, with a trailing spacer outside lists.
pub open spec fn paragraph_flush(s: StateModel) -> Seq<VisualModel> {
    if s.text_accumulator.len() > 0 {
        seq![
            VisualModel::StyledText(
                paragraph_run(
                    s.text_accumulator,
                    s.emphasis_active,
                    s.strong_active,
                    s.strikethrough_active,
                ),
            ),
        ] + if s.inside_list {
            Seq::empty()
        } else {
            seq![VisualModel::Spacer(8)]
        }
    } else {
        Seq::empty()
    }
}

/// Effect of an `EndBlock` event, or `None` when an `EndBlock(List)` arrives
/// with no list open: that is a contract violation by the event source and
/// aborts the pass.
pub open spec fn step_end(s: StateModel, kind: BlockKindModel, dark_mode: bool) -> Option<
    (StateModel, Seq<VisualModel>),
> {
    match kind {
        BlockKindModel::Heading(level) => Some(
            (
                StateModel { text_accumulator: Seq::empty(), ..s },
                heading_flush(s.text_accumulator, level, dark_mode),
            ),
        ),
        BlockKindModel::Paragraph => Some(
            (StateModel { text_accumulator: Seq::empty(), ..s }, paragraph_flush(s)),
        ),
        BlockKindModel::CodeBlock(_) => Some(
            (
                StateModel {
                    code_block_open: false,
                    code_accumulator: Seq::empty(),
                    current_code_language: None,
                    ..s
                },
                if s.code_accumulator.len() > 0 {
                    seq![
                        VisualModel::CodePanel(s.code_accumulator),
                        VisualModel::Spacer(10),
                    ]
                } else {
                    Seq::empty()
                },
            ),
        ),
        BlockKindModel::List => if s.list_depth > 0 {
            Some(
                (
                    StateModel { inside_list: false, list_depth: s.list_depth - 1, ..s },
                    seq![VisualModel::Spacer(8)],
                ),
            )
        } else {
            None
        },
        BlockKindModel::ListItem => Some(
            (
                StateModel { text_accumulator: Seq::empty(), ..s },
                if s.text_accumulator.len() > 0 {
                    seq![
                        VisualModel::ListBullet {
                            indent: if s.list_depth > 0 {
                                s.list_depth - 1
                            } else {
                                0
                            },
                            content: s.text_accumulator,
                        },
                    ]
                } else {
                    Seq::empty()
                },
            ),
        ),
        BlockKindModel::Emphasis => Some(
            (StateModel { emphasis_active: false, ..s }, Seq::empty()),
        ),
        BlockKindModel::Strong => Some((StateModel { strong_active: false, ..s }, Seq::empty())),
        BlockKindModel::Strikethrough => Some(
            (StateModel { strikethrough_active: false, ..s }, Seq::empty()),
        ),
        BlockKindModel::BlockQuote => Some((s, seq![VisualModel::Spacer(8)])),
        BlockKindModel::Other => Some((s, Seq::empty())),
    }
}

/// Where a text event lands: the code accumulator exactly while a code block
/// is open, the text accumulator otherwise.
pub open spec fn route_text(s: StateModel, text: Seq<char>) -> StateModel {
    if s.code_block_open {
        StateModel { code_accumulator: s.code_accumulator + text, ..s }
    } else {
        StateModel { text_accumulator: s.text_accumulator + text, ..s }
    }
}

/// The transition relation: one event consumed, the next state and the
/// visuals emitted, or `None` on a contract violation by the event source.
pub open spec fn step(s: StateModel, ev: EventModel, dark_mode: bool) -> Option<
    (StateModel, Seq<VisualModel>),
> {
    match ev {
        EventModel::StartBlock(kind) => Some(step_start(s, kind, dark_mode)),
        EventModel::EndBlock(kind) => step_end(s, kind, dark_mode),
        EventModel::Text(text) => Some((route_text(s, text), Seq::empty())),
        EventModel::InlineCode(text) => Some(
            (s, seq![VisualModel::StyledText(inline_code_run(text, dark_mode))]),
        ),
        EventModel::SoftBreak => Some(
            (StateModel { text_accumulator: s.text_accumulator + " "@, ..s }, Seq::empty()),
        ),
        EventModel::HardBreak => Some(
            (StateModel { text_accumulator: s.text_accumulator + "\n"@, ..s }, Seq::empty()),
        ),
    }
}

/// A whole pass from a given state: the final state if the stream was
/// well-formed (`None` otherwise), and every visual emitted before the pass
/// ended or aborted.
pub open spec fn render_pass_from(
    s: StateModel,
    events: Seq<EventModel>,
    dark_mode: bool,
) -> (Option<StateModel>, Seq<VisualModel>)
    decreases events.len(),
{
    if events.len() == 0 {
        (Some(s), Seq::empty())
    } else {
        match step(s, events[0], dark_mode) {
            Some(next) => {
                let rest = render_pass_from(next.0, events.drop_first(), dark_mode);
                (rest.0, next.1 + rest.1)
            },
            None => (None, Seq::empty()),
        }
    }
}

/// A whole pass from the fresh state each pass starts with.
pub open spec fn render_pass(events: Seq<EventModel>, dark_mode: bool) -> (
    Option<StateModel>,
    Seq<VisualModel>,
) {
    render_pass_from(initial_state(), events, dark_mode)
}

/// Extending a pass by one event composes its outcome with one more `step`.
pub proof fn lemma_render_pass_from_snoc(
    s: StateModel,
    events: Seq<EventModel>,
    ev: EventModel,
    dark_mode: bool,
)
    ensures
        ({
            let whole = render_pass_from(s, events.push(ev), dark_mode);
            let pre = render_pass_from(s, events, dark_mode);
            match pre.0 {
                Some(mid) => match step(mid, ev, dark_mode) {
                    Some(next) => whole == (Some(next.0), pre.1 + next.1),
                    None => whole == (None::<StateModel>, pre.1),
                },
                None => whole == pre,
            }
        }),
    decreases events.len(),
{
    let whole_events = events.push(ev);
    let whole = render_pass_from(s, whole_events, dark_mode);
    let pre = render_pass_from(s, events, dark_mode);
    if events.len() == 0 {
        assert(whole_events.drop_first() =~= events);
        assert(whole_events[0] == ev);
        match step(s, ev, dark_mode) {
            Some(next) => {
                assert(render_pass_from(next.0, whole_events.drop_first(), dark_mode) == (
                    Some(next.0),
                    Seq::<VisualModel>::empty(),
                ));
                assert(whole.0 == Some(next.0));
                assert(whole.1 =~= pre.1 + next.1);
            },
            None => {
                assert(whole.0 is None);
                assert(whole.1 =~= pre.1);
            },
        }
    } else {
        assert(whole_events[0] == events[0]);
        assert(whole_events.drop_first() =~= events.drop_first().push(ev));
        match step(s, events[0], dark_mode) {
            Some(next) => {
                lemma_render_pass_from_snoc(next.0, events.drop_first(), ev, dark_mode);
                let rec_whole = render_pass_from(
                    next.0,
                    events.drop_first().push(ev),
                    dark_mode,
                );
                let rec_pre = render_pass_from(next.0, events.drop_first(), dark_mode);
                assert(whole == (rec_whole.0, next.1 + rec_whole.1));
                assert(pre == (rec_pre.0, next.1 + rec_pre.1));
                match rec_pre.0 {
                    Some(mid) => match step(mid, ev, dark_mode) {
                        Some(last) => {
                            assert(rec_whole.0 == Some(last.0));
                            assert(whole.1 =~= pre.1 + last.1);
                        },
                        None => {
                            assert(whole.1 =~= pre.1);
                        },
                    },
                    None => {
                        assert(whole.1 =~= pre.1);
                    },
                }
            },
            None => {},
        }
    }
}

/// Once a pass has aborted, later events change neither outcome nor output.
pub proof fn lemma_render_pass_from_absorbs(
    s: StateModel,
    prefix: Seq<EventModel>,
    rest: Seq<EventModel>,
    dark_mode: bool,
)
    requires
        render_pass_from(s, prefix, dark_mode).0 is None,
    ensures
        render_pass_from(s, prefix + rest, dark_mode) == render_pass_from(s, prefix, dark_mode),
    decreases prefix.len(),
{
    if prefix.len() == 0 {
        // the empty pass succeeds, contradicting the assumption
        assert(false);
    } else {
        assert((prefix + rest)[0] == prefix[0]);
        match step(s, prefix[0], dark_mode) {
            Some(next) => {
                assert((prefix + rest).drop_first() =~= prefix.drop_first() + rest);
                lemma_render_pass_from_absorbs(next.0, prefix.drop_first(), rest, dark_mode);
            },
            None => {},
        }
    }
}

/// Render a whole document: one pass over `events` from a fresh state,
/// appending every emitted visual to `out` in order. Returns `Ok` exactly
/// when the stream never closes a list that is not open; on the contract
/// violation the pass aborts, and `out` keeps everything emitted up to it.
#[verifier::loop_isolation(false)]
pub fn render_events(events: &Vec<Event>, dark_mode: bool, out: &mut Vec<VisualBlock>) -> (r:
    Result<(), RenderError>)
    ensures
        final(out).deep_view() == old(out).deep_view() + render_pass(
            events.deep_view(),
            dark_mode,
        ).1,
        r == Ok::<(), RenderError>(()) <==> render_pass(events.deep_view(), dark_mode).0 is Some,
    {
    let ghost stream = events.deep_view();
    let ghost sink0 = old(out).deep_view();
    let mut state = RenderState::new();
    let mut i: usize = 0;
    proof {
        assert(stream.take(0) =~= Seq::<EventModel>::empty());
    }
    while i < events.len()
        invariant
            i <= events.len(),
            stream == events.deep_view(),
            stream.len() == events@.len(),
            render_pass_from(initial_state(), stream.take(i as int), dark_mode).0 == Some(
                state@,
            ),
            out.deep_view() == sink0 + render_pass_from(
                initial_state(),
                stream.take(i as int),
                dark_mode,
            ).1,
            state@.list_depth <= i as int,
        decreases events.len() - i,
    {
        let ghost prefix = stream.take(i as int);
        let ghost pre = render_pass_from(initial_state(), prefix, dark_mode);
        let ghost deep_now = out.deep_view();
        let ev = &events[i];
        proof {
            assert(ev.deep_view() == stream[i as int]);
            lemma_render_pass_from_snoc(initial_state(), prefix, stream[i as int], dark_mode);
            assert(stream.take(i + 1) =~= prefix.push(stream[i as int]));
        }
        match state.handle_event(ev, dark_mode, out) {
            Ok(()) => {},
            Err(fault) => {
                proof {
                    assert(out.deep_view() =~= deep_now);
                    assert(render_pass_from(initial_state(), stream.take(i + 1), dark_mode).0
                        is None);
                    assert(stream =~= stream.take(i + 1) + stream.skip(i + 1));
                    lemma_render_pass_from_absorbs(
                        initial_state(),
                        stream.take(i + 1),
                        stream.skip(i + 1),
                        dark_mode,
                    );
                    assert(render_pass(stream, dark_mode) == render_pass_from(
                        initial_state(),
                        stream.take(i + 1),
                        dark_mode,
                    ));
                }
                return Err(fault);
            },
        }
        i = i + 1;
    }
    proof {
        assert(stream.take(events@.len() as int) =~= stream);
    }
    Ok(())
}

/// Append one visual block to the sink.
fn emit(out: &mut Vec<VisualBlock>, block: VisualBlock)
    ensures
        final(out)@ == old(out)@.push(block),
        final(out).deep_view() == old(out).deep_view().push(block@),
{
    let ghost previous = out.deep_view();
    let ghost model = block@;
    out.push(block);
    proof {
        assert(out.deep_view() =~= previous.push(model));
    }
}

impl RenderState {
    /// Consume one event: route it to the matching handler, mutate this
    /// state, and emit the resulting visuals to `out`, exactly as the
    /// transition relation `step` prescribes. Fails, leaving state and sink
    /// untouched, only on an `EndBlock(List)` with no list open.
    #[verifier::rlimit(60)]
    pub fn handle_event(
        &mut self,
        ev: &Event,
        dark_mode: bool,
        out: &mut Vec<VisualBlock>,
    ) -> (r: Result<(), RenderError>)
        requires
            old(self).list_depth < usize::MAX,
        ensures
            ({
                let outcome = step(old(self)@, ev@, dark_mode);
                match outcome {
                    Some(next) => r == Ok::<(), RenderError>(()) && final(self)@ == next.0
                        && final(out).deep_view() == old(out).deep_view() + next.1,
                    None => r == Err::<(), RenderError>(RenderError::ListUnderflow)
                        && final(self)@ == old(self)@ && final(out)@ == old(out)@,
                }
            }),
    {
        let ghost sink0 = old(out).deep_view();
        match ev {
            Event::StartBlock(kind) => {
                match kind {
                    BlockKind::Heading(_level) => {
                        emit(out, VisualBlock::Spacer(20));
                        self.text_accumulator = String::new();
                        proof {
                            assert(out.deep_view() =~= sink0 + seq![VisualModel::Spacer(20)]);
                        }
                    },
                    BlockKind::Paragraph => {
                        if !self.inside_list {
                            emit(out, VisualBlock::Spacer(8));
                            proof {
                                assert(out.deep_view() =~= sink0 + seq![VisualModel::Spacer(8)]);
                            }
                        } else {
                            proof {
                                assert(out.deep_view() =~= sink0 + Seq::<VisualModel>::empty());
                            }
                        }
                        self.text_accumulator = String::new();
                    },
                    BlockKind::CodeBlock(lang) => {
                        emit(out, VisualBlock::Spacer(10));
                        self.code_block_open = true;
                        self.code_accumulator = String::new();
                        match lang {
                            Some(tag) => {
                                self.current_code_language = Some(tag.clone());
                                if !tag.as_str().is_empty() {
                                    let mut label = String::from_str("```");
                                    label.append(tag.as_str());
                                    emit(out, VisualBlock::CodeLanguageLabel(label));
                                    proof {
                                        assert(out.deep_view() =~= sink0 + (
                                        seq![VisualModel::Spacer(10)]
                                            + seq![VisualModel::CodeLanguageLabel(code_label(tag@))]
                                        ));
                                    }
                                } else {
                                    proof {
                                        assert(out.deep_view() =~= sink0 + (
                                        seq![VisualModel::Spacer(10)] + Seq::<
                                            VisualModel,
                                        >::empty()));
                                    }
                                }
                            },
                            None => {
                                self.current_code_language = None;
                                proof {
                                    assert(out.deep_view() =~= sink0 + (
                                    seq![VisualModel::Spacer(10)] + Seq::<VisualModel>::empty()));
                                }
                            },
                        }
                    },
                    BlockKind::List => {
                        emit(out, VisualBlock::Spacer(8));
                        self.inside_list = true;
                        self.list_depth = self.list_depth + 1;
                        proof {
                            assert(out.deep_view() =~= sink0 + seq![VisualModel::Spacer(8)]);
                        }
                    },
                    BlockKind::ListItem => {
                        self.text_accumulator = String::new();
                        proof {
                            assert(out.deep_view() =~= sink0 + Seq::<VisualModel>::empty());
                        }
                    },
                    BlockKind::Emphasis => {
                        self.emphasis_active = true;
                        proof {
                            assert(out.deep_view() =~= sink0 + Seq::<VisualModel>::empty());
                        }
                    },
                    BlockKind::Strong => {
                        self.strong_active = true;
                        proof {
                            assert(out.deep_view() =~= sink0 + Seq::<VisualModel>::empty());
                        }
                    },
                    BlockKind::Strikethrough => {
                        self.strikethrough_active = true;
                        proof {
                            assert(out.deep_view() =~= sink0 + Seq::<VisualModel>::empty());
                        }
                    },
                    BlockKind::BlockQuote => {
                        emit(out, VisualBlock::Spacer(8));
                        emit(out, VisualBlock::Separator);
                        proof {
                            assert(out.deep_view() =~= sink0 + seq![
                                VisualModel::Spacer(8),
                                VisualModel::Separator,
                            ]);
                        }
                    },
                    BlockKind::Other => {
                        proof {
                            assert(out.deep_view() =~= sink0 + Seq::<VisualModel>::empty());
                        }
                    },
                }
                Ok(())
            },
            Event::EndBlock(kind) => {
                match kind {
                    BlockKind::Heading(level) => {
                        let lvl: u8 = *level;
                        let ghost flushed = heading_flush(old(self)@.text_accumulator, lvl as int, dark_mode);
                        if !self.text_accumulator.as_str().is_empty() {
                            let content = self.text_accumulator.clone();
                            let run = TextRun {
                                content,
                                size: VisualBlock::heading_size(lvl),
                                bold: true,
                                italic: false,
                                strikethrough: false,
                                monospace: false,
                                color: Some(VisualBlock::heading_color(lvl, dark_mode)),
                                background: None,
                            };
                            emit(out, VisualBlock::StyledText(run));
                            if lvl == 1 || lvl == 2 {
                                emit(out, VisualBlock::Separator);
                                emit(out, VisualBlock::Spacer(5));
                            }
                            emit(out, VisualBlock::Spacer(10));
                        } else {
                            emit(out, VisualBlock::Spacer(10));
                        }
                        self.text_accumulator = String::new();
                        proof {
                            assert(out.deep_view() =~= sink0 + flushed);
                        }
                    },
                    BlockKind::Paragraph => {
                        let ghost flushed = paragraph_flush(old(self)@);
                        if !self.text_accumulator.as_str().is_empty() {
                            let content = self.text_accumulator.clone();
                            let run = TextRun {
                                content,
                                size: 14,
                                bold: self.strong_active,
                                italic: self.emphasis_active,
                                strikethrough: self.strikethrough_active,
                                monospace: false,
                                color: None,
                                background: None,
                            };
                            emit(out, VisualBlock::StyledText(run));
                            if !self.inside_list {
                                emit(out, VisualBlock::Spacer(8));
                            }
                        }
                        self.text_accumulator = String::new();
                        proof {
                            assert(out.deep_view() =~= sink0 + flushed);
                        }
                    },
                    BlockKind::CodeBlock(_lang) => {
                        if !self.code_accumulator.as_str().is_empty() {
                            let content = self.code_accumulator.clone();
                            emit(out, VisualBlock::CodePanel(content));
                            emit(out, VisualBlock::Spacer(10));
                            proof {
                                assert(out.deep_view() =~= sink0 + seq![
                                    VisualModel::CodePanel(old(self)@.code_accumulator),
                                    VisualModel::Spacer(10),
                                ]);
                            }
                        } else {
                            proof {
                                assert(out.deep_view() =~= sink0 + Seq::<VisualModel>::empty());
                            }
                        }
                        self.code_block_open = false;
                        self.code_accumulator = String::new();
                        self.current_code_language = None;
                    },
                    BlockKind::List => {
                        if self.list_depth == 0 {
                            return Err(RenderError::ListUnderflow);
                        }
                        self.list_depth = self.list_depth - 1;
                        self.inside_list = false;
                        emit(out, VisualBlock::Spacer(8));
                        proof {
                            assert(out.deep_view() =~= sink0 + seq![VisualModel::Spacer(8)]);
                        }
                    },
                    BlockKind::ListItem => {
                        if !self.text_accumulator.as_str().is_empty() {
                            let content = self.text_accumulator.clone();
                            let indent: usize = if self.list_depth > 0 {
                                self.list_depth - 1
                            } else {
                                0
                            };
                            emit(out, VisualBlock::ListBullet { indent, content });
                            proof {
                                assert(out.deep_view() =~= sink0 + seq![
                                    VisualModel::ListBullet {
                                        indent: if old(self)@.list_depth > 0 {
                                            old(self)@.list_depth - 1
                                        } else {
                                            0
                                        },
                                        content: old(self)@.text_accumulator,
                                    },
                                ]);
                            }
                        } else {
                            proof {
                                assert(out.deep_view() =~= sink0 + Seq::<VisualModel>::empty());
                            }
                        }
                        self.text_accumulator = String::new();
                    },
                    BlockKind::Emphasis => {
                        self.emphasis_active = false;
                        proof {
                            assert(out.deep_view() =~= sink0 + Seq::<VisualModel>::empty());
                        }
                    },
                    BlockKind::Strong => {
                        self.strong_active = false;
                        proof {
                            assert(out.deep_view() =~= sink0 + Seq::<VisualModel>::empty());
                        }
                    },
                    BlockKind::Strikethrough => {
                        self.strikethrough_active = false;
                        proof {
                            assert(out.deep_view() =~= sink0 + Seq::<VisualModel>::empty());
                        }
                    },
                    BlockKind::BlockQuote => {
                        emit(out, VisualBlock::Spacer(8));
                        proof {
                            assert(out.deep_view() =~= sink0 + seq![VisualModel::Spacer(8)]);
                        }
                    },
                    BlockKind::Other => {
                        proof {
                            assert(out.deep_view() =~= sink0 + Seq::<VisualModel>::empty());
                        }
                    },
                }
                Ok(())
            },
            Event::Text(text) => {
                if self.code_block_open {
                    self.code_accumulator.append(text.as_str());
                } else {
                    self.text_accumulator.append(text.as_str());
                }
                proof {
                    assert(out.deep_view() =~= sink0 + Seq::<VisualModel>::empty());
                }
                Ok(())
            },
            Event::InlineCode(text) => {
                let run = TextRun {
                    content: text.clone(),
                    size: 14,
                    bold: false,
                    italic: false,
                    strikethrough: false,
                    monospace: true,
                    color: None,
                    background: Some(VisualBlock::inline_code_background(dark_mode)),
                };
                emit(out, VisualBlock::StyledText(run));
                proof {
                    assert(out.deep_view() =~= sink0 + seq![
                        VisualModel::StyledText(inline_code_run(text@, dark_mode)),
                    ]);
                }
                Ok(())
            },
            Event::SoftBreak => {
                self.text_accumulator.append(" ");
                proof {
                    assert(out.deep_view() =~= sink0 + Seq::<VisualModel>::empty());
                }
                Ok(())
            },
            Event::HardBreak => {
                self.text_accumulator.append("\n");
                proof {
                    assert(out.deep_view() =~= sink0 + Seq::<VisualModel>::empty());
                }
                Ok(())
            },
        }
    }
}

} // verus!
