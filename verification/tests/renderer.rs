use mdview::events::{BlockKind, Event};
use mdview::render::{render_events, RenderError};
use mdview::state::RenderState;
use mdview::visuals::{Color, TextRun, VisualBlock};

fn render(events: Vec<Event>, dark_mode: bool) -> Result<Vec<VisualBlock>, RenderError> {
    let mut out = Vec::new();
    render_events(&events, dark_mode, &mut out)?;
    Ok(out)
}

fn body_run(content: &str, bold: bool, italic: bool, strikethrough: bool) -> TextRun {
    TextRun {
        content: String::from(content),
        size: 14,
        bold,
        italic,
        strikethrough,
        monospace: false,
        color: None,
        background: None,
    }
}

#[test]
fn two_passes_emit_identical_output() {
    let make_events = || {
        vec![
            Event::StartBlock(BlockKind::Heading(1)),
            Event::Text(String::from("Title")),
            Event::EndBlock(BlockKind::Heading(1)),
            Event::StartBlock(BlockKind::Paragraph),
            Event::Text(String::from("body")),
            Event::EndBlock(BlockKind::Paragraph),
        ]
    };
    let first = render(make_events(), true).unwrap();
    let second = render(make_events(), true).unwrap();
    assert_eq!(first, second);
}

#[test]
fn balanced_stream_leaves_state_balanced() {
    let events = vec![
        Event::StartBlock(BlockKind::List),
        Event::StartBlock(BlockKind::ListItem),
        Event::StartBlock(BlockKind::Emphasis),
        Event::StartBlock(BlockKind::Strong),
        Event::StartBlock(BlockKind::Strikethrough),
        Event::Text(String::from("styled")),
        Event::EndBlock(BlockKind::Strikethrough),
        Event::EndBlock(BlockKind::Strong),
        Event::EndBlock(BlockKind::Emphasis),
        Event::EndBlock(BlockKind::ListItem),
        Event::EndBlock(BlockKind::List),
    ];
    let mut state = RenderState::new();
    let mut out = Vec::new();
    for ev in &events {
        state.handle_event(ev, false, &mut out).unwrap();
    }
    assert_eq!(state.list_depth, 0);
    assert!(!state.emphasis_active);
    assert!(!state.strong_active);
    assert!(!state.strikethrough_active);
}

#[test]
fn plain_paragraph_round_trip() {
    let events = vec![
        Event::StartBlock(BlockKind::Paragraph),
        Event::Text(String::from("hello world")),
        Event::EndBlock(BlockKind::Paragraph),
    ];
    let out = render(events, false).unwrap();
    assert_eq!(
        out,
        vec![
            VisualBlock::Spacer(8),
            VisualBlock::StyledText(body_run("hello world", false, false, false)),
            VisualBlock::Spacer(8),
        ]
    );
}

#[test]
fn heading_sizes_decrease_with_level() {
    assert_eq!(VisualBlock::heading_size(1), 28);
    assert_eq!(VisualBlock::heading_size(2), 24);
    assert_eq!(VisualBlock::heading_size(3), 20);
    assert_eq!(VisualBlock::heading_size(4), 18);
    assert_eq!(VisualBlock::heading_size(5), 16);
    assert_eq!(VisualBlock::heading_size(6), 14);
    for low in 1..6u8 {
        for high in (low + 1)..7u8 {
            assert!(VisualBlock::heading_size(low) >= VisualBlock::heading_size(high));
        }
    }
}

#[test]
fn out_of_range_heading_level_renders_as_smallest() {
    assert_eq!(VisualBlock::heading_size(0), 14);
    assert_eq!(VisualBlock::heading_size(9), 14);
    assert_eq!(
        VisualBlock::heading_color(9, false),
        Color { r: 136, g: 136, b: 136 }
    );
    assert_eq!(
        VisualBlock::heading_color(9, true),
        Color { r: 190, g: 190, b: 190 }
    );
}

#[test]
fn style_flags_accumulate_on_paragraph() {
    let events = vec![
        Event::StartBlock(BlockKind::Paragraph),
        Event::StartBlock(BlockKind::Emphasis),
        Event::StartBlock(BlockKind::Strong),
        Event::Text(String::from("a")),
        Event::EndBlock(BlockKind::Paragraph),
    ];
    let out = render(events, false).unwrap();
    assert_eq!(
        out,
        vec![
            VisualBlock::Spacer(8),
            VisualBlock::StyledText(body_run("a", true, true, false)),
            VisualBlock::Spacer(8),
        ]
    );
}

#[test]
fn empty_heading_emits_only_spacers() {
    let events = vec![
        Event::StartBlock(BlockKind::Heading(1)),
        Event::EndBlock(BlockKind::Heading(1)),
    ];
    let out = render(events, false).unwrap();
    assert_eq!(out, vec![VisualBlock::Spacer(20), VisualBlock::Spacer(10)]);
}

#[test]
fn heading_with_text_emits_styled_run_and_rule() {
    let events = vec![
        Event::StartBlock(BlockKind::Heading(1)),
        Event::Text(String::from("Title")),
        Event::EndBlock(BlockKind::Heading(1)),
    ];
    let out = render(events, false).unwrap();
    assert_eq!(
        out,
        vec![
            VisualBlock::Spacer(20),
            VisualBlock::StyledText(TextRun {
                content: String::from("Title"),
                size: 28,
                bold: true,
                italic: false,
                strikethrough: false,
                monospace: false,
                color: Some(Color { r: 51, g: 51, b: 51 }),
                background: None,
            }),
            VisualBlock::Separator,
            VisualBlock::Spacer(5),
            VisualBlock::Spacer(10),
        ]
    );
}

#[test]
fn third_level_heading_has_no_rule() {
    let events = vec![
        Event::StartBlock(BlockKind::Heading(3)),
        Event::Text(String::from("Sub")),
        Event::EndBlock(BlockKind::Heading(3)),
    ];
    let out = render(events, true).unwrap();
    assert_eq!(
        out,
        vec![
            VisualBlock::Spacer(20),
            VisualBlock::StyledText(TextRun {
                content: String::from("Sub"),
                size: 20,
                bold: true,
                italic: false,
                strikethrough: false,
                monospace: false,
                color: Some(Color { r: 210, g: 210, b: 210 }),
                background: None,
            }),
            VisualBlock::Spacer(10),
        ]
    );
}

#[test]
fn code_block_routes_text_away_from_paragraphs() {
    let events = vec![
        Event::StartBlock(BlockKind::CodeBlock(Some(String::from("rust")))),
        Event::Text(String::from("fn main() {}")),
        Event::EndBlock(BlockKind::CodeBlock(Some(String::from("rust")))),
    ];
    let out = render(events, false).unwrap();
    assert_eq!(
        out,
        vec![
            VisualBlock::Spacer(10),
            VisualBlock::CodeLanguageLabel(String::from("```rust")),
            VisualBlock::CodePanel(String::from("fn main() {}")),
            VisualBlock::Spacer(10),
        ]
    );
}

#[test]
fn text_inside_code_block_leaves_text_accumulator_alone() {
    let mut state = RenderState::new();
    let mut out = Vec::new();
    state
        .handle_event(
            &Event::StartBlock(BlockKind::CodeBlock(None)),
            false,
            &mut out,
        )
        .unwrap();
    state
        .handle_event(&Event::Text(String::from("let x = 1;")), false, &mut out)
        .unwrap();
    assert_eq!(state.text_accumulator, "");
    assert_eq!(state.code_accumulator, "let x = 1;");
}

#[test]
fn unlabelled_code_block_has_no_language_label() {
    let events = vec![
        Event::StartBlock(BlockKind::CodeBlock(None)),
        Event::Text(String::from("plain")),
        Event::EndBlock(BlockKind::CodeBlock(None)),
    ];
    let out = render(events, false).unwrap();
    assert_eq!(
        out,
        vec![
            VisualBlock::Spacer(10),
            VisualBlock::CodePanel(String::from("plain")),
            VisualBlock::Spacer(10),
        ]
    );
}

#[test]
fn empty_code_block_emits_no_panel() {
    let events = vec![
        Event::StartBlock(BlockKind::CodeBlock(None)),
        Event::EndBlock(BlockKind::CodeBlock(None)),
    ];
    let out = render(events, false).unwrap();
    assert_eq!(out, vec![VisualBlock::Spacer(10)]);
}

#[test]
fn top_level_list_item_has_no_indent() {
    let events = vec![
        Event::StartBlock(BlockKind::List),
        Event::StartBlock(BlockKind::ListItem),
        Event::Text(String::from("x")),
        Event::EndBlock(BlockKind::ListItem),
        Event::EndBlock(BlockKind::List),
    ];
    let out = render(events, false).unwrap();
    assert_eq!(
        out,
        vec![
            VisualBlock::Spacer(8),
            VisualBlock::ListBullet { indent: 0, content: String::from("x") },
            VisualBlock::Spacer(8),
        ]
    );
}

#[test]
fn nested_list_item_is_indented_one_level_deeper() {
    let events = vec![
        Event::StartBlock(BlockKind::List),
        Event::StartBlock(BlockKind::ListItem),
        Event::Text(String::from("outer")),
        Event::StartBlock(BlockKind::List),
        Event::StartBlock(BlockKind::ListItem),
        Event::Text(String::from("inner")),
        Event::EndBlock(BlockKind::ListItem),
        Event::EndBlock(BlockKind::List),
        Event::EndBlock(BlockKind::ListItem),
        Event::EndBlock(BlockKind::List),
    ];
    let out = render(events, false).unwrap();
    assert_eq!(
        out,
        vec![
            VisualBlock::Spacer(8),
            VisualBlock::Spacer(8),
            VisualBlock::ListBullet { indent: 1, content: String::from("inner") },
            VisualBlock::Spacer(8),
            VisualBlock::Spacer(8),
        ]
    );
}

#[test]
fn closing_an_unopened_list_fails_keeping_earlier_output() {
    let events = vec![
        Event::StartBlock(BlockKind::Paragraph),
        Event::Text(String::from("before")),
        Event::EndBlock(BlockKind::Paragraph),
        Event::EndBlock(BlockKind::List),
        Event::StartBlock(BlockKind::Paragraph),
        Event::Text(String::from("after")),
        Event::EndBlock(BlockKind::Paragraph),
    ];
    let mut out = Vec::new();
    let result = render_events(&events, false, &mut out);
    assert_eq!(result, Err(RenderError::ListUnderflow));
    assert_eq!(
        out,
        vec![
            VisualBlock::Spacer(8),
            VisualBlock::StyledText(body_run("before", false, false, false)),
            VisualBlock::Spacer(8),
        ]
    );
}

#[test]
fn paragraph_inside_list_gets_no_extra_spacing() {
    let events = vec![
        Event::StartBlock(BlockKind::List),
        Event::StartBlock(BlockKind::Paragraph),
        Event::Text(String::from("in list")),
        Event::EndBlock(BlockKind::Paragraph),
        Event::EndBlock(BlockKind::List),
    ];
    let out = render(events, false).unwrap();
    assert_eq!(
        out,
        vec![
            VisualBlock::Spacer(8),
            VisualBlock::StyledText(body_run("in list", false, false, false)),
            VisualBlock::Spacer(8),
        ]
    );
}

#[test]
fn empty_paragraph_emits_only_leading_spacer() {
    let events = vec![
        Event::StartBlock(BlockKind::Paragraph),
        Event::EndBlock(BlockKind::Paragraph),
    ];
    let out = render(events, false).unwrap();
    assert_eq!(out, vec![VisualBlock::Spacer(8)]);
}

#[test]
fn soft_and_hard_breaks_join_text() {
    let events = vec![
        Event::StartBlock(BlockKind::Paragraph),
        Event::Text(String::from("one")),
        Event::SoftBreak,
        Event::Text(String::from("two")),
        Event::HardBreak,
        Event::Text(String::from("three")),
        Event::EndBlock(BlockKind::Paragraph),
    ];
    let out = render(events, false).unwrap();
    assert_eq!(
        out,
        vec![
            VisualBlock::Spacer(8),
            VisualBlock::StyledText(body_run("one two\nthree", false, false, false)),
            VisualBlock::Spacer(8),
        ]
    );
}

#[test]
fn inline_code_is_emitted_immediately_with_theme_tint() {
    let events = vec![
        Event::StartBlock(BlockKind::Paragraph),
        Event::InlineCode(String::from("let y")),
        Event::EndBlock(BlockKind::Paragraph),
    ];
    let light = render(events.clone(), false).unwrap();
    assert_eq!(
        light[1],
        VisualBlock::StyledText(TextRun {
            content: String::from("let y"),
            size: 14,
            bold: false,
            italic: false,
            strikethrough: false,
            monospace: true,
            color: None,
            background: Some(Color { r: 240, g: 240, b: 240 }),
        })
    );
    let dark = render(events, true).unwrap();
    assert_eq!(
        dark[1],
        VisualBlock::StyledText(TextRun {
            content: String::from("let y"),
            size: 14,
            bold: false,
            italic: false,
            strikethrough: false,
            monospace: true,
            color: None,
            background: Some(Color { r: 45, g: 45, b: 45 }),
        })
    );
}

#[test]
fn block_quote_renders_as_rule_with_spacing() {
    let events = vec![
        Event::StartBlock(BlockKind::BlockQuote),
        Event::StartBlock(BlockKind::Paragraph),
        Event::Text(String::from("quoted")),
        Event::EndBlock(BlockKind::Paragraph),
        Event::EndBlock(BlockKind::BlockQuote),
    ];
    let out = render(events, false).unwrap();
    assert_eq!(
        out,
        vec![
            VisualBlock::Spacer(8),
            VisualBlock::Separator,
            VisualBlock::Spacer(8),
            VisualBlock::StyledText(body_run("quoted", false, false, false)),
            VisualBlock::Spacer(8),
            VisualBlock::Spacer(8),
        ]
    );
}

#[test]
fn unknown_blocks_are_ignored_silently() {
    let events = vec![
        Event::StartBlock(BlockKind::Other),
        Event::EndBlock(BlockKind::Other),
    ];
    let out = render(events, false).unwrap();
    assert_eq!(out, Vec::<VisualBlock>::new());
}
