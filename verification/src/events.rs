//! The markdown events the renderer consumes, and their mathematical models.

use vstd::prelude::*;

verus! {

/// A structural markdown construct that brackets content.
#[derive(Debug, Clone, PartialEq, Eq)]
pub enum BlockKind {
    /// A heading with its level; levels outside 1..=6 render as level 6.
    Heading(u8),
    Paragraph,
    /// A code block, with the fenced language tag if one was given.
    CodeBlock(Option<String>),
    List,
    ListItem,
    Emphasis,
    Strong,
    Strikethrough,
    BlockQuote,
    /// A construct this renderer does not handle; it is ignored silently.
    Other,
}

/// One token of the event stream: the start or end of a block, or an inline
/// content fragment.
#[derive(Debug, Clone, PartialEq, Eq)]
pub enum Event {
    StartBlock(BlockKind),
    EndBlock(BlockKind),
    Text(String),
    InlineCode(String),
    SoftBreak,
    HardBreak,
}

/// Model of a `BlockKind`, with text as character sequences.
pub enum BlockKindModel {
    Heading(int),
    Paragraph,
    CodeBlock(Option<Seq<char>>),
    List,
    ListItem,
    Emphasis,
    Strong,
    Strikethrough,
    BlockQuote,
    Other,
}

/// Model of an `Event`, with text as character sequences.
pub enum EventModel {
    StartBlock(BlockKindModel),
    EndBlock(BlockKindModel),
    Text(Seq<char>),
    InlineCode(Seq<char>),
    SoftBreak,
    HardBreak,
}

impl View for BlockKind {
    type V = BlockKindModel;

    open spec fn view(&self) -> BlockKindModel {
        match self {
            BlockKind::Heading(level) => BlockKindModel::Heading(*level as int),
            BlockKind::Paragraph => BlockKindModel::Paragraph,
            BlockKind::CodeBlock(lang) => BlockKindModel::CodeBlock(lang.deep_view()),
            BlockKind::List => BlockKindModel::List,
            BlockKind::ListItem => BlockKindModel::ListItem,
            BlockKind::Emphasis => BlockKindModel::Emphasis,
            BlockKind::Strong => BlockKindModel::Strong,
            BlockKind::Strikethrough => BlockKindModel::Strikethrough,
            BlockKind::BlockQuote => BlockKindModel::BlockQuote,
            BlockKind::Other => BlockKindModel::Other,
        }
    }
}

impl DeepView for BlockKind {
    type V = BlockKindModel;

    open spec fn deep_view(&self) -> BlockKindModel {
        self.view()
    }
}

impl View for Event {
    type V = EventModel;

    open spec fn view(&self) -> EventModel {
        match self {
            Event::StartBlock(kind) => EventModel::StartBlock(kind.view()),
            Event::EndBlock(kind) => EventModel::EndBlock(kind.view()),
            Event::Text(text) => EventModel::Text(text.view()),
            Event::InlineCode(text) => EventModel::InlineCode(text.view()),
            Event::SoftBreak => EventModel::SoftBreak,
            Event::HardBreak => EventModel::HardBreak,
        }
    }
}

impl DeepView for Event {
    type V = EventModel;

    open spec fn deep_view(&self) -> EventModel {
        self.view()
    }
}

} // verus!
