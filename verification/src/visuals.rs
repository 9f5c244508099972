//! The visual block commands the renderer emits, and the formatting rules
//! (sizes, colors, spacing) that pick their parameters.
//!
//! Sizes and spacer heights are in whole points; the drawing backend maps
//! them to pixels.

use vstd::prelude::*;

verus! {

/// An RGB color from the theme's ramp.
#[derive(Debug, Clone, Copy, PartialEq, Eq, Structural)]
pub struct Color {
    pub r: u8,
    pub g: u8,
    pub b: u8,
}

/// One styled run of text.
///
/// `color` and `background` of `None` mean the theme's default text color
/// and no background tint.
#[derive(Debug, Clone, PartialEq, Eq)]
pub struct TextRun {
    pub content: String,
    pub size: u32,
    pub bold: bool,
    pub italic: bool,
    pub strikethrough: bool,
    pub monospace: bool,
    pub color: Option<Color>,
    pub background: Option<Color>,
}

/// One abstract rendering instruction, independent of any UI toolkit.
#[derive(Debug, Clone, PartialEq, Eq)]
pub enum VisualBlock {
    StyledText(TextRun),
    Spacer(u32),
    Separator,
    CodeLanguageLabel(String),
    CodePanel(String),
    ListBullet { indent: usize, content: String },
    /// Reserved for quote decoration; the current formatting rules render a
    /// block quote as a rule followed by its paragraph instead.
    BlockQuoteMarker,
}

/// Model of a `TextRun`, with text as a character sequence.
pub struct TextRunModel {
    pub content: Seq<char>,
    pub size: int,
    pub bold: bool,
    pub italic: bool,
    pub strikethrough: bool,
    pub monospace: bool,
    pub color: Option<Color>,
    pub background: Option<Color>,
}

/// Model of a `VisualBlock`.
pub enum VisualModel {
    StyledText(TextRunModel),
    Spacer(int),
    Separator,
    CodeLanguageLabel(Seq<char>),
    CodePanel(Seq<char>),
    ListBullet { indent: int, content: Seq<char> },
    BlockQuoteMarker,
}

impl View for TextRun {
    type V = TextRunModel;

    open spec fn view(&self) -> TextRunModel {
        TextRunModel {
            content: self.content.view(),
            size: self.size as int,
            bold: self.bold,
            italic: self.italic,
            strikethrough: self.strikethrough,
            monospace: self.monospace,
            color: self.color,
            background: self.background,
        }
    }
}

impl DeepView for TextRun {
    type V = TextRunModel;

    open spec fn deep_view(&self) -> TextRunModel {
        self.view()
    }
}

impl View for VisualBlock {
    type V = VisualModel;

    open spec fn view(&self) -> VisualModel {
        match self {
            VisualBlock::StyledText(run) => VisualModel::StyledText(run.view()),
            VisualBlock::Spacer(height) => VisualModel::Spacer(*height as int),
            VisualBlock::Separator => VisualModel::Separator,
            VisualBlock::CodeLanguageLabel(text) => VisualModel::CodeLanguageLabel(text.view()),
            VisualBlock::CodePanel(text) => VisualModel::CodePanel(text.view()),
            VisualBlock::ListBullet { indent, content } => VisualModel::ListBullet {
                indent: *indent as int,
                content: content.view(),
            },
            VisualBlock::BlockQuoteMarker => VisualModel::BlockQuoteMarker,
        }
    }
}

impl DeepView for VisualBlock {
    type V = VisualModel;

    open spec fn deep_view(&self) -> VisualModel {
        self.view()
    }
}

/// Out-of-range heading levels render as the smallest tier.
pub open spec fn clamped_level(level: int) -> int {
    if 1 <= level && level <= 6 {
        level
    } else {
        6
    }
}

/// Text size of a heading: six tiers, strictly decreasing from level 1 to 6.
pub open spec fn spec_heading_size(level: int) -> int {
    let tier = clamped_level(level);
    if tier == 1 {
        28
    } else if tier == 2 {
        24
    } else if tier == 3 {
        20
    } else if tier == 4 {
        18
    } else if tier == 5 {
        16
    } else {
        14
    }
}

/// Heading color ramp: the light palette darkest at level 1 and lighter as
/// the level grows, the dark palette lightest at level 1 and darker below.
pub open spec fn spec_heading_color(level: int, dark_mode: bool) -> Color {
    let tier = clamped_level(level);
    if dark_mode {
        if tier == 1 {
            Color { r: 255, g: 255, b: 255 }
        } else if tier == 2 {
            Color { r: 230, g: 230, b: 230 }
        } else if tier == 3 {
            Color { r: 210, g: 210, b: 210 }
        } else {
            Color { r: 190, g: 190, b: 190 }
        }
    } else {
        if tier == 1 {
            Color { r: 51, g: 51, b: 51 }
        } else if tier == 2 {
            Color { r: 68, g: 68, b: 68 }
        } else if tier == 3 {
            Color { r: 85, g: 85, b: 85 }
        } else if tier == 4 {
            Color { r: 102, g: 102, b: 102 }
        } else if tier == 5 {
            Color { r: 119, g: 119, b: 119 }
        } else {
            Color { r: 136, g: 136, b: 136 }
        }
    }
}

/// Background tint of an inline code span, per theme.
pub open spec fn spec_inline_code_background(dark_mode: bool) -> Color {
    if dark_mode {
        Color { r: 45, g: 45, b: 45 }
    } else {
        Color { r: 240, g: 240, b: 240 }
    }
}

/// The run a finished heading flushes: always bold, sized and colored by level.
pub open spec fn heading_run(content: Seq<char>, level: int, dark_mode: bool) -> TextRunModel {
    TextRunModel {
        content: content,
        size: spec_heading_size(level),
        bold: true,
        italic: false,
        strikethrough: false,
        monospace: false,
        color: Some(spec_heading_color(level, dark_mode)),
        background: None,
    }
}

/// The run a finished paragraph or list item flushes: body size, styled by
/// the currently active style flags.
pub open spec fn paragraph_run(
    content: Seq<char>,
    emphasis: bool,
    strong: bool,
    strikethrough: bool,
) -> TextRunModel {
    TextRunModel {
        content: content,
        size: 14,
        bold: strong,
        italic: emphasis,
        strikethrough: strikethrough,
        monospace: false,
        color: None,
        background: None,
    }
}

/// The run an inline code span emits immediately: monospace on a tinted
/// background, out of band of the surrounding paragraph.
pub open spec fn inline_code_run(content: Seq<char>, dark_mode: bool) -> TextRunModel {
    TextRunModel {
        content: content,
        size: 14,
        bold: false,
        italic: false,
        strikethrough: false,
        monospace: true,
        color: None,
        background: Some(spec_inline_code_background(dark_mode)),
    }
}

impl VisualBlock {
    /// Text size of a heading at the given level.
    pub fn heading_size(level: u8) -> (size: u32)
        ensures
            size as int == spec_heading_size(level as int),
    {
        if level == 1 {
            28
        } else if level == 2 {
            24
        } else if level == 3 {
            20
        } else if level == 4 {
            18
        } else if level == 5 {
            16
        } else {
            14
        }
    }

    /// Heading color at the given level, for the active theme.
    pub fn heading_color(level: u8, dark_mode: bool) -> (color: Color)
        ensures
            color == spec_heading_color(level as int, dark_mode),
    {
        if dark_mode {
            if level == 1 {
                Color { r: 255, g: 255, b: 255 }
            } else if level == 2 {
                Color { r: 230, g: 230, b: 230 }
            } else if level == 3 {
                Color { r: 210, g: 210, b: 210 }
            } else {
                Color { r: 190, g: 190, b: 190 }
            }
        } else {
            if level == 1 {
                Color { r: 51, g: 51, b: 51 }
            } else if level == 2 {
                Color { r: 68, g: 68, b: 68 }
            } else if level == 3 {
                Color { r: 85, g: 85, b: 85 }
            } else if level == 4 {
                Color { r: 102, g: 102, b: 102 }
            } else if level == 5 {
                Color { r: 119, g: 119, b: 119 }
            } else {
                Color { r: 136, g: 136, b: 136 }
            }
        }
    }

    /// Background tint of an inline code span, for the active theme.
    pub fn inline_code_background(dark_mode: bool) -> (color: Color)
        ensures
            color == spec_inline_code_background(dark_mode),
    {
        if dark_mode {
            Color { r: 45, g: 45, b: 45 }
        } else {
            Color { r: 240, g: 240, b: 240 }
        }
    }
}

} // verus!
