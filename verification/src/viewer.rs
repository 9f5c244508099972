//! The viewer's document and settings state: theme and language choices,
//! the loaded markdown text, and its HTML rendering.

use vstd::prelude::*;

use crate::lang::{english_table, spanish_table, Language, Translations};

verus! {

/// The visual theme choice; `System` follows the platform's preference.
#[derive(Debug, Clone, PartialEq, Eq, Structural)]
pub enum Theme {
    Light,
    Dark,
    System,
}

/// The page of the settings panel currently shown.
#[derive(Debug, Clone, PartialEq, Eq, Structural)]
pub enum SettingsSection {
    Theme,
    Language,
    About,
}

impl Default for SettingsSection {
    /// The settings panel opens on the theme page.
    fn default() -> (r: Self)
        ensures
            r == SettingsSection::Theme,
    {
        SettingsSection::Theme
    }
}

/// The viewer's persisted settings.
#[derive(Debug, Clone, PartialEq, Eq, Structural)]
pub struct AppSettings {
    pub theme: Theme,
    pub language: Language,
    pub show_raw_markdown: bool,
    pub window_maximized: bool,
}

impl Default for AppSettings {
    /// System theme and language, rendered view, unmaximized window.
    fn default() -> (r: Self)
        ensures
            r == (AppSettings {
                theme: Theme::System,
                language: Language::System,
                show_raw_markdown: false,
                window_maximized: false,
            }),
    {
        AppSettings {
            theme: Theme::System,
            language: Language::System,
            show_raw_markdown: false,
            window_maximized: false,
        }
    }
}

/// The HTML rendering of a markdown text, as the HTML renderer produces it
/// with this viewer's extension set; a function of the source text alone.
pub uninterp spec fn html_of(source: Seq<char>) -> Seq<char>;

/// Relies on pulldown-cmark's `Parser::new_ext` and `html::push_html`: the
/// HTML rendering of the source with the strikethrough, table, footnote,
/// task-list and smart-punctuation extensions enabled. The result depends
/// on the source text alone, and an empty source renders to empty HTML.
#[verifier::external_body]
fn markdown_to_html(source: &str) -> (html: String)
    ensures
        html@ == html_of(source@),
        source@.len() == 0 ==> html@.len() == 0,
{
    let mut options = pulldown_cmark::Options::empty();
    options.insert(pulldown_cmark::Options::ENABLE_STRIKETHROUGH);
    options.insert(pulldown_cmark::Options::ENABLE_TABLES);
    options.insert(pulldown_cmark::Options::ENABLE_FOOTNOTES);
    options.insert(pulldown_cmark::Options::ENABLE_TASKLISTS);
    options.insert(pulldown_cmark::Options::ENABLE_SMART_PUNCTUATION);
    let parser = pulldown_cmark::Parser::new_ext(source, options);
    let mut html = String::new();
    pulldown_cmark::html::push_html(&mut html, parser);
    html
}

/// The viewer: the loaded document, its HTML rendering, and the UI state
/// around it.
#[derive(Debug, Clone, PartialEq, Eq)]
pub struct MarkdownViewer {
    pub markdown_content: String,
    pub html_content: String,
    pub current_file: Option<String>,
    pub settings: AppSettings,
    pub show_settings: bool,
    pub selected_settings_section: SettingsSection,
    pub translations: Translations,
}

impl Default for MarkdownViewer {
    /// No document loaded, default settings, settings panel closed.
    fn default() -> (r: Self)
        ensures
            r.markdown_content@.len() == 0,
            r.html_content@.len() == 0,
            r.current_file is None,
            r.settings == (AppSettings {
                theme: Theme::System,
                language: Language::System,
                show_raw_markdown: false,
                window_maximized: false,
            }),
            !r.show_settings,
            r.selected_settings_section == SettingsSection::Theme,
            r.translations@ == english_table(),
    {
        MarkdownViewer {
            markdown_content: String::new(),
            html_content: String::new(),
            current_file: None,
            settings: AppSettings::default(),
            show_settings: false,
            selected_settings_section: SettingsSection::Theme,
            translations: Translations::default(),
        }
    }
}

impl MarkdownViewer {
    /// A fresh viewer around previously persisted settings, with the
    /// translation table the settings' language selects.
    pub fn with_settings(settings: AppSettings) -> (r: Self)
        ensures
            r.settings == settings,
            r.markdown_content@.len() == 0,
            r.html_content@.len() == 0,
            r.current_file is None,
            !r.show_settings,
            r.selected_settings_section == SettingsSection::Theme,
            settings.language == Language::English ==> r.translations@ == english_table(),
            settings.language == Language::Spanish ==> r.translations@ == spanish_table(),
            settings.language == Language::System ==> (r.translations@ == english_table()
                || r.translations@ == spanish_table()),
    {
        let translations = Translations::new(&settings.language);
        MarkdownViewer {
            markdown_content: String::new(),
            html_content: String::new(),
            current_file: None,
            settings,
            show_settings: false,
            selected_settings_section: SettingsSection::Theme,
            translations,
        }
    }

    /// Re-render the loaded markdown to HTML.
    pub fn update_html(&mut self)
        ensures
            final(self).html_content@ == html_of(old(self).markdown_content@),
            final(self).markdown_content == old(self).markdown_content,
            final(self).current_file == old(self).current_file,
            final(self).settings == old(self).settings,
            final(self).show_settings == old(self).show_settings,
            final(self).selected_settings_section == old(self).selected_settings_section,
            final(self).translations == old(self).translations,
    {
        self.html_content = markdown_to_html(self.markdown_content.as_str());
    }

    /// Take a document just read from `path`: keep its text, remember the
    /// path, and render the HTML view.
    pub fn load_content(&mut self, content: String, path: String)
        ensures
            final(self).markdown_content == content,
            final(self).current_file matches Some(p) && p == path,
            final(self).html_content@ == html_of(content@),
            final(self).settings == old(self).settings,
            final(self).show_settings == old(self).show_settings,
            final(self).selected_settings_section == old(self).selected_settings_section,
            final(self).translations == old(self).translations,
    {
        self.markdown_content = content;
        self.current_file = Some(path);
        self.update_html();
    }

    /// Whether the theme choice asks for dark visuals: the explicit dark
    /// choice, and also `System`, which this viewer resolves to dark.
    pub fn dark_mode_active(&self) -> (dark: bool)
        ensures
            dark == (self.settings.theme != Theme::Light),
    {
        match self.settings.theme {
            Theme::Light => false,
            Theme::Dark => true,
            Theme::System => true,
        }
    }

    /// Swap in the translation table the current language choice selects.
    pub fn update_translations(&mut self)
        ensures
            old(self).settings.language == Language::English ==> final(self).translations@
                == english_table(),
            old(self).settings.language == Language::Spanish ==> final(self).translations@
                == spanish_table(),
            old(self).settings.language == Language::System ==> (final(self).translations@
                == english_table() || final(self).translations@ == spanish_table()),
            final(self).markdown_content == old(self).markdown_content,
            final(self).html_content == old(self).html_content,
            final(self).current_file == old(self).current_file,
            final(self).settings == old(self).settings,
            final(self).show_settings == old(self).show_settings,
            final(self).selected_settings_section == old(self).selected_settings_section,
    {
        self.translations = Translations::new(&self.settings.language);
    }
}

} // verus!
