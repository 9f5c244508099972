//! The languages the viewer speaks, locale detection, and the translation
//! tables for every piece of UI text.

use vstd::prelude::*;
use vstd::string::StrSliceExecFns;

verus! {

/// A display language choice; `System` follows the machine's locale.
#[derive(Debug, Clone, PartialEq, Eq, Structural)]
pub enum Language {
    English,
    Spanish,
    System,
}

impl Default for Language {
    /// The default choice follows the system locale.
    fn default() -> (r: Self)
        ensures
            r == Language::System,
    {
        Language::System
    }
}

/// A locale tag selects Spanish exactly when it begins with "es".
pub open spec fn locale_selects_spanish(locale: Seq<char>) -> bool {
    locale.len() >= 2 && locale[0] == 'e' && locale[1] == 's'
}

/// Relies on `sys_locale::get_locale`: the system's preferred BCP 47 locale
/// tag, if one can be determined. Nothing is assumed of the result, which
/// depends on the machine's environment.
#[verifier::external_body]
fn system_locale() -> Option<String> {
    sys_locale::get_locale()
}

impl Language {
    /// Display name of the language choice.
    pub fn to_string(&self) -> (name: &'static str)
        ensures
            *self == Language::English ==> name@ == "English"@,
            *self == Language::Spanish ==> name@ == "Español"@,
            *self == Language::System ==> name@ == "System / Sistema"@,
    {
        match self {
            Language::English => "English",
            Language::Spanish => "Español",
            Language::System => "System / Sistema",
        }
    }

    /// The language a locale tag selects: Spanish for a tag that begins
    /// with "es", English otherwise, also when no locale is known.
    pub fn from_locale(locale: &Option<String>) -> (r: Language)
        ensures
            ({
                match locale {
                    Some(tag) => r == (if locale_selects_spanish(tag@) {
                        Language::Spanish
                    } else {
                        Language::English
                    }),
                    None => r == Language::English,
                }
            }),
    {
        match locale {
            Some(tag) => {
                let s = tag.as_str();
                if s.unicode_len() >= 2 && s.get_char(0) == 'e' && s.get_char(1) == 's' {
                    Language::Spanish
                } else {
                    Language::English
                }
            },
            None => Language::English,
        }
    }

    /// The concrete language the system locale selects; English as the
    /// fallback when none is known.
    pub fn detect_system_language() -> (r: Language)
        ensures
            r == Language::English || r == Language::Spanish,
    {
        let locale = system_locale();
        Language::from_locale(&locale)
    }

    /// Resolve `System` to the concrete language the locale selects; the
    /// explicit choices stand as they are.
    pub fn get_effective_language(&self) -> (r: Language)
        ensures
            *self == Language::English ==> r == Language::English,
            *self == Language::Spanish ==> r == Language::Spanish,
            *self == Language::System ==> (r == Language::English || r == Language::Spanish),
    {
        match self {
            Language::System => Language::detect_system_language(),
            Language::English => Language::English,
            Language::Spanish => Language::Spanish,
        }
    }
}

/// Every piece of UI text, in the active language.
#[derive(Debug, Clone, PartialEq, Eq)]
pub struct Translations {
    pub app_title: &'static str,
    pub open_file: &'static str,
    pub view_normal: &'static str,
    pub view_raw: &'static str,
    pub settings: &'static str,
    pub welcome_title: &'static str,
    pub welcome_subtitle: &'static str,
    pub welcome_drag_drop: &'static str,
    pub open_file_button: &'static str,
    pub settings_title: &'static str,
    pub sections_title: &'static str,
    pub theme_section: &'static str,
    pub language_section: &'static str,
    pub about_section: &'static str,
    pub apply_button: &'static str,
    pub close_button: &'static str,
    pub theme_config_title: &'static str,
    pub theme_description: &'static str,
    pub theme_light: &'static str,
    pub theme_dark: &'static str,
    pub theme_system: &'static str,
    pub preview_label: &'static str,
    pub language_config_title: &'static str,
    pub language_description: &'static str,
    pub language_english: &'static str,
    pub language_spanish: &'static str,
    pub language_system: &'static str,
    pub about_title: &'static str,
    pub about_author: &'static str,
    pub about_year: &'static str,
    pub about_license: &'static str,
    pub about_version: &'static str,
    pub about_technology: &'static str,
    pub about_description: &'static str,
    pub about_features: &'static str,
    pub about_feature_markdown: &'static str,
    pub about_feature_interface: &'static str,
    pub about_feature_themes: &'static str,
    pub about_feature_drag_drop: &'static str,
    pub about_feature_multiplatform: &'static str,
}

/// Model of a translation table, with each text as a character sequence.
pub struct TranslationsModel {
    pub app_title: Seq<char>,
    pub open_file: Seq<char>,
    pub view_normal: Seq<char>,
    pub view_raw: Seq<char>,
    pub settings: Seq<char>,
    pub welcome_title: Seq<char>,
    pub welcome_subtitle: Seq<char>,
    pub welcome_drag_drop: Seq<char>,
    pub open_file_button: Seq<char>,
    pub settings_title: Seq<char>,
    pub sections_title: Seq<char>,
    pub theme_section: Seq<char>,
    pub language_section: Seq<char>,
    pub about_section: Seq<char>,
    pub apply_button: Seq<char>,
    pub close_button: Seq<char>,
    pub theme_config_title: Seq<char>,
    pub theme_description: Seq<char>,
    pub theme_light: Seq<char>,
    pub theme_dark: Seq<char>,
    pub theme_system: Seq<char>,
    pub preview_label: Seq<char>,
    pub language_config_title: Seq<char>,
    pub language_description: Seq<char>,
    pub language_english: Seq<char>,
    pub language_spanish: Seq<char>,
    pub language_system: Seq<char>,
    pub about_title: Seq<char>,
    pub about_author: Seq<char>,
    pub about_year: Seq<char>,
    pub about_license: Seq<char>,
    pub about_version: Seq<char>,
    pub about_technology: Seq<char>,
    pub about_description: Seq<char>,
    pub about_features: Seq<char>,
    pub about_feature_markdown: Seq<char>,
    pub about_feature_interface: Seq<char>,
    pub about_feature_themes: Seq<char>,
    pub about_feature_drag_drop: Seq<char>,
    pub about_feature_multiplatform: Seq<char>,
}

impl View for Translations {
    type V = TranslationsModel;

    open spec fn view(&self) -> TranslationsModel {
        TranslationsModel {
            app_title: self.app_title@,
            open_file: self.open_file@,
            view_normal: self.view_normal@,
            view_raw: self.view_raw@,
            settings: self.settings@,
            welcome_title: self.welcome_title@,
            welcome_subtitle: self.welcome_subtitle@,
            welcome_drag_drop: self.welcome_drag_drop@,
            open_file_button: self.open_file_button@,
            settings_title: self.settings_title@,
            sections_title: self.sections_title@,
            theme_section: self.theme_section@,
            language_section: self.language_section@,
            about_section: self.about_section@,
            apply_button: self.apply_button@,
            close_button: self.close_button@,
            theme_config_title: self.theme_config_title@,
            theme_description: self.theme_description@,
            theme_light: self.theme_light@,
            theme_dark: self.theme_dark@,
            theme_system: self.theme_system@,
            preview_label: self.preview_label@,
            language_config_title: self.language_config_title@,
            language_description: self.language_description@,
            language_english: self.language_english@,
            language_spanish: self.language_spanish@,
            language_system: self.language_system@,
            about_title: self.about_title@,
            about_author: self.about_author@,
            about_year: self.about_year@,
            about_license: self.about_license@,
            about_version: self.about_version@,
            about_technology: self.about_technology@,
            about_description: self.about_description@,
            about_features: self.about_features@,
            about_feature_markdown: self.about_feature_markdown@,
            about_feature_interface: self.about_feature_interface@,
            about_feature_themes: self.about_feature_themes@,
            about_feature_drag_drop: self.about_feature_drag_drop@,
            about_feature_multiplatform: self.about_feature_multiplatform@,
        }
    }
}

/// The English translation table.
pub open spec fn english_table() -> TranslationsModel {
    TranslationsModel {
        app_title: "MDView - Markdown Viewer"@,
        open_file: "Open file"@,
        view_normal: "Normal view"@,
        view_raw: "Raw view"@,
        settings: "Settings"@,
        welcome_title: "MDView - Markdown Viewer"@,
        welcome_subtitle: "Click 'Open' to load a markdown file"@,
        welcome_drag_drop: "Or drag a .md file directly here"@,
        open_file_button: "Open file"@,
        settings_title: "Settings"@,
        sections_title: "Sections"@,
        theme_section: "Theme"@,
        language_section: "Language"@,
        about_section: "About"@,
        apply_button: "Apply"@,
        close_button: "Close"@,
        theme_config_title: "Theme Configuration"@,
        theme_description: "Select the application theme:"@,
        theme_light: "Light"@,
        theme_dark: "Dark"@,
        theme_system: "System"@,
        preview_label: "Preview:"@,
        language_config_title: "Language Configuration"@,
        language_description: "Select the application language:"@,
        language_english: "English"@,
        language_spanish: "Spanish"@,
        language_system: "System"@,
        about_title: "About MDView"@,
        about_author: "Author: Pablo Medina"@,
        about_year: "Year: 2025"@,
        about_license: "License: MIT License"@,
        about_version: "Version: 0.1.0"@,
        about_technology: "Technology: Rust + egui"@,
        about_description: "A cross-platform, modern and efficient Markdown file viewer."@,
        about_features: "Features:"@,
        about_feature_markdown: "Complete support for standard Markdown"@,
        about_feature_interface: "Modern and responsive interface"@,
        about_feature_themes: "Light and dark themes"@,
        about_feature_drag_drop: "Drag and drop files"@,
        about_feature_multiplatform: "Multiplatform (Windows, Linux, macOS)"@,
    }
}

/// The Spanish translation table.
pub open spec fn spanish_table() -> TranslationsModel {
    TranslationsModel {
        app_title: "MDView - Visor de Markdown"@,
        open_file: "Abrir archivo"@,
        view_normal: "Vista normal"@,
        view_raw: "Vista raw"@,
        settings: "Configuración"@,
        welcome_title: "MDView - Visor de Markdown"@,
        welcome_subtitle: "Haz clic en 'Abrir' para cargar un archivo markdown"@,
        welcome_drag_drop: "O arrastra un archivo .md directamente aquí"@,
        open_file_button: "Abrir archivo"@,
        settings_title: "Configuración"@,
        sections_title: "Secciones"@,
        theme_section: "Tema"@,
        language_section: "Idioma"@,
        about_section: "Acerca de"@,
        apply_button: "Aplicar"@,
        close_button: "Cerrar"@,
        theme_config_title: "Configuración de Tema"@,
        theme_description: "Selecciona el tema de la aplicación:"@,
        theme_light: "Claro"@,
        theme_dark: "Oscuro"@,
        theme_system: "Sistema"@,
        preview_label: "Vista previa:"@,
        language_config_title: "Configuración de Idioma"@,
        language_description: "Selecciona el idioma de la aplicación:"@,
        language_english: "Inglés"@,
        language_spanish: "Español"@,
        language_system: "Sistema"@,
        about_title: "Acerca de MDView"@,
        about_author: "Autor: Pablo Medina"@,
        about_year: "Año: 2025"@,
        about_license: "Licencia: MIT License"@,
        about_version: "Versión: 0.1.0"@,
        about_technology: "Tecnología: Rust + egui"@,
        about_description: "Un visor de archivos Markdown multiplataforma, moderno y eficiente."@,
        about_features: "Características:"@,
        about_feature_markdown: "Soporte completo para Markdown estándar"@,
        about_feature_interface: "Interfaz moderna y responsiva"@,
        about_feature_themes: "Temas claro y oscuro"@,
        about_feature_drag_drop: "Arrastrar y soltar archivos"@,
        about_feature_multiplatform: "Multiplataforma (Windows, Linux, macOS)"@,
    }
}

impl Translations {
    /// The translation table for a language choice; under `System`, the one
    /// the machine's locale selects.
    pub fn new(language: &Language) -> (r: Self)
        ensures
            *language == Language::English ==> r@ == english_table(),
            *language == Language::Spanish ==> r@ == spanish_table(),
            *language == Language::System ==> (r@ == english_table() || r@ == spanish_table()),
    {
        match language.get_effective_language() {
            Language::Spanish => Translations::spanish(),
            Language::English => Translations::english(),
            Language::System => Translations::english(),
        }
    }

    /// The English texts.
    pub fn english() -> (r: Self)
        ensures
            r@ == english_table(),
    {
        Translations {
            app_title: "MDView - Markdown Viewer",
            open_file: "Open file",
            view_normal: "Normal view",
            view_raw: "Raw view",
            settings: "Settings",
            welcome_title: "MDView - Markdown Viewer",
            welcome_subtitle: "Click 'Open' to load a markdown file",
            welcome_drag_drop: "Or drag a .md file directly here",
            open_file_button: "Open file",
            settings_title: "Settings",
            sections_title: "Sections",
            theme_section: "Theme",
            language_section: "Language",
            about_section: "About",
            apply_button: "Apply",
            close_button: "Close",
            theme_config_title: "Theme Configuration",
            theme_description: "Select the application theme:",
            theme_light: "Light",
            theme_dark: "Dark",
            theme_system: "System",
            preview_label: "Preview:",
            language_config_title: "Language Configuration",
            language_description: "Select the application language:",
            language_english: "English",
            language_spanish: "Spanish",
            language_system: "System",
            about_title: "About MDView",
            about_author: "Author: Pablo Medina",
            about_year: "Year: 2025",
            about_license: "License: MIT License",
            about_version: "Version: 0.1.0",
            about_technology: "Technology: Rust + egui",
            about_description: "A cross-platform, modern and efficient Markdown file viewer.",
            about_features: "Features:",
            about_feature_markdown: "Complete support for standard Markdown",
            about_feature_interface: "Modern and responsive interface",
            about_feature_themes: "Light and dark themes",
            about_feature_drag_drop: "Drag and drop files",
            about_feature_multiplatform: "Multiplatform (Windows, Linux, macOS)",
        }
    }

    /// The Spanish texts.
    pub fn spanish() -> (r: Self)
        ensures
            r@ == spanish_table(),
    {
        Translations {
            app_title: "MDView - Visor de Markdown",
            open_file: "Abrir archivo",
            view_normal: "Vista normal",
            view_raw: "Vista raw",
            settings: "Configuración",
            welcome_title: "MDView - Visor de Markdown",
            welcome_subtitle: "Haz clic en 'Abrir' para cargar un archivo markdown",
            welcome_drag_drop: "O arrastra un archivo .md directamente aquí",
            open_file_button: "Abrir archivo",
            settings_title: "Configuración",
            sections_title: "Secciones",
            theme_section: "Tema",
            language_section: "Idioma",
            about_section: "Acerca de",
            apply_button: "Aplicar",
            close_button: "Cerrar",
            theme_config_title: "Configuración de Tema",
            theme_description: "Selecciona el tema de la aplicación:",
            theme_light: "Claro",
            theme_dark: "Oscuro",
            theme_system: "Sistema",
            preview_label: "Vista previa:",
            language_config_title: "Configuración de Idioma",
            language_description: "Selecciona el idioma de la aplicación:",
            language_english: "Inglés",
            language_spanish: "Español",
            language_system: "Sistema",
            about_title: "Acerca de MDView",
            about_author: "Autor: Pablo Medina",
            about_year: "Año: 2025",
            about_license: "Licencia: MIT License",
            about_version: "Versión: 0.1.0",
            about_technology: "Tecnología: Rust + egui",
            about_description: "Un visor de archivos Markdown multiplataforma, moderno y eficiente.",
            about_features: "Características:",
            about_feature_markdown: "Soporte completo para Markdown estándar",
            about_feature_interface: "Interfaz moderna y responsiva",
            about_feature_themes: "Temas claro y oscuro",
            about_feature_drag_drop: "Arrastrar y soltar archivos",
            about_feature_multiplatform: "Multiplataforma (Windows, Linux, macOS)",
        }
    }
}

impl Default for Translations {
    /// English is the fallback table.
    fn default() -> (r: Self)
        ensures
            r@ == english_table(),
    {
        Translations::english()
    }
}

} // verus!
