use mdview::lang::{Language, Translations};

#[test]
fn language_display_names() {
    assert_eq!(Language::English.to_string(), "English");
    assert_eq!(Language::Spanish.to_string(), "Español");
    assert_eq!(Language::System.to_string(), "System / Sistema");
}

#[test]
fn default_language_follows_system() {
    assert_eq!(Language::default(), Language::System);
}

#[test]
fn spanish_locales_select_spanish() {
    assert_eq!(
        Language::from_locale(&Some(String::from("es-ES"))),
        Language::Spanish
    );
    assert_eq!(
        Language::from_locale(&Some(String::from("es"))),
        Language::Spanish
    );
}

#[test]
fn other_locales_fall_back_to_english() {
    assert_eq!(
        Language::from_locale(&Some(String::from("en-US"))),
        Language::English
    );
    assert_eq!(
        Language::from_locale(&Some(String::from("de-DE"))),
        Language::English
    );
    assert_eq!(Language::from_locale(&Some(String::from("e"))), Language::English);
    assert_eq!(Language::from_locale(&Some(String::new())), Language::English);
    assert_eq!(Language::from_locale(&None), Language::English);
}

#[test]
fn explicit_choices_are_effective_as_they_are() {
    assert_eq!(Language::English.get_effective_language(), Language::English);
    assert_eq!(Language::Spanish.get_effective_language(), Language::Spanish);
}

#[test]
fn system_choice_resolves_to_a_concrete_language() {
    let effective = Language::System.get_effective_language();
    assert!(effective == Language::English || effective == Language::Spanish);
    let detected = Language::detect_system_language();
    assert!(detected == Language::English || detected == Language::Spanish);
}

#[test]
fn english_table_texts() {
    let t = Translations::english();
    assert_eq!(t.app_title, "MDView - Markdown Viewer");
    assert_eq!(t.open_file, "Open file");
    assert_eq!(t.settings, "Settings");
    assert_eq!(t.theme_light, "Light");
    assert_eq!(t.language_spanish, "Spanish");
    assert_eq!(t.about_year, "Year: 2025");
    assert_eq!(t.about_feature_multiplatform, "Multiplatform (Windows, Linux, macOS)");
}

#[test]
fn spanish_table_texts() {
    let t = Translations::spanish();
    assert_eq!(t.app_title, "MDView - Visor de Markdown");
    assert_eq!(t.open_file, "Abrir archivo");
    assert_eq!(t.settings, "Configuración");
    assert_eq!(t.theme_light, "Claro");
    assert_eq!(t.language_spanish, "Español");
    assert_eq!(t.about_year, "Año: 2025");
    assert_eq!(t.about_feature_multiplatform, "Multiplataforma (Windows, Linux, macOS)");
}

#[test]
fn tables_follow_the_language_choice() {
    assert_eq!(Translations::new(&Language::English), Translations::english());
    assert_eq!(Translations::new(&Language::Spanish), Translations::spanish());
    let system = Translations::new(&Language::System);
    assert!(system == Translations::english() || system == Translations::spanish());
}

#[test]
fn default_table_is_english() {
    assert_eq!(Translations::default(), Translations::english());
}
