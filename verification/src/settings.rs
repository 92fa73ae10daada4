//! What the user has chosen for the look and the behaviour of the client.

use vstd::prelude::*;
use crate::text::{clone_opt, opt_view, str_eq};

verus! {

/// The language of the user interface.
#[derive(Clone, Copy, Debug, PartialEq, Eq, Structural)]
pub enum LocaleType {
    En,
    Ja,
    It,
    PtBr,
    Fr,
    De,
    ZhCN,
    Ko,
    EsES,
    Id,
    Pl,
    Ia,
}

/// The colours of the user interface.
#[derive(Clone, Copy, Debug, PartialEq, Eq, Structural)]
pub enum ThemeType {
    Dark,
    Light,
    HighContrast,
}

/// The tag under which a language is stored.
pub open spec fn locale_name(locale: LocaleType) -> Seq<char> {
    match locale {
        LocaleType::En => "en"@,
        LocaleType::Ja => "ja"@,
        LocaleType::It => "it"@,
        LocaleType::PtBr => "pt-BR"@,
        LocaleType::Fr => "fr"@,
        LocaleType::De => "de"@,
        LocaleType::ZhCN => "zh-CN"@,
        LocaleType::Ko => "ko"@,
        LocaleType::EsES => "es-ES"@,
        LocaleType::Id => "id"@,
        LocaleType::Pl => "pl"@,
        LocaleType::Ia => "ia"@,
    }
}

/// The language that a tag stands for, if any.
pub open spec fn locale_of_name(name: Seq<char>) -> Option<LocaleType> {
    if name == "en"@ {
        Some(LocaleType::En)
    } else if name == "ja"@ {
        Some(LocaleType::Ja)
    } else if name == "it"@ {
        Some(LocaleType::It)
    } else if name == "pt-BR"@ {
        Some(LocaleType::PtBr)
    } else if name == "fr"@ {
        Some(LocaleType::Fr)
    } else if name == "de"@ {
        Some(LocaleType::De)
    } else if name == "zh-CN"@ {
        Some(LocaleType::ZhCN)
    } else if name == "ko"@ {
        Some(LocaleType::Ko)
    } else if name == "es-ES"@ {
        Some(LocaleType::EsES)
    } else if name == "id"@ {
        Some(LocaleType::Id)
    } else if name == "pl"@ {
        Some(LocaleType::Pl)
    } else if name == "ia"@ {
        Some(LocaleType::Ia)
    } else {
        None
    }
}

impl LocaleType {
    /// The tag of this language.
    pub fn to_string(&self) -> (name: String)
        ensures
            name@ == locale_name(*self),
    {
        match self {
            LocaleType::En => "en".to_owned(),
            LocaleType::Ja => "ja".to_owned(),
            LocaleType::It => "it".to_owned(),
            LocaleType::PtBr => "pt-BR".to_owned(),
            LocaleType::Fr => "fr".to_owned(),
            LocaleType::De => "de".to_owned(),
            LocaleType::ZhCN => "zh-CN".to_owned(),
            LocaleType::Ko => "ko".to_owned(),
            LocaleType::EsES => "es-ES".to_owned(),
            LocaleType::Id => "id".to_owned(),
            LocaleType::Pl => "pl".to_owned(),
            LocaleType::Ia => "ia".to_owned(),
        }
    }

    /// Reads a language from its tag.
    pub fn from_str(s: &str) -> (parsed: Option<LocaleType>)
        ensures
            parsed == locale_of_name(s@),
    {
        if str_eq(s, "en") {
            Some(LocaleType::En)
        } else if str_eq(s, "ja") {
            Some(LocaleType::Ja)
        } else if str_eq(s, "it") {
            Some(LocaleType::It)
        } else if str_eq(s, "pt-BR") {
            Some(LocaleType::PtBr)
        } else if str_eq(s, "fr") {
            Some(LocaleType::Fr)
        } else if str_eq(s, "de") {
            Some(LocaleType::De)
        } else if str_eq(s, "zh-CN") {
            Some(LocaleType::ZhCN)
        } else if str_eq(s, "ko") {
            Some(LocaleType::Ko)
        } else if str_eq(s, "es-ES") {
            Some(LocaleType::EsES)
        } else if str_eq(s, "id") {
            Some(LocaleType::Id)
        } else if str_eq(s, "pl") {
            Some(LocaleType::Pl)
        } else if str_eq(s, "ia") {
            Some(LocaleType::Ia)
        } else {
            None
        }
    }
}

/// Every language is read back from its own tag.
pub proof fn lemma_locale_name_round_trip(locale: LocaleType)
    ensures
        locale_of_name(locale_name(locale)) == Some(locale),
{
    reveal_strlit("en");
    reveal_strlit("ja");
    reveal_strlit("it");
    reveal_strlit("pt-BR");
    reveal_strlit("fr");
    reveal_strlit("de");
    reveal_strlit("zh-CN");
    reveal_strlit("ko");
    reveal_strlit("es-ES");
    reveal_strlit("id");
    reveal_strlit("pl");
    reveal_strlit("ia");
    assert("en"@.len() == 2 && "en"@[0] == 'e' && "en"@[1] == 'n');
    assert("ja"@.len() == 2 && "ja"@[0] == 'j');
    assert("it"@.len() == 2 && "it"@[0] == 'i' && "it"@[1] == 't');
    assert("pt-BR"@.len() == 5 && "pt-BR"@[0] == 'p');
    assert("fr"@.len() == 2 && "fr"@[0] == 'f');
    assert("de"@.len() == 2 && "de"@[0] == 'd');
    assert("zh-CN"@.len() == 5 && "zh-CN"@[0] == 'z');
    assert("ko"@.len() == 2 && "ko"@[0] == 'k');
    assert("es-ES"@.len() == 5 && "es-ES"@[0] == 'e');
    assert("id"@.len() == 2 && "id"@[0] == 'i' && "id"@[1] == 'd');
    assert("pl"@.len() == 2 && "pl"@[0] == 'p');
    assert("ia"@.len() == 2 && "ia"@[0] == 'i' && "ia"@[1] == 'a');
}

/// The name under which a theme is stored.
pub open spec fn theme_name(theme: ThemeType) -> Seq<char> {
    match theme {
        ThemeType::Dark => "dark"@,
        ThemeType::Light => "light"@,
        ThemeType::HighContrast => "high-contrast"@,
    }
}

impl ThemeType {
    /// The name of this theme.
    pub fn to_string(&self) -> (name: String)
        ensures
            name@ == theme_name(*self),
    {
        match self {
            ThemeType::Dark => "dark".to_owned(),
            ThemeType::Light => "light".to_owned(),
            ThemeType::HighContrast => "high-contrast".to_owned(),
        }
    }
}

/// How the client looks.
#[derive(Debug)]
pub struct Appearance {
    pub font_size: u32,
    pub font_family: Option<String>,
    pub language: LocaleType,
    pub color_theme: ThemeType,
}

/// How the client behaves.
#[derive(Clone, Copy, Debug, PartialEq, Eq, Structural)]
pub struct Behavior {
    pub confirm_reblog: bool,
}

/// Whether the menu of the window is hidden.
#[derive(Clone, Copy, Debug, PartialEq, Eq, Structural)]
pub struct AppMenu {
    pub hidden: bool,
}

/// Everything the user has chosen.
#[derive(Debug)]
pub struct Settings {
    pub appearance: Appearance,
    pub behavior: Option<Behavior>,
    pub app_menu: Option<AppMenu>,
}

/// What the settings hold, with their strings as sequences of characters.
pub struct SettingsView {
    pub font_size: u32,
    pub font_family: Option<Seq<char>>,
    pub language: LocaleType,
    pub color_theme: ThemeType,
    pub behavior: Option<Behavior>,
    pub app_menu: Option<AppMenu>,
}

impl View for Settings {
    type V = SettingsView;

    open spec fn view(&self) -> SettingsView {
        SettingsView {
            font_size: self.appearance.font_size,
            font_family: opt_view(self.appearance.font_family),
            language: self.appearance.language,
            color_theme: self.appearance.color_theme,
            behavior: self.behavior,
            app_menu: self.app_menu,
        }
    }
}

/// The settings of a user who has chosen nothing yet.
pub open spec fn default_view() -> SettingsView {
    SettingsView {
        font_size: 14,
        font_family: None,
        language: LocaleType::En,
        color_theme: ThemeType::Dark,
        behavior: Some(Behavior { confirm_reblog: false }),
        app_menu: Some(AppMenu { hidden: false }),
    }
}

impl Default for Settings {
    /// The settings of a user who has chosen nothing yet.
    fn default() -> (settings: Settings)
        ensures
            settings@ == default_view(),
    {
        Settings {
            appearance: Appearance {
                font_size: 14,
                font_family: None,
                language: LocaleType::En,
                color_theme: ThemeType::Dark,
            },
            behavior: Some(Behavior { confirm_reblog: false }),
            app_menu: Some(AppMenu { hidden: false }),
        }
    }
}

impl Clone for Settings {
    fn clone(&self) -> (copy: Settings)
        ensures
            copy == *self,
    {
        Settings {
            appearance: Appearance {
                font_size: self.appearance.font_size,
                font_family: clone_opt(&self.appearance.font_family),
                language: self.appearance.language,
                color_theme: self.appearance.color_theme,
            },
            behavior: self.behavior,
            app_menu: self.app_menu,
        }
    }
}

/// The kinds of value that JSON knows.
#[derive(Clone, Copy, Debug, PartialEq, Eq, Structural)]
pub enum JsonKind {
    Null,
    Bool,
    Number,
    String,
    Array,
    Object,
}

/// The kind of the value that `serde_json` reads from a text; none where
/// the text is no JSON.
pub uninterp spec fn json_kind(text: Seq<char>) -> Option<JsonKind>;

/// The kind of `value[key]` for the value that `serde_json` reads from a
/// text, which is null where the value is no object or has no such member;
/// none where the text is no JSON.
pub uninterp spec fn json_member_kind(text: Seq<char>, key: Seq<char>) -> Option<JsonKind>;

/// The kind of `value[outer][inner]` for the value that `serde_json` reads
/// from a text; none where the text is no JSON.
pub uninterp spec fn json_inner_kind(text: Seq<char>, outer: Seq<char>, inner: Seq<char>) -> Option<
    JsonKind,
>;

/// What `serde_json` prints for the value that it reads from a text, after
/// `value[outer][inner]` was given a string.
pub uninterp spec fn json_with_string(
    text: Seq<char>,
    outer: Seq<char>,
    inner: Seq<char>,
    member: Seq<char>,
) -> Seq<char>;

/// Reads the text with `serde_json::from_str` and tells the variant of the
/// `serde_json::Value` that comes out. Nothing is claimed of the result but
/// that it is the one that `json_kind` names.
#[verifier::external_body]
fn kind_of(text: &str) -> (kind: Option<JsonKind>)
    ensures
        kind == json_kind(text@),
{
    match serde_json::from_str::<serde_json::Value>(text) {
        Ok(serde_json::Value::Null) => Some(JsonKind::Null),
        Ok(serde_json::Value::Bool(_)) => Some(JsonKind::Bool),
        Ok(serde_json::Value::Number(_)) => Some(JsonKind::Number),
        Ok(serde_json::Value::String(_)) => Some(JsonKind::String),
        Ok(serde_json::Value::Array(_)) => Some(JsonKind::Array),
        Ok(serde_json::Value::Object(_)) => Some(JsonKind::Object),
        Err(_) => None,
    }
}

/// Reads the text with `serde_json::from_str`, indexes the value with the
/// key, which `serde_json` answers with null where there is no such member,
/// and tells the variant of what it finds. Nothing is claimed of the result
/// but that it is the one that `json_member_kind` names, and that there is
/// none exactly where the text is no JSON, which is where `json_kind` has none.
#[verifier::external_body]
fn member_kind_of(text: &str, key: &str) -> (kind: Option<JsonKind>)
    ensures
        kind == json_member_kind(text@, key@),
        kind is None <==> json_kind(text@) is None,
{
    match serde_json::from_str::<serde_json::Value>(text).as_ref().map(|value| &value[key]) {
        Ok(serde_json::Value::Null) => Some(JsonKind::Null),
        Ok(serde_json::Value::Bool(_)) => Some(JsonKind::Bool),
        Ok(serde_json::Value::Number(_)) => Some(JsonKind::Number),
        Ok(serde_json::Value::String(_)) => Some(JsonKind::String),
        Ok(serde_json::Value::Array(_)) => Some(JsonKind::Array),
        Ok(serde_json::Value::Object(_)) => Some(JsonKind::Object),
        Err(_) => None,
    }
}

/// Reads the text with `serde_json::from_str`, indexes the value with the
/// two keys in turn and tells the variant of what it finds. Nothing is
/// claimed of the result but that it is the one that `json_inner_kind`
/// names, and that there is none exactly where the text is no JSON, which
/// is where `json_kind` has none.
#[verifier::external_body]
fn inner_kind_of(text: &str, outer: &str, inner: &str) -> (kind: Option<JsonKind>)
    ensures
        kind == json_inner_kind(text@, outer@, inner@),
        kind is None <==> json_kind(text@) is None,
{
    match serde_json::from_str::<serde_json::Value>(text).as_ref().map(|value| &value[outer][inner]) {
        Ok(serde_json::Value::Null) => Some(JsonKind::Null),
        Ok(serde_json::Value::Bool(_)) => Some(JsonKind::Bool),
        Ok(serde_json::Value::Number(_)) => Some(JsonKind::Number),
        Ok(serde_json::Value::String(_)) => Some(JsonKind::String),
        Ok(serde_json::Value::Array(_)) => Some(JsonKind::Array),
        Ok(serde_json::Value::Object(_)) => Some(JsonKind::Object),
        Err(_) => None,
    }
}

/// Reads the text with `serde_json::from_str`, assigns a string to
/// `value[outer][inner]` and prints the value. `serde_json` takes such an
/// assignment only where the value and `value[outer]` are each an object or
/// null, and a text that is no JSON has no value: both are asked of the
/// caller. Nothing is claimed of the result but that it is the one that
/// `json_with_string` names.
#[verifier::external_body]
fn with_string(text: &str, outer: &str, inner: &str, member: &str) -> (printed: String)
    requires
        json_kind(text@) == Some(JsonKind::Object) || json_kind(text@) == Some(JsonKind::Null),
        json_member_kind(text@, outer@) == Some(JsonKind::Object) || json_member_kind(
            text@,
            outer@,
        ) == Some(JsonKind::Null),
    ensures
        printed@ == json_with_string(text@, outer@, inner@, member@),
{
    let mut value = serde_json::from_str::<serde_json::Value>(text).unwrap_or_default();
    value[outer][inner] = serde_json::Value::String(member.to_string());
    value.to_string()
}

/// What was found when the stored settings were looked at.
#[derive(Debug)]
pub enum StoredSettings {
    /// The file could not be read.
    Unreadable,
    /// The file holds no JSON.
    NotJson,
    /// The file names a colour theme.
    WithTheme,
    /// The file names no colour theme; `patched` is its text with the dark
    /// theme put in.
    WithoutTheme { patched: String },
}

/// The text to read the settings from, and whether it has to be written back.
#[derive(Debug)]
pub struct SettingsText {
    pub text: String,
    pub write_back: bool,
}

/// The settings to go on with, given the text that was read and what a
/// second look at the stored file found: settings stored without a colour
/// theme get the dark theme and are written back, and all others are taken
/// as they were read. A file that cannot be read or holds no JSON is an error.
pub fn update_settings_with_default(as_read: String, stored: StoredSettings) -> (updated: Result<
    SettingsText,
    String,
>)
    ensures
        match stored {
            StoredSettings::Unreadable => updated is Err && updated->Err_0@
                == "Settings file does not exist"@,
            StoredSettings::NotJson => updated is Err && updated->Err_0@
                == "Failed to load json"@,
            StoredSettings::WithTheme => updated == Ok::<SettingsText, String>(
                SettingsText { text: as_read, write_back: false },
            ),
            StoredSettings::WithoutTheme { patched } => updated == Ok::<SettingsText, String>(
                SettingsText { text: patched, write_back: true },
            ),
        },
{
    match stored {
        StoredSettings::Unreadable => Err("Settings file does not exist".to_owned()),
        StoredSettings::NotJson => Err("Failed to load json".to_owned()),
        StoredSettings::WithTheme => Ok(SettingsText { text: as_read, write_back: false }),
        StoredSettings::WithoutTheme { patched } => Ok(
            SettingsText { text: patched, write_back: true },
        ),
    }
}

/// The settings after the menu of the window was toggled: the menu is
/// hidden from now on if it was visible, and shown if it was not. Nothing
/// else changes.
pub fn toggle_menu(settings: &Settings, menu_visible: bool) -> (toggled: Settings)
    ensures
        toggled.appearance == settings.appearance,
        toggled.behavior == settings.behavior,
        toggled.app_menu == Some(AppMenu { hidden: menu_visible }),
{
    let mut toggled = settings.clone();
    toggled.app_menu = Some(AppMenu { hidden: menu_visible });
    toggled
}

/// Whether the menu is to be hidden when a page has loaded.
pub fn menu_hidden(settings: &Settings) -> (hidden: bool)
    ensures
        hidden == (settings.app_menu == Some(AppMenu { hidden: true })),
{
    match settings.app_menu {
        Some(app_menu) => app_menu.hidden,
        None => false,
    }
}

/// What the kinds of three values say of stored settings.
#[derive(Clone, Copy, Debug, PartialEq, Eq, Structural)]
pub enum ThemeState {
    /// The text is no JSON.
    NotJson,
    /// A colour theme is named.
    Named,
    /// No colour theme is named, and one can be put in.
    Missing,
    /// No colour theme is named, and none can be put in: the settings are
    /// no object, or their `appearance` is none.
    Closed,
}

/// Whether a member can be put under a value of this kind: under an object,
/// and under null, which then becomes an object.
pub open spec fn takes_members(kind: Option<JsonKind>) -> bool {
    kind == Some(JsonKind::Object) || kind == Some(JsonKind::Null)
}

/// What the kinds say of stored settings: `theme` is the kind of the colour
/// theme, `whole` that of the settings and `appearance` that of their
/// appearance. A theme that is null is no theme.
pub open spec fn theme_state_of(
    theme: Option<JsonKind>,
    whole: Option<JsonKind>,
    appearance: Option<JsonKind>,
) -> ThemeState {
    match theme {
        None => ThemeState::NotJson,
        Some(JsonKind::Null) => if takes_members(whole) && takes_members(appearance) {
            ThemeState::Missing
        } else {
            ThemeState::Closed
        },
        Some(_) => ThemeState::Named,
    }
}

/// What the kinds say of stored settings.
pub fn theme_state(
    theme: Option<JsonKind>,
    whole: Option<JsonKind>,
    appearance: Option<JsonKind>,
) -> (state: ThemeState)
    ensures
        state == theme_state_of(theme, whole, appearance),
{
    match theme {
        None => ThemeState::NotJson,
        Some(JsonKind::Null) => {
            let whole_fits = match whole {
                Some(JsonKind::Object) | Some(JsonKind::Null) => true,
                _ => false,
            };
            let appearance_fits = match appearance {
                Some(JsonKind::Object) | Some(JsonKind::Null) => true,
                _ => false,
            };
            if whole_fits && appearance_fits {
                ThemeState::Missing
            } else {
                ThemeState::Closed
            }
        },
        Some(_) => ThemeState::Named,
    }
}

/// Whether `found` is what a look at the stored settings comes to.
pub open spec fn inspected(stored: Option<Seq<char>>, found: Option<StoredSettings>) -> bool {
    match stored {
        None => found == Some(StoredSettings::Unreadable),
        Some(text) => match theme_state_of(
            json_inner_kind(text, "appearance"@, "color_theme"@),
            json_kind(text),
            json_member_kind(text, "appearance"@),
        ) {
            ThemeState::NotJson => found == Some(StoredSettings::NotJson),
            ThemeState::Named => found == Some(StoredSettings::WithTheme),
            ThemeState::Missing => {
                &&& found is Some
                &&& found->Some_0 is WithoutTheme
                &&& found->Some_0->patched@ == json_with_string(
                    text,
                    "appearance"@,
                    "color_theme"@,
                    "dark"@,
                )
            },
            ThemeState::Closed => found is None,
        },
    }
}

/// Looks at the stored settings, of which `stored` is the text where the
/// file could be read. None where the text names no colour theme and
/// cannot take one: it is JSON, but not an object whose `appearance`, if it
/// has one, is an object.
pub fn inspect_settings(stored: Option<&str>) -> (found: Option<StoredSettings>)
    ensures
        inspected(
            match stored {
                Some(text) => Some(text@),
                None => None,
            },
            found,
        ),
{
    let text = match stored {
        Some(text) => text,
        None => {
            return Some(StoredSettings::Unreadable);
        },
    };
    let theme = inner_kind_of(text, "appearance", "color_theme");
    let whole = kind_of(text);
    let appearance = member_kind_of(text, "appearance");
    match theme_state(theme, whole, appearance) {
        ThemeState::NotJson => Some(StoredSettings::NotJson),
        ThemeState::Named => Some(StoredSettings::WithTheme),
        ThemeState::Missing => Some(
            StoredSettings::WithoutTheme {
                patched: with_string(text, "appearance", "color_theme", "dark"),
            },
        ),
        ThemeState::Closed => None,
    }
}

} // verus!
