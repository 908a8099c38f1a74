use vstd::prelude::*;

use crate::text::{is_joined_path, is_verbatim_path, join_path};

verus! {

/// The launcher's persisted configuration.
#[derive(Debug, Clone, PartialEq, Eq)]
pub struct Settings {
    /// The first key of the open shortcut.
    pub first_key: String,
    /// The second key of the open shortcut.
    pub second_key: Option<String>,
    /// The third key of the open shortcut.
    pub third_key: String,
    /// Start the companion at login.
    pub auto_start: bool,
    /// Show the most recently opened apps when the launcher opens.
    pub show_recent_apps: bool,
    pub show_search_icon: bool,
    pub show_settings_icon: bool,
    pub show_placeholder: bool,
    /// Close the search window when a click lands outside it.
    pub hide_on_blur: bool,
    pub border_radius: usize,
    pub border_width: usize,
    pub accent_border: bool,
    pub show_launch_hint: bool,
    pub launch_key: String,
    pub blacklist: Vec<String>,
    pub search_keyword: String,
    pub search_engines: Vec<SearchEngine>,
    pub default_search_engine: usize,
    pub theme: Theme,
    /// One row per `(extension_id, setting_id)` pair.
    pub extensions: Vec<ExtensionSetting>,
    pub wallpaper: Option<String>,
    pub show_apps_as_grid: bool,
}

#[derive(Debug, Clone, PartialEq, Eq)]
pub struct SearchEngine {
    pub id: usize,
    pub icon_path: Option<String>,
    pub tint_icon: bool,
    pub keyword: String,
    pub name: String,
    /// The query URL, with `%s` where the search text goes.
    pub search_query: String,
}

#[derive(Debug, Clone, PartialEq, Eq)]
pub struct Theme {
    pub background: String,
    pub secondary: String,
    pub tertiary: String,
    pub accent: String,
    pub warning: String,
    pub danger: String,
    pub on_accent: String,
    pub on_danger: String,
    pub text: String,
    pub sub_text: String,
}

/// A stored value of one extension setting.
#[derive(Debug, Clone, PartialEq, Eq)]
pub struct ExtensionSetting {
    pub extension_id: String,
    pub setting_id: String,
    pub setting_value: String,
}

/// The mathematical content of an [`ExtensionSetting`].
pub struct SettingRow {
    pub extension_id: Seq<char>,
    pub setting_id: Seq<char>,
    pub setting_value: Seq<char>,
}

impl View for ExtensionSetting {
    type V = SettingRow;

    open spec fn view(&self) -> SettingRow {
        SettingRow {
            extension_id: self.extension_id@,
            setting_id: self.setting_id@,
            setting_value: self.setting_value@,
        }
    }
}

/// The rows of a settings table, as mathematical values.
pub open spec fn rows_of(v: Seq<ExtensionSetting>) -> Seq<SettingRow> {
    v.map_values(|e: ExtensionSetting| e@)
}

impl Settings {
    /// The extension rows of these settings, as mathematical values.
    pub open spec fn rows(&self) -> Seq<SettingRow> {
        rows_of(self.extensions@)
    }
}

/// `t` is the default theme.
pub open spec fn is_default_theme(t: Theme) -> bool {
    &&& t.background@ == "#0E0600"@
    &&& t.secondary@ == "#140800"@
    &&& t.tertiary@ == "#1B0B00"@
    &&& t.accent@ == "#FFE072"@
    &&& t.warning@ == "#FFB26C"@
    &&& t.danger@ == "#FF8C7C"@
    &&& t.on_accent@ == "#000000"@
    &&& t.on_danger@ == "#000000"@
    &&& t.text@ == "#FFEEE2"@
    &&& t.sub_text@ == "#E5D2C5"@
}

/// `e` is the engine with the given id, keyword, name and query URL.
pub open spec fn engine_is(
    e: SearchEngine,
    id: usize,
    tint_icon: bool,
    keyword: Seq<char>,
    name: Seq<char>,
    search_query: Seq<char>,
) -> bool {
    e.id == id && e.tint_icon == tint_icon && e.keyword@ == keyword && e.name@ == name
        && e.search_query@ == search_query
}

/// The engine has an icon, which is the file of the given name in `icons_dir`
/// unless that directory has a verbatim prefix.
pub open spec fn icon_named(e: SearchEngine, icons_dir: Seq<char>, file: Seq<char>) -> bool {
    e.icon_path is Some && (!is_verbatim_path(icons_dir) ==> is_joined_path(
        e.icon_path->0@,
        icons_dir,
        file,
    ))
}

/// `v` is the default list of search engines: Google, DuckDuckGo, Brave and
/// Startpage, in that order, the first three with their icon in `icons_dir`.
pub open spec fn are_default_engines(v: Seq<SearchEngine>, icons_dir: Seq<char>) -> bool {
    &&& v.len() == 4
    &&& engine_is(v[0], 0, true, "gs"@, "Google"@, "https://www.google.com/search?q=%s"@)
    &&& icon_named(v[0], icons_dir, "google.svg"@)
    &&& engine_is(v[1], 1, true, "ds"@, "DuckDuckGo"@, "https://duckduckgo.com/?q=%s"@)
    &&& icon_named(v[1], icons_dir, "duckduckgo.svg"@)
    &&& engine_is(v[2], 2, true, "bs"@, "Brave"@, "https://search.brave.com/search?q=%s"@)
    &&& icon_named(v[2], icons_dir, "brave.svg"@)
    &&& engine_is(v[3], 3, false, "ss"@, "Startpage"@, "https://www.startpage.com/do/dsearch?q=%s"@)
    &&& v[3].icon_path is None
}

/// `s` holds the default value of every setting, with the search engine icons
/// in `icons_dir`.
pub open spec fn is_default_settings(s: Settings, icons_dir: Seq<char>) -> bool {
    &&& s.first_key@ == "ctrl"@
    &&& s.second_key is None
    &&& s.third_key@ == "space"@
    &&& s.auto_start
    &&& s.show_recent_apps
    &&& s.show_search_icon
    &&& s.show_settings_icon
    &&& s.show_placeholder
    &&& s.hide_on_blur
    &&& s.border_radius == 32
    &&& s.border_width == 2
    &&& s.accent_border
    &&& s.show_launch_hint
    &&& s.launch_key@ == "Alt"@
    &&& s.blacklist@.len() == 0
    &&& s.search_keyword@ == "s"@
    &&& are_default_engines(s.search_engines@, icons_dir)
    &&& s.default_search_engine == 0
    &&& is_default_theme(s.theme)
    &&& s.extensions@.len() == 0
    &&& s.wallpaper is None
    &&& !s.show_apps_as_grid
}

fn default_first_key() -> (r: String)
    ensures
        r@ == "ctrl"@,
{
    String::from_str("ctrl")
}

fn default_second_key() -> (r: Option<String>)
    ensures
        r is None,
{
    None
}

fn default_third_key() -> (r: String)
    ensures
        r@ == "space"@,
{
    String::from_str("space")
}

fn default_auto_start() -> (r: bool)
    ensures
        r,
{
    true
}

fn default_show_recent_apps() -> (r: bool)
    ensures
        r,
{
    true
}

fn default_show_search_icon() -> (r: bool)
    ensures
        r,
{
    true
}

fn default_show_settings_icon() -> (r: bool)
    ensures
        r,
{
    true
}

fn default_show_placeholder() -> (r: bool)
    ensures
        r,
{
    true
}

fn default_border_radius() -> (r: usize)
    ensures
        r == 32,
{
    32
}

fn default_border_width() -> (r: usize)
    ensures
        r == 2,
{
    2
}

fn default_accent_border() -> (r: bool)
    ensures
        r,
{
    true
}

fn default_launch_key() -> (r: String)
    ensures
        r@ == "Alt"@,
{
    String::from_str("Alt")
}

fn default_hide_on_blur() -> (r: bool)
    ensures
        r,
{
    true
}

fn default_show_launch_hint() -> (r: bool)
    ensures
        r,
{
    true
}

fn default_blacklist() -> (r: Vec<String>)
    ensures
        r@.len() == 0,
{
    Vec::new()
}

fn default_search_keyword() -> (r: String)
    ensures
        r@ == "s"@,
{
    String::from_str("s")
}

fn default_theme() -> (t: Theme)
    ensures
        is_default_theme(t),
{
    Theme {
        background: String::from_str("#0E0600"),
        secondary: String::from_str("#140800"),
        tertiary: String::from_str("#1B0B00"),
        accent: String::from_str("#FFE072"),
        warning: String::from_str("#FFB26C"),
        danger: String::from_str("#FF8C7C"),
        on_accent: String::from_str("#000000"),
        on_danger: String::from_str("#000000"),
        text: String::from_str("#FFEEE2"),
        sub_text: String::from_str("#E5D2C5"),
    }
}

/// The built-in search engines; the icons of the first three are files of
/// `icons_dir`.
fn default_search_engines(icons_dir: &str) -> (v: Vec<SearchEngine>)
    ensures
        are_default_engines(v@, icons_dir@),
{
    proof {
        reveal_strlit("google.svg");
        reveal_strlit("duckduckgo.svg");
        reveal_strlit("brave.svg");
    }
    let google_icon = join_path(icons_dir, "google.svg");
    let duckduckgo_icon = join_path(icons_dir, "duckduckgo.svg");
    let brave_icon = join_path(icons_dir, "brave.svg");
    let mut v: Vec<SearchEngine> = Vec::new();
    v.push(
        SearchEngine {
            id: 0,
            icon_path: Some(google_icon),
            tint_icon: true,
            keyword: String::from_str("gs"),
            name: String::from_str("Google"),
            search_query: String::from_str("https://www.google.com/search?q=%s"),
        },
    );
    v.push(
        SearchEngine {
            id: 1,
            icon_path: Some(duckduckgo_icon),
            tint_icon: true,
            keyword: String::from_str("ds"),
            name: String::from_str("DuckDuckGo"),
            search_query: String::from_str("https://duckduckgo.com/?q=%s"),
        },
    );
    v.push(
        SearchEngine {
            id: 2,
            icon_path: Some(brave_icon),
            tint_icon: true,
            keyword: String::from_str("bs"),
            name: String::from_str("Brave"),
            search_query: String::from_str("https://search.brave.com/search?q=%s"),
        },
    );
    v.push(
        SearchEngine {
            id: 3,
            icon_path: None,
            tint_icon: false,
            keyword: String::from_str("ss"),
            name: String::from_str("Startpage"),
            search_query: String::from_str("https://www.startpage.com/do/dsearch?q=%s"),
        },
    );
    v
}

fn default_default_search_engine() -> (r: usize)
    ensures
        r == 0,
{
    0
}

fn default_extensions() -> (r: Vec<ExtensionSetting>)
    ensures
        r@.len() == 0,
{
    Vec::new()
}

fn default_wallpaper() -> (r: Option<String>)
    ensures
        r is None,
{
    None
}

fn default_show_apps_as_grid() -> (r: bool)
    ensures
        !r,
{
    false
}

/// The settings of a fresh installation; the icons of the built-in search engines
/// are files of `icons_dir`.
pub fn get_default_settings(icons_dir: &str) -> (s: Settings)
    ensures
        is_default_settings(s, icons_dir@),
{
    Settings {
        first_key: default_first_key(),
        second_key: default_second_key(),
        third_key: default_third_key(),
        auto_start: default_auto_start(),
        show_recent_apps: default_show_recent_apps(),
        show_search_icon: default_show_search_icon(),
        show_settings_icon: default_show_settings_icon(),
        show_placeholder: default_show_placeholder(),
        hide_on_blur: default_hide_on_blur(),
        border_radius: default_border_radius(),
        border_width: default_border_width(),
        accent_border: default_accent_border(),
        launch_key: default_launch_key(),
        show_launch_hint: default_show_launch_hint(),
        blacklist: default_blacklist(),
        search_keyword: default_search_keyword(),
        search_engines: default_search_engines(icons_dir),
        default_search_engine: default_default_search_engine(),
        theme: default_theme(),
        extensions: default_extensions(),
        wallpaper: default_wallpaper(),
        show_apps_as_grid: default_show_apps_as_grid(),
    }
}

/// The settings that a read of the settings file yields: the decoded value, or
/// the defaults when the file did not decode.
pub fn settings_or_default(decoded: Option<Settings>, icons_dir: &str) -> (s: Settings)
    ensures
        match decoded {
            Some(d) => s == d,
            None => is_default_settings(s, icons_dir@),
        },
{
    match decoded {
        Some(d) => d,
        None => get_default_settings(icons_dir),
    }
}

/// What a change of settings asks of the autostart entry: `Some(enable)` when the
/// `auto_start` flag changes, `None` when it stays.
pub fn autostart_change(current: &Settings, next: &Settings) -> (r: Option<bool>)
    ensures
        r == (if current.auto_start != next.auto_start {
            Some(next.auto_start)
        } else {
            None
        }),
{
    if current.auto_start != next.auto_start {
        Some(next.auto_start)
    } else {
        None
    }
}

/// The desktop entry that starts the companion at login on Linux.
pub fn autostart_desktop_entry() -> (r: String)
    ensures
        r@ == AUTOSTART_DESKTOP_ENTRY@,
{
    String::from_str(AUTOSTART_DESKTOP_ENTRY)
}

pub const AUTOSTART_DESKTOP_ENTRY: &'static str = "[Desktop Entry]
Type=Application
Name=Whiskers Launcher Companion
Comment=Whiskers Launcher companion app
Terminal=false
StartupNotify=false
Icon=/usr/share/pixmaps/whiskers-launcher.png
Exec=whiskers-launcher-companion index-apps";

} // verus!
