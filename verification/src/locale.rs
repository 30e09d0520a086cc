//! Product UI language resolution.
//!
//! Three user choices exist (System, English, Simplified Chinese); there is
//! no general locale framework. The concrete language is derived from the
//! choice and the operating system locale, and the native menus take their
//! fixed labels from it.
use vstd::prelude::*;
use crate::text::{eq_ignore_case, owned, split_any, split_any_exec, str_eq, str_eq_ignore_case, trim, trim_exec, views};

verus! {

/// The user's persisted language preference.
#[derive(Clone, Copy, Debug, PartialEq, Eq, Structural)]
pub enum Language {
    /// Follow the operating system locale (the default).
    System,
    /// English regardless of the system locale.
    English,
    /// Simplified Chinese regardless of the system locale.
    SimplifiedChinese,
}

/// A concrete language the UI can be rendered in.
#[derive(Clone, Copy, Debug, PartialEq, Eq, Structural)]
pub enum ActiveLanguage {
    English,
    SimplifiedChinese,
}

impl Default for Language {
    fn default() -> (r: Self)
        ensures
            r == Language::System,
    {
        Language::System
    }
}

/// Some piece of `tags` equals `tag` without regard to ASCII case.
pub open spec fn has_subtag(tags: Seq<Seq<char>>, tag: Seq<char>) -> bool {
    exists|i: int| 0 <= i < tags.len() && #[trigger] eq_ignore_case(tags[i], tag)
}

/// A locale tag names a Simplified Chinese UI: after trimming and dropping a
/// POSIX encoding or modifier (`.UTF-8`, `@euro`), its primary subtag is `zh`
/// and its further subtags (split at `-` or `_`, compared without ASCII case)
/// include `hans`, or include `cn` or `sg` without `hant`. A `hant` subtag
/// always means Traditional Chinese, which falls back to English.
pub open spec fn simplified_chinese(locale: Seq<char>) -> bool {
    let t = trim(locale);
    let tag = split_any(t, ".@"@)[0];
    let parts = split_any(tag, "-_"@);
    let subtags = parts.skip(1);
    &&& t.len() > 0
    &&& eq_ignore_case(parts[0], "zh"@)
    &&& !has_subtag(subtags, "hant"@)
    &&& (has_subtag(subtags, "hans"@) || has_subtag(subtags, "cn"@) || has_subtag(subtags, "sg"@))
}

fn any_subtag(parts: &Vec<&str>, tag: &str) -> (r: bool)
    requires
        parts@.len() >= 1,
    ensures
        r == has_subtag(views(parts@).skip(1), tag@),
{
    let ghost subtags = views(parts@).skip(1);
    let mut i: usize = 1;
    while i < parts.len()
        invariant
            1 <= i <= parts@.len(),
            subtags == views(parts@).skip(1),
            forall|j: int| 0 <= j < i - 1 ==> !#[trigger] eq_ignore_case(subtags[j], tag@),
        decreases parts.len() - i,
    {
        assert(subtags[i - 1] == parts@[i as int]@);
        if str_eq_ignore_case(parts[i], tag) {
            assert(eq_ignore_case(subtags[i - 1], tag@));
            return true;
        }
        i = i + 1;
    }
    false
}

/// True when a BCP-47 or POSIX locale tag names a Simplified Chinese UI.
///
/// `zh-CN` and `zh-SG` are the Simplified Chinese regions; any `zh-Hans*`
/// script tag is Simplified by declaration and wins over a region
/// (`zh-Hans-TW`); Traditional Chinese (`zh-TW`, `zh-HK`, `zh-Hant`) falls
/// back to English because no Traditional catalog ships.
pub fn is_simplified_chinese_locale(locale: &str) -> (r: bool)
    ensures
        r == simplified_chinese(locale@),
{
    let trimmed = trim_exec(locale);
    if trimmed.unicode_len() == 0 {
        return false;
    }
    let pieces = split_any_exec(trimmed, ".@");
    proof {
        crate::text::lemma_split_any_nonempty(trimmed@, ".@"@);
    }
    let tag = pieces[0];
    assert(tag@ == split_any(trimmed@, ".@"@)[0]);
    let parts = split_any_exec(tag, "-_");
    proof {
        crate::text::lemma_split_any_nonempty(tag@, "-_"@);
        assert(parts@[0]@ == split_any(tag@, "-_"@)[0]);
        assert(views(parts@).skip(1) == split_any(tag@, "-_"@).skip(1));
    }
    if !str_eq_ignore_case(parts[0], "zh") {
        return false;
    }
    if any_subtag(&parts, "hant") {
        return false;
    }
    any_subtag(&parts, "hans") || any_subtag(&parts, "cn") || any_subtag(&parts, "sg")
}

/// The concrete language of a preference.
pub open spec fn resolve_spec(choice: Language, system_locale: Seq<char>) -> ActiveLanguage {
    match choice {
        Language::English => ActiveLanguage::English,
        Language::SimplifiedChinese => ActiveLanguage::SimplifiedChinese,
        Language::System => if simplified_chinese(system_locale) {
            ActiveLanguage::SimplifiedChinese
        } else {
            ActiveLanguage::English
        },
    }
}

/// The persisted tag of each preference.
pub open spec fn language_tag(l: Language) -> Seq<char> {
    match l {
        Language::System => "system"@,
        Language::English => "en"@,
        Language::SimplifiedChinese => "zh-Hans"@,
    }
}

/// The preference a persisted tag names, if any.
pub open spec fn language_from_tag(tag: Seq<char>) -> Option<Language> {
    if tag == "system"@ {
        Some(Language::System)
    } else if tag == "en"@ {
        Some(Language::English)
    } else if tag == "zh-Hans"@ {
        Some(Language::SimplifiedChinese)
    } else {
        None
    }
}

impl Language {
    /// Resolves the concrete UI language: an explicit choice wins; `System`
    /// follows the Simplified Chinese rule on the system locale.
    pub fn resolve(self, system_locale: &str) -> (r: ActiveLanguage)
        ensures
            r == resolve_spec(self, system_locale@),
    {
        match self {
            Language::English => ActiveLanguage::English,
            Language::SimplifiedChinese => ActiveLanguage::SimplifiedChinese,
            Language::System => if is_simplified_chinese_locale(system_locale) {
                ActiveLanguage::SimplifiedChinese
            } else {
                ActiveLanguage::English
            },
        }
    }

    /// The tag the settings document persists (`system`, `en`, `zh-Hans`).
    pub fn tag(self) -> (r: &'static str)
        ensures
            r@ == language_tag(self),
    {
        match self {
            Language::System => "system",
            Language::English => "en",
            Language::SimplifiedChinese => "zh-Hans",
        }
    }

    /// Reads a persisted tag; any other spelling is rejected.
    pub fn from_tag(tag: &str) -> (r: Option<Language>)
        ensures
            r == language_from_tag(tag@),
    {
        if str_eq(tag, "system") {
            Some(Language::System)
        } else if str_eq(tag, "en") {
            Some(Language::English)
        } else if str_eq(tag, "zh-Hans") {
            Some(Language::SimplifiedChinese)
        } else {
            None
        }
    }
}

/// Persisted tags read back as the language they were written from.
pub proof fn language_tag_round_trips(l: Language)
    ensures
        language_from_tag(language_tag(l)) == Some(l),
{
    reveal_strlit("system");
    reveal_strlit("en");
    reveal_strlit("zh-Hans");
    assert("system"@.len() != "en"@.len());
    assert("system"@.len() != "zh-Hans"@.len());
    assert("en"@.len() != "zh-Hans"@.len());
}

/// Native menu labels (the one surface not built from the frontend catalog).
#[derive(Debug, Clone, Copy)]
pub struct NativeLabels {
    pub window_mode: &'static str,
    pub sidebar: &'static str,
    pub floating: &'static str,
    pub desktop_experimental: &'static str,
    pub side: &'static str,
    pub left: &'static str,
    pub right: &'static str,
    pub lock_position: &'static str,
    pub always_on_top: &'static str,
    pub expand_floating: &'static str,
    pub collapse_floating: &'static str,
    pub settings: &'static str,
    pub quit: &'static str,
}

impl ActiveLanguage {
    /// Fixed labels for the native menus in this language.
    pub fn labels(self) -> (r: NativeLabels)
        ensures
            self == ActiveLanguage::English ==> {
                &&& r.window_mode@ == "Window mode"@
                &&& r.sidebar@ == "Sidebar"@
                &&& r.floating@ == "Floating"@
                &&& r.desktop_experimental@ == "Desktop — Experimental"@
                &&& r.side@ == "Side"@
                &&& r.left@ == "Left"@
                &&& r.right@ == "Right"@
                &&& r.lock_position@ == "Lock position"@
                &&& r.always_on_top@ == "Always on top"@
                &&& r.expand_floating@ == "Expand Floating"@
                &&& r.collapse_floating@ == "Collapse to Orb"@
                &&& r.settings@ == "Settings"@
                &&& r.quit@ == "Quit"@
            },
            self == ActiveLanguage::SimplifiedChinese ==> {
                &&& r.window_mode@ == "窗口模式"@
                &&& r.sidebar@ == "侧边栏"@
                &&& r.floating@ == "悬浮"@
                &&& r.desktop_experimental@ == "桌面 — 实验性"@
                &&& r.side@ == "停靠方向"@
                &&& r.left@ == "左侧"@
                &&& r.right@ == "右侧"@
                &&& r.lock_position@ == "锁定位置"@
                &&& r.always_on_top@ == "始终置顶"@
                &&& r.expand_floating@ == "展开悬浮窗"@
                &&& r.collapse_floating@ == "折叠为悬浮球"@
                &&& r.settings@ == "设置"@
                &&& r.quit@ == "退出"@
            },
    {
        match self {
            ActiveLanguage::English => NativeLabels {
                window_mode: "Window mode",
                sidebar: "Sidebar",
                floating: "Floating",
                desktop_experimental: "Desktop — Experimental",
                side: "Side",
                left: "Left",
                right: "Right",
                lock_position: "Lock position",
                always_on_top: "Always on top",
                expand_floating: "Expand Floating",
                collapse_floating: "Collapse to Orb",
                settings: "Settings",
                quit: "Quit",
            },
            ActiveLanguage::SimplifiedChinese => NativeLabels {
                window_mode: "窗口模式",
                sidebar: "侧边栏",
                floating: "悬浮",
                desktop_experimental: "桌面 — 实验性",
                side: "停靠方向",
                left: "左侧",
                right: "右侧",
                lock_position: "锁定位置",
                always_on_top: "始终置顶",
                expand_floating: "展开悬浮窗",
                collapse_floating: "折叠为悬浮球",
                settings: "设置",
                quit: "退出",
            },
        }
    }
}

/// A POSIX locale variable's value is usable when, trimmed, it is neither
/// empty nor `C` nor `POSIX` and keeps a non-empty tag before any `.` or `@`.
pub open spec fn posix_tag(value: Seq<char>) -> Option<Seq<char>> {
    let t = trim(value);
    let tag = split_any(t, ".@"@)[0];
    if t.len() == 0 || t == "C"@ || t == "POSIX"@ || tag.len() == 0 {
        None
    } else {
        Some(tag)
    }
}

/// The first usable tag among the candidates, in order.
pub open spec fn first_posix_tag(values: Seq<Option<Seq<char>>>) -> Option<Seq<char>>
    decreases values.len(),
{
    if values.len() == 0 {
        None
    } else if values[0] matches Some(v) && posix_tag(v) is Some {
        posix_tag(values[0]->0)
    } else {
        first_posix_tag(values.drop_first())
    }
}

/// Picks the locale from the values of `LC_ALL`, `LC_MESSAGES` and `LANG`
/// (in that precedence order; `None` for an unset variable): the first
/// usable one, reduced to its tag (`en_US.UTF-8@euro` gives `en_US`).
pub fn posix_locale(values: &Vec<Option<String>>) -> (r: Option<String>)
    ensures
        match r {
            Some(s) => first_posix_tag(values@.map_values(|o: Option<String>| match o {
                Some(s) => Some(s@),
                None => None,
            })) == Some(s@),
            None => first_posix_tag(values@.map_values(|o: Option<String>| match o {
                Some(s) => Some(s@),
                None => None,
            })) is None,
        },
{
    let ghost vals = values@.map_values(|o: Option<String>| match o {
        Some(s) => Some(s@),
        None => None,
    });
    let mut i: usize = 0;
    assert(vals.skip(0) =~= vals);
    while i < values.len()
        invariant
            i <= values@.len(),
            vals == values@.map_values(|o: Option<String>| match o {
                Some(s) => Some(s@),
                None => None,
            }),
            first_posix_tag(vals) == first_posix_tag(vals.skip(i as int)),
        decreases values.len() - i,
    {
        assert(vals.skip(i as int).drop_first() =~= vals.skip(i + 1));
        assert(vals.skip(i as int)[0] == vals[i as int]);
        if let Some(v) = &values[i] {
            let t = trim_exec(v.as_str());
            proof {
                reveal_strlit("C");
                reveal_strlit("POSIX");
            }
            if t.unicode_len() > 0 && !str_eq(t, "C") && !str_eq(t, "POSIX") {
                let pieces = split_any_exec(t, ".@");
                proof {
                    crate::text::lemma_split_any_nonempty(t@, ".@"@);
                }
                let tag = pieces[0];
                assert(tag@ == split_any(t@, ".@"@)[0]);
                if tag.unicode_len() > 0 {
                    return Some(owned(tag));
                }
            }
        }
        i = i + 1;
    }
    None
}

/// What `String::from_utf16_lossy` yields for these code units (invalid
/// surrogates become U+FFFD).
pub uninterp spec fn utf16_lossy(units: Seq<u16>) -> Seq<char>;

/// Calls `String::from_utf16_lossy`; the contract claims only that the text
/// is a function of the code units.
#[verifier::external_body]
fn from_utf16_lossy(units: &[u16]) -> (r: String)
    ensures
        r@ == utf16_lossy(units@),
{
    String::from_utf16_lossy(units)
}

/// The code units before the first NUL (all of them when there is none).
pub open spec fn before_nul(units: Seq<u16>) -> Seq<u16>
    decreases units.len(),
{
    if units.len() == 0 || units[0] == 0 {
        Seq::empty()
    } else {
        seq![units[0]] + before_nul(units.drop_first())
    }
}

proof fn lemma_before_nul(units: Seq<u16>, i: int)
    requires
        0 <= i <= units.len(),
        forall|j: int| 0 <= j < i ==> units[j] != 0,
        i == units.len() || units[i] == 0,
    ensures
        before_nul(units) == units.take(i),
    decreases i,
{
    if i > 0 {
        lemma_before_nul(units.drop_first(), i - 1);
        assert(units.take(i) =~= seq![units[0]] + units.drop_first().take(i - 1));
    } else {
        assert(units.take(0) =~= Seq::<u16>::empty());
    }
}

/// The text a registry string value holds: its code units up to the first
/// NUL (a `REG_MULTI_SZ` list thus yields its first entry), decoded and
/// trimmed; nothing when that is blank.
pub open spec fn registry_text_spec(units: Seq<u16>) -> Option<Seq<char>> {
    let text = trim(utf16_lossy(before_nul(units)));
    if text.len() == 0 { None } else { Some(text) }
}

/// Reads the locale text out of a registry value buffer.
pub fn registry_text(buffer: &Vec<u16>) -> (r: Option<String>)
    ensures
        match r {
            Some(s) => registry_text_spec(buffer@) == Some(s@),
            None => registry_text_spec(buffer@) is None,
        },
{
    let mut prefix: Vec<u16> = Vec::new();
    let mut i: usize = 0;
    while i < buffer.len() && buffer[i] != 0
        invariant
            i <= buffer@.len(),
            prefix@ == buffer@.take(i as int),
            forall|j: int| 0 <= j < i ==> buffer@[j] != 0,
        decreases buffer.len() - i,
    {
        prefix.push(buffer[i]);
        assert(buffer@.take(i + 1) =~= buffer@.take(i as int).push(buffer@[i as int]));
        i = i + 1;
    }
    proof {
        lemma_before_nul(buffer@, i as int);
    }
    let decoded = from_utf16_lossy(prefix.as_slice());
    let text = trim_exec(decoded.as_str());
    if text.unicode_len() == 0 {
        None
    } else {
        Some(owned(text))
    }
}

/// The system locale on Windows: the user's `LocaleName`, else the first
/// preferred UI language, else the POSIX variables' tag.
pub fn platform_locale(locale_name: Option<String>, preferred_ui: Option<String>, posix: Option<String>) -> (r: Option<String>)
    ensures
        r == match locale_name {
            Some(l) => Some(l),
            None => match preferred_ui {
                Some(p) => Some(p),
                None => posix,
            },
        },
{
    match locale_name {
        Some(l) => Some(l),
        None => match preferred_ui {
            Some(p) => Some(p),
            None => posix,
        },
    }
}

} // verus!
