use vstd::prelude::*;
use vstd::string::{StrSliceExecFns, StringExecFns};
use crate::scan::{find_char, lemma_first_from_some, spec_first};

verus! {

// ---------------------------------------------------------------------------
// The configuration snapshot of one screen driver: general settings, color
// palette and click-action commands. Loaded once at startup; immutable
// afterwards.
// ---------------------------------------------------------------------------

/// General settings and the padding of each fragment.
#[derive(Debug)]
pub struct Config {
    pub height: i64,
    pub power_icon: String,
    pub font: String,
    pub icon_font: String,
    pub workspace_icons: String,
    pub gen_pad: String,
    pub pow_pad: String,
    pub ws_pad: String,
    pub dat_pad: String,
    pub vol_pad: String,
    pub not_pad: String,
}

/// The command templates bound to clickable fragments.
#[derive(Debug)]
pub struct Executables {
    pub pow: String,
    pub vol: String,
    pub ws: String,
    pub not: String,
}

/// The color palette, as opaque markup color tokens.
#[derive(Debug)]
pub struct Colors {
    pub bg_col: String,
    pub bg_sec: String,
    pub fg_col: String,
    pub fg_sec: String,
    pub hl_col: String,
}

/// One required configuration key.
#[derive(Clone, Copy, Debug, PartialEq, Eq, Structural)]
pub enum ConfigKey {
    Height,
    PowerIcon,
    Font,
    IconFont,
    WorkspaceIcons,
    GeneralPad,
    PowerPad,
    WorkspacePad,
    ClockPad,
    VolumePad,
    BackgroundColor,
    BackgroundSecondary,
    ForegroundColor,
    ForegroundSecondary,
    HighlightColor,
    ExecPower,
    ExecVolume,
    ExecSwitchWorkspace,
}

/// The one fatal error of startup: the configuration could not be read,
/// parsed, or is missing a required key.
#[derive(Clone, Copy, Debug, PartialEq, Eq, Structural)]
pub enum ConfigError {
    Unreadable,
    Malformed,
    MissingKey(ConfigKey),
}

// ---------------------------------------------------------------------------
// Trusted boundary to the TOML parser. A parse and a lookup are functions of
// their arguments alone, so each outside call's result bears a name, and the
// loader contracts below speak of those names exactly.
// ---------------------------------------------------------------------------

#[verifier::external_type_specification]
#[verifier::external_body]
pub struct ExTomlValue(toml::Value);

#[verifier::external_type_specification]
#[verifier::external_body]
pub struct ExTomlDeError(toml::de::Error);

/// The document that TOML text parses to, `None` when the text is not a
/// valid document.
pub uninterp spec fn spec_toml_doc(text: Seq<char>) -> Option<toml::Value>;

/// The child a table value holds at a key, `None` when the value is no
/// table or the key is absent.
pub uninterp spec fn doc_child(v: toml::Value, key: Seq<char>) -> Option<toml::Value>;

/// The string content of a value, `None` when the value is no string.
pub uninterp spec fn doc_str(v: toml::Value) -> Option<Seq<char>>;

/// The integer content of a value, `None` when the value is no integer.
pub uninterp spec fn doc_integer(v: toml::Value) -> Option<i64>;

/// Relies on `str::parse::<toml::Value>` (toml's `FromStr` impl): parses a
/// TOML document from text, a function of the text alone.
#[verifier::external_body]
fn parse_toml_text(text: &str) -> (r: Result<toml::Value, toml::de::Error>)
    ensures
        match r {
            Ok(v) => spec_toml_doc(text@) == Some(v),
            Err(_) => spec_toml_doc(text@) is None,
        },
{
    text.parse::<toml::Value>()
}

/// Relies on `toml::Value::get` with a string index: looks a key up in a
/// table, `None` if the value is no table or the key is absent.
#[verifier::external_body]
fn toml_get<'a>(v: &'a toml::Value, key: &str) -> (r: Option<&'a toml::Value>)
    ensures
        match r {
            Some(c) => doc_child(*v, key@) == Some(*c),
            None => doc_child(*v, key@) is None,
        },
{
    v.get(key)
}

/// Relies on `toml::Value::as_str`: the string content, if the value is a
/// string.
#[verifier::external_body]
fn toml_as_str<'a>(v: &'a toml::Value) -> (r: Option<&'a str>)
    ensures
        match r {
            Some(s) => doc_str(*v) == Some(s@),
            None => doc_str(*v) is None,
        },
{
    v.as_str()
}

/// Relies on `toml::Value::as_integer`: the integer content, if the value is
/// an integer.
#[verifier::external_body]
fn toml_as_integer(v: &toml::Value) -> (r: Option<i64>)
    ensures
        match r {
            Some(n) => doc_integer(*v) == Some(n),
            None => doc_integer(*v) is None,
        },
{
    v.as_integer()
}

/// Parses configuration text into a TOML document; exactly the texts that
/// parse yield `Ok`, and a parse failure is the fatal `Malformed` error.
pub fn parse_config(text: &str) -> (r: Result<toml::Value, ConfigError>)
    ensures
        match r {
            Ok(v) => spec_toml_doc(text@) == Some(v),
            Err(e) => e == ConfigError::Malformed && spec_toml_doc(text@) is None,
        },
{
    match parse_toml_text(text) {
        Ok(v) => Ok(v),
        Err(_) => Err(ConfigError::Malformed),
    }
}

/// The value a document holds at a dotted key path: each segment before a
/// `.` selects a child table, and the last segment selects the value.
pub open spec fn spec_lookup(doc: toml::Value, path: Seq<char>) -> Option<toml::Value>
    decreases path.len(),
    via spec_lookup_decreases
{
    match spec_first(path, '.') {
        None => doc_child(doc, path),
        Some(p) => match doc_child(doc, path.take(p)) {
            None => None,
            Some(child) => spec_lookup(child, path.subrange(p + 1, path.len() as int)),
        },
    }
}

#[via_fn]
proof fn spec_lookup_decreases(doc: toml::Value, path: Seq<char>) {
    match spec_first(path, '.') {
        None => {},
        Some(p) => {
            lemma_first_from_some(path, '.', 0, p);
        },
    }
}

/// The string content at a dotted key path, if the path holds a string.
pub open spec fn spec_lookup_str(doc: toml::Value, path: Seq<char>) -> Option<Seq<char>> {
    match spec_lookup(doc, path) {
        None => None,
        Some(v) => doc_str(v),
    }
}

/// The integer content at a dotted key path, if the path holds an integer.
pub open spec fn spec_lookup_integer(doc: toml::Value, path: Seq<char>) -> Option<i64> {
    match spec_lookup(doc, path) {
        None => None,
        Some(v) => doc_integer(v),
    }
}

/// Looks a dotted path such as `general.height` up in a TOML document,
/// walking one table per path segment; `None` exactly when some segment is
/// absent.
pub fn get_value<'a>(doc: &'a toml::Value, path: &str) -> (r: Option<&'a toml::Value>)
    ensures
        match r {
            Some(v) => spec_lookup(*doc, path@) == Some(*v),
            None => spec_lookup(*doc, path@) is None,
        },
{
    let mut cur: &'a toml::Value = doc;
    let mut rest: &str = path;
    loop
        invariant
            spec_lookup(*doc, path@) == spec_lookup(*cur, rest@),
        decreases rest@.len(),
    {
        match find_char(rest, '.') {
            Some(i) => {
                proof {
                    lemma_first_from_some(rest@, '.', 0, i as int);
                }
                let n = rest.unicode_len();
                let seg = rest.substring_char(0, i);
                let tail = rest.substring_char(i + 1, n);
                proof {
                    assert(seg@ =~= rest@.take(i as int));
                }
                match toml_get(cur, seg) {
                    Some(v) => {
                        cur = v;
                        rest = tail;
                    },
                    None => {
                        return None;
                    },
                }
            },
            None => {
                return toml_get(cur, rest);
            },
        }
    }
}

fn get_str_value(doc: &toml::Value, path: &str) -> (r: Option<String>)
    ensures
        match r {
            Some(s) => spec_lookup_str(*doc, path@) == Some(s@),
            None => spec_lookup_str(*doc, path@) is None,
        },
{
    match get_value(doc, path) {
        Some(v) => match toml_as_str(v) {
            Some(s) => Some(s.to_owned()),
            None => None,
        },
        None => None,
    }
}

fn get_integer_value(doc: &toml::Value, path: &str) -> (r: Option<i64>)
    ensures
        match r {
            Some(n) => spec_lookup_integer(*doc, path@) == Some(n),
            None => spec_lookup_integer(*doc, path@) is None,
        },
{
    match get_value(doc, path) {
        Some(v) => toml_as_integer(v),
        None => None,
    }
}

// ---------------------------------------------------------------------------
// Verified assembly of the three snapshots from looked-up values. Each
// builder succeeds exactly when every required value is present, returns the
// values unchanged, and names the first missing key otherwise.
// ---------------------------------------------------------------------------

/// Assembles the general settings. The notification padding is the one
/// optional value: the loader never populates it, and an absent value
/// renders the notification fragment with empty padding.
pub fn build_config(
    height: Option<i64>,
    power_icon: Option<String>,
    font: Option<String>,
    icon_font: Option<String>,
    workspace_icons: Option<String>,
    gen_pad: Option<String>,
    pow_pad: Option<String>,
    ws_pad: Option<String>,
    dat_pad: Option<String>,
    vol_pad: Option<String>,
    not_pad: Option<String>,
) -> (r: Result<Config, ConfigError>)
    ensures
        match r {
            Ok(c) => {
                &&& height matches Some(h) && c.height == h
                &&& power_icon matches Some(s) && c.power_icon@ == s@
                &&& font matches Some(s) && c.font@ == s@
                &&& icon_font matches Some(s) && c.icon_font@ == s@
                &&& workspace_icons matches Some(s) && c.workspace_icons@ == s@
                &&& gen_pad matches Some(s) && c.gen_pad@ == s@
                &&& pow_pad matches Some(s) && c.pow_pad@ == s@
                &&& ws_pad matches Some(s) && c.ws_pad@ == s@
                &&& dat_pad matches Some(s) && c.dat_pad@ == s@
                &&& vol_pad matches Some(s) && c.vol_pad@ == s@
                &&& (not_pad matches Some(s) ==> c.not_pad@ == s@)
                &&& (not_pad is None ==> c.not_pad@ == Seq::<char>::empty())
            },
            Err(e) => {
                if height is None {
                    e == ConfigError::MissingKey(ConfigKey::Height)
                } else if power_icon is None {
                    e == ConfigError::MissingKey(ConfigKey::PowerIcon)
                } else if font is None {
                    e == ConfigError::MissingKey(ConfigKey::Font)
                } else if icon_font is None {
                    e == ConfigError::MissingKey(ConfigKey::IconFont)
                } else if workspace_icons is None {
                    e == ConfigError::MissingKey(ConfigKey::WorkspaceIcons)
                } else if gen_pad is None {
                    e == ConfigError::MissingKey(ConfigKey::GeneralPad)
                } else if pow_pad is None {
                    e == ConfigError::MissingKey(ConfigKey::PowerPad)
                } else if ws_pad is None {
                    e == ConfigError::MissingKey(ConfigKey::WorkspacePad)
                } else if dat_pad is None {
                    e == ConfigError::MissingKey(ConfigKey::ClockPad)
                } else if vol_pad is None {
                    e == ConfigError::MissingKey(ConfigKey::VolumePad)
                } else {
                    false
                }
            },
        },
{
    let height = match height {
        Some(v) => v,
        None => {
            return Err(ConfigError::MissingKey(ConfigKey::Height));
        },
    };
    let power_icon = match power_icon {
        Some(v) => v,
        None => {
            return Err(ConfigError::MissingKey(ConfigKey::PowerIcon));
        },
    };
    let font = match font {
        Some(v) => v,
        None => {
            return Err(ConfigError::MissingKey(ConfigKey::Font));
        },
    };
    let icon_font = match icon_font {
        Some(v) => v,
        None => {
            return Err(ConfigError::MissingKey(ConfigKey::IconFont));
        },
    };
    let workspace_icons = match workspace_icons {
        Some(v) => v,
        None => {
            return Err(ConfigError::MissingKey(ConfigKey::WorkspaceIcons));
        },
    };
    let gen_pad = match gen_pad {
        Some(v) => v,
        None => {
            return Err(ConfigError::MissingKey(ConfigKey::GeneralPad));
        },
    };
    let pow_pad = match pow_pad {
        Some(v) => v,
        None => {
            return Err(ConfigError::MissingKey(ConfigKey::PowerPad));
        },
    };
    let ws_pad = match ws_pad {
        Some(v) => v,
        None => {
            return Err(ConfigError::MissingKey(ConfigKey::WorkspacePad));
        },
    };
    let dat_pad = match dat_pad {
        Some(v) => v,
        None => {
            return Err(ConfigError::MissingKey(ConfigKey::ClockPad));
        },
    };
    let vol_pad = match vol_pad {
        Some(v) => v,
        None => {
            return Err(ConfigError::MissingKey(ConfigKey::VolumePad));
        },
    };
    let not_pad = match not_pad {
        Some(v) => v,
        None => String::new(),
    };
    Ok(Config {
        height,
        power_icon,
        font,
        icon_font,
        workspace_icons,
        gen_pad,
        pow_pad,
        ws_pad,
        dat_pad,
        vol_pad,
        not_pad,
    })
}

/// Assembles the color palette.
pub fn build_colors(
    bg_col: Option<String>,
    bg_sec: Option<String>,
    fg_col: Option<String>,
    fg_sec: Option<String>,
    hl_col: Option<String>,
) -> (r: Result<Colors, ConfigError>)
    ensures
        match r {
            Ok(c) => {
                &&& bg_col matches Some(s) && c.bg_col@ == s@
                &&& bg_sec matches Some(s) && c.bg_sec@ == s@
                &&& fg_col matches Some(s) && c.fg_col@ == s@
                &&& fg_sec matches Some(s) && c.fg_sec@ == s@
                &&& hl_col matches Some(s) && c.hl_col@ == s@
            },
            Err(e) => {
                if bg_col is None {
                    e == ConfigError::MissingKey(ConfigKey::BackgroundColor)
                } else if bg_sec is None {
                    e == ConfigError::MissingKey(ConfigKey::BackgroundSecondary)
                } else if fg_col is None {
                    e == ConfigError::MissingKey(ConfigKey::ForegroundColor)
                } else if fg_sec is None {
                    e == ConfigError::MissingKey(ConfigKey::ForegroundSecondary)
                } else if hl_col is None {
                    e == ConfigError::MissingKey(ConfigKey::HighlightColor)
                } else {
                    false
                }
            },
        },
{
    let bg_col = match bg_col {
        Some(v) => v,
        None => {
            return Err(ConfigError::MissingKey(ConfigKey::BackgroundColor));
        },
    };
    let bg_sec = match bg_sec {
        Some(v) => v,
        None => {
            return Err(ConfigError::MissingKey(ConfigKey::BackgroundSecondary));
        },
    };
    let fg_col = match fg_col {
        Some(v) => v,
        None => {
            return Err(ConfigError::MissingKey(ConfigKey::ForegroundColor));
        },
    };
    let fg_sec = match fg_sec {
        Some(v) => v,
        None => {
            return Err(ConfigError::MissingKey(ConfigKey::ForegroundSecondary));
        },
    };
    let hl_col = match hl_col {
        Some(v) => v,
        None => {
            return Err(ConfigError::MissingKey(ConfigKey::HighlightColor));
        },
    };
    Ok(Colors { bg_col, bg_sec, fg_col, fg_sec, hl_col })
}

/// Assembles the click-action commands. The notification viewer is the one
/// optional command: the loader never populates it, and an absent command
/// leaves the notification fragment bound to an empty command.
pub fn build_executables(
    pow: Option<String>,
    vol: Option<String>,
    ws: Option<String>,
    not_cmd: Option<String>,
) -> (r: Result<Executables, ConfigError>)
    ensures
        match r {
            Ok(c) => {
                &&& pow matches Some(s) && c.pow@ == s@
                &&& vol matches Some(s) && c.vol@ == s@
                &&& ws matches Some(s) && c.ws@ == s@
                &&& (not_cmd matches Some(s) ==> c.not@ == s@)
                &&& (not_cmd is None ==> c.not@ == Seq::<char>::empty())
            },
            Err(e) => {
                if pow is None {
                    e == ConfigError::MissingKey(ConfigKey::ExecPower)
                } else if vol is None {
                    e == ConfigError::MissingKey(ConfigKey::ExecVolume)
                } else if ws is None {
                    e == ConfigError::MissingKey(ConfigKey::ExecSwitchWorkspace)
                } else {
                    false
                }
            },
        },
{
    let pow = match pow {
        Some(v) => v,
        None => {
            return Err(ConfigError::MissingKey(ConfigKey::ExecPower));
        },
    };
    let vol = match vol {
        Some(v) => v,
        None => {
            return Err(ConfigError::MissingKey(ConfigKey::ExecVolume));
        },
    };
    let ws = match ws {
        Some(v) => v,
        None => {
            return Err(ConfigError::MissingKey(ConfigKey::ExecSwitchWorkspace));
        },
    };
    let not = match not_cmd {
        Some(v) => v,
        None => String::new(),
    };
    Ok(Executables { pow, vol, ws, not })
}

// ---------------------------------------------------------------------------
// Lookup of each snapshot in a parsed document: `Ok` exactly when every
// required key holds a value of the right type, with the looked-up values
// taken verbatim, else the first missing key in the fixed order.
// ---------------------------------------------------------------------------

/// Reads the general settings from a parsed document.
pub fn get_config(doc: &toml::Value) -> (r: Result<Config, ConfigError>)
    ensures
        match r {
            Ok(c) => {
                &&& spec_lookup_integer(*doc, "general.height"@) matches Some(v) && c.height == v
                &&& spec_lookup_str(*doc, "general.power_icon"@) matches Some(v) && c.power_icon@
                    == v
                &&& spec_lookup_str(*doc, "general.font"@) matches Some(v) && c.font@ == v
                &&& spec_lookup_str(*doc, "general.icon_font"@) matches Some(v) && c.icon_font@
                    == v
                &&& spec_lookup_str(*doc, "general.workspace_icons"@) matches Some(v)
                    && c.workspace_icons@ == v
                &&& spec_lookup_str(*doc, "placeholders.general"@) matches Some(v) && c.gen_pad@
                    == v
                &&& spec_lookup_str(*doc, "placeholders.power"@) matches Some(v) && c.pow_pad@
                    == v
                &&& spec_lookup_str(*doc, "placeholders.workspace"@) matches Some(v) && c.ws_pad@
                    == v
                &&& spec_lookup_str(*doc, "placeholders.clock"@) matches Some(v) && c.dat_pad@
                    == v
                &&& spec_lookup_str(*doc, "placeholders.volume"@) matches Some(v) && c.vol_pad@
                    == v
                &&& c.not_pad@ == Seq::<char>::empty()
            },
            Err(e) => {
                if spec_lookup_integer(*doc, "general.height"@) is None {
                    e == ConfigError::MissingKey(ConfigKey::Height)
                } else if spec_lookup_str(*doc, "general.power_icon"@) is None {
                    e == ConfigError::MissingKey(ConfigKey::PowerIcon)
                } else if spec_lookup_str(*doc, "general.font"@) is None {
                    e == ConfigError::MissingKey(ConfigKey::Font)
                } else if spec_lookup_str(*doc, "general.icon_font"@) is None {
                    e == ConfigError::MissingKey(ConfigKey::IconFont)
                } else if spec_lookup_str(*doc, "general.workspace_icons"@) is None {
                    e == ConfigError::MissingKey(ConfigKey::WorkspaceIcons)
                } else if spec_lookup_str(*doc, "placeholders.general"@) is None {
                    e == ConfigError::MissingKey(ConfigKey::GeneralPad)
                } else if spec_lookup_str(*doc, "placeholders.power"@) is None {
                    e == ConfigError::MissingKey(ConfigKey::PowerPad)
                } else if spec_lookup_str(*doc, "placeholders.workspace"@) is None {
                    e == ConfigError::MissingKey(ConfigKey::WorkspacePad)
                } else if spec_lookup_str(*doc, "placeholders.clock"@) is None {
                    e == ConfigError::MissingKey(ConfigKey::ClockPad)
                } else if spec_lookup_str(*doc, "placeholders.volume"@) is None {
                    e == ConfigError::MissingKey(ConfigKey::VolumePad)
                } else {
                    false
                }
            },
        },
{
    build_config(
        get_integer_value(doc, "general.height"),
        get_str_value(doc, "general.power_icon"),
        get_str_value(doc, "general.font"),
        get_str_value(doc, "general.icon_font"),
        get_str_value(doc, "general.workspace_icons"),
        get_str_value(doc, "placeholders.general"),
        get_str_value(doc, "placeholders.power"),
        get_str_value(doc, "placeholders.workspace"),
        get_str_value(doc, "placeholders.clock"),
        get_str_value(doc, "placeholders.volume"),
        None,
    )
}

/// Reads the color palette from a parsed document.
pub fn get_colors(doc: &toml::Value) -> (r: Result<Colors, ConfigError>)
    ensures
        match r {
            Ok(c) => {
                &&& spec_lookup_str(*doc, "colors.background_color"@) matches Some(v) && c.bg_col@
                    == v
                &&& spec_lookup_str(*doc, "colors.background_secondary"@) matches Some(v)
                    && c.bg_sec@ == v
                &&& spec_lookup_str(*doc, "colors.foreground_color"@) matches Some(v) && c.fg_col@
                    == v
                &&& spec_lookup_str(*doc, "colors.foreground_secondary"@) matches Some(v)
                    && c.fg_sec@ == v
                &&& spec_lookup_str(*doc, "colors.highlight_color"@) matches Some(v) && c.hl_col@
                    == v
            },
            Err(e) => {
                if spec_lookup_str(*doc, "colors.background_color"@) is None {
                    e == ConfigError::MissingKey(ConfigKey::BackgroundColor)
                } else if spec_lookup_str(*doc, "colors.background_secondary"@) is None {
                    e == ConfigError::MissingKey(ConfigKey::BackgroundSecondary)
                } else if spec_lookup_str(*doc, "colors.foreground_color"@) is None {
                    e == ConfigError::MissingKey(ConfigKey::ForegroundColor)
                } else if spec_lookup_str(*doc, "colors.foreground_secondary"@) is None {
                    e == ConfigError::MissingKey(ConfigKey::ForegroundSecondary)
                } else if spec_lookup_str(*doc, "colors.highlight_color"@) is None {
                    e == ConfigError::MissingKey(ConfigKey::HighlightColor)
                } else {
                    false
                }
            },
        },
{
    build_colors(
        get_str_value(doc, "colors.background_color"),
        get_str_value(doc, "colors.background_secondary"),
        get_str_value(doc, "colors.foreground_color"),
        get_str_value(doc, "colors.foreground_secondary"),
        get_str_value(doc, "colors.highlight_color"),
    )
}

/// Reads the click-action commands from a parsed document.
pub fn get_executables(doc: &toml::Value) -> (r: Result<Executables, ConfigError>)
    ensures
        match r {
            Ok(c) => {
                &&& spec_lookup_str(*doc, "exec.power"@) matches Some(v) && c.pow@ == v
                &&& spec_lookup_str(*doc, "exec.volume"@) matches Some(v) && c.vol@ == v
                &&& spec_lookup_str(*doc, "exec.switch_focused_workspace"@) matches Some(v)
                    && c.ws@ == v
                &&& c.not@ == Seq::<char>::empty()
            },
            Err(e) => {
                if spec_lookup_str(*doc, "exec.power"@) is None {
                    e == ConfigError::MissingKey(ConfigKey::ExecPower)
                } else if spec_lookup_str(*doc, "exec.volume"@) is None {
                    e == ConfigError::MissingKey(ConfigKey::ExecVolume)
                } else if spec_lookup_str(*doc, "exec.switch_focused_workspace"@) is None {
                    e == ConfigError::MissingKey(ConfigKey::ExecSwitchWorkspace)
                } else {
                    false
                }
            },
        },
{
    build_executables(
        get_str_value(doc, "exec.power"),
        get_str_value(doc, "exec.volume"),
        get_str_value(doc, "exec.switch_focused_workspace"),
        None,
    )
}

/// The well-known configuration file path under a home directory.
pub fn config_path(home: &str) -> (r: String)
    ensures
        r@ == home@ + "/.config/undeadlemon.toml"@,
{
    let mut out = String::from_str(home);
    out.append("/.config/undeadlemon.toml");
    out
}

} // verus!
