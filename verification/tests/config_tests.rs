use bar_control::config::{
    build_colors, build_config, build_executables, config_path, get_colors, get_config,
    get_executables, get_value, parse_config, ConfigError, ConfigKey,
};
use bar_control::screens::{get_screens, parse_screen_line};
use bar_control::workspace::{fetch_step, FetchState, Workspace};

const FULL_DOC: &str = r##"
[general]
height = 20
power_icon = "P"
font = "mono"
icon_font = "icons"
workspace_icons = "abc"

[placeholders]
general = "G"
power = "_"
workspace = "."
clock = "~"
volume = "|"

[colors]
background_color = "#1"
background_secondary = "#2"
foreground_color = "#3"
foreground_secondary = "#4"
highlight_color = "#5"

[exec]
power = "p.sh"
volume = "v.sh"
switch_focused_workspace = "sw"
"##;

#[test]
fn config_loads_every_general_setting() {
    let doc = parse_config(FULL_DOC).unwrap();
    let cfg = get_config(&doc).unwrap();
    assert_eq!(cfg.height, 20);
    assert_eq!(cfg.power_icon, "P");
    assert_eq!(cfg.font, "mono");
    assert_eq!(cfg.icon_font, "icons");
    assert_eq!(cfg.workspace_icons, "abc");
    assert_eq!(cfg.gen_pad, "G");
    assert_eq!(cfg.pow_pad, "_");
    assert_eq!(cfg.ws_pad, ".");
    assert_eq!(cfg.dat_pad, "~");
    assert_eq!(cfg.vol_pad, "|");
    assert_eq!(cfg.not_pad, "");
}

#[test]
fn config_loads_colors_and_executables() {
    let doc = parse_config(FULL_DOC).unwrap();
    let col = get_colors(&doc).unwrap();
    assert_eq!(col.bg_col, "#1");
    assert_eq!(col.bg_sec, "#2");
    assert_eq!(col.fg_col, "#3");
    assert_eq!(col.fg_sec, "#4");
    assert_eq!(col.hl_col, "#5");
    let cmds = get_executables(&doc).unwrap();
    assert_eq!(cmds.pow, "p.sh");
    assert_eq!(cmds.vol, "v.sh");
    assert_eq!(cmds.ws, "sw");
    assert_eq!(cmds.not, "");
}

#[test]
fn malformed_document_is_fatal() {
    assert_eq!(parse_config("not toml ][").unwrap_err(), ConfigError::Malformed);
}

#[test]
fn missing_key_is_fatal_and_named() {
    let doc = parse_config(&FULL_DOC.replace("volume = \"|\"", "")).unwrap();
    assert_eq!(
        get_config(&doc).unwrap_err(),
        ConfigError::MissingKey(ConfigKey::VolumePad)
    );
    let doc = parse_config("[general]\nheight = 7").unwrap();
    assert_eq!(
        get_config(&doc).unwrap_err(),
        ConfigError::MissingKey(ConfigKey::PowerIcon)
    );
    assert_eq!(
        get_colors(&doc).unwrap_err(),
        ConfigError::MissingKey(ConfigKey::BackgroundColor)
    );
    assert_eq!(
        get_executables(&doc).unwrap_err(),
        ConfigError::MissingKey(ConfigKey::ExecPower)
    );
}

#[test]
fn wrong_value_type_counts_as_missing() {
    let doc = parse_config("[general]\nheight = \"tall\"").unwrap();
    assert_eq!(
        get_config(&doc).unwrap_err(),
        ConfigError::MissingKey(ConfigKey::Height)
    );
}

#[test]
fn config_path_joins_home_and_well_known_file() {
    assert_eq!(config_path("/home/u"), "/home/u/.config/undeadlemon.toml");
}

#[test]
fn value_lookup_walks_dotted_paths() {
    let doc = parse_config(FULL_DOC).unwrap();
    assert!(get_value(&doc, "general.height").is_some());
    assert!(get_value(&doc, "general").is_some());
    assert!(get_value(&doc, "general.absent").is_none());
    assert!(get_value(&doc, "absent.key").is_none());
}

#[test]
fn builders_report_first_missing_key() {
    let r = build_config(
        None,
        Some("P".to_string()),
        None,
        None,
        None,
        None,
        None,
        None,
        None,
        None,
        None,
    );
    assert_eq!(r.unwrap_err(), ConfigError::MissingKey(ConfigKey::Height));
    let r = build_colors(Some("a".to_string()), None, None, Some("d".to_string()), None);
    assert_eq!(
        r.unwrap_err(),
        ConfigError::MissingKey(ConfigKey::BackgroundSecondary)
    );
    let r = build_executables(Some("p".to_string()), Some("v".to_string()), None, None);
    assert_eq!(
        r.unwrap_err(),
        ConfigError::MissingKey(ConfigKey::ExecSwitchWorkspace)
    );
}

#[test]
fn screen_line_with_geometry_is_captured() {
    let line = "eDP-1 connected 1920x1080+0+0 (normal left inverted right x axis y axis)";
    let sc = parse_screen_line(line).unwrap();
    assert_eq!(sc.name, "eDP-1");
    assert_eq!(sc.xres, "1920");
    assert_eq!(sc.xoffset, "0");
}

#[test]
fn disconnected_line_yields_no_screen() {
    let line = "HDMI-1 disconnected (normal left inverted right x axis y axis)";
    assert!(parse_screen_line(line).is_none());
}

#[test]
fn malformed_connected_lines_are_skipped() {
    assert!(parse_screen_line("eDP-1 connected primary (normal)").is_none());
    assert!(parse_screen_line(" connected 1920x1080+0+0").is_none());
    assert!(parse_screen_line("eDP-1 connected x1080+0+0").is_none());
    assert!(parse_screen_line("eDP-1 connected 1920x1080 0 0").is_none());
}

#[test]
fn screen_discovery_scans_every_line() {
    let out = "Screen 0: minimum 320 x 200\n\
               eDP-1 connected 1920x1080+0+0 (normal left) 344mm x 194mm\n\
               HDMI-1 disconnected (normal left)\n\
               DP-1 connected 2560x1440+1920+0 (normal left) 597mm x 336mm\n";
    let screens = get_screens(out);
    assert_eq!(screens.len(), 2);
    assert_eq!(screens[0].name, "eDP-1");
    assert_eq!(screens[0].xres, "1920");
    assert_eq!(screens[0].xoffset, "0");
    assert_eq!(screens[1].name, "DP-1");
    assert_eq!(screens[1].xres, "2560");
    assert_eq!(screens[1].xoffset, "1920");
}

#[test]
fn screen_discovery_of_empty_output() {
    assert!(get_screens("").is_empty());
}

fn some_list() -> Vec<Workspace> {
    vec![Workspace { output: "S".to_string(), num: 1, visible: true, urgent: false }]
}

#[test]
fn fetch_keeps_a_first_reply() {
    let next = fetch_step(FetchState::FirstTry, Some(some_list()));
    match next {
        FetchState::Done(ws) => assert_eq!(ws.len(), 1),
        _ => panic!("expected a finished fetch"),
    }
}

#[test]
fn fetch_retries_once_then_keeps_the_reply() {
    let s1 = fetch_step(FetchState::FirstTry, None);
    assert!(matches!(s1, FetchState::Retrying));
    let s2 = fetch_step(s1, Some(some_list()));
    match s2 {
        FetchState::Done(ws) => assert_eq!(ws.len(), 1),
        _ => panic!("expected a finished fetch"),
    }
}

#[test]
fn two_fetch_failures_yield_empty_list() {
    let s1 = fetch_step(FetchState::FirstTry, None);
    let s2 = fetch_step(s1, None);
    match s2 {
        FetchState::Done(ws) => assert!(ws.is_empty()),
        _ => panic!("expected a finished fetch"),
    }
}
