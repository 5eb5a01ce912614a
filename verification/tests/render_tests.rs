use bar_control::add_reset;
use bar_control::config::{Colors, Config, Executables};
use bar_control::fragments::{
    clock_text, date_fragment, get_date, get_not, get_pow, get_vol, parse_volume,
};
use bar_control::markup::{compose, i64_dec, u64_dec};
use bar_control::workspace::{classify_slot, get_ws, SlotStyle, Workspace};

fn test_config() -> Config {
    Config {
        height: 20,
        power_icon: "P".to_string(),
        font: "mono".to_string(),
        icon_font: "icons".to_string(),
        workspace_icons: "ab".to_string(),
        gen_pad: "G".to_string(),
        pow_pad: "_".to_string(),
        ws_pad: ".".to_string(),
        dat_pad: "~".to_string(),
        vol_pad: "|".to_string(),
        not_pad: "*".to_string(),
    }
}

fn test_colors() -> Colors {
    Colors {
        bg_col: "#1".to_string(),
        bg_sec: "#2".to_string(),
        fg_col: "#3".to_string(),
        fg_sec: "#4".to_string(),
        hl_col: "#5".to_string(),
    }
}

fn test_cmds() -> Executables {
    Executables {
        pow: "p.sh".to_string(),
        vol: "v.sh".to_string(),
        ws: "sw".to_string(),
        not: "n.sh".to_string(),
    }
}

fn ws(output: &str, num: i32, visible: bool, urgent: bool) -> Workspace {
    Workspace { output: output.to_string(), num, visible, urgent }
}

#[test]
fn reset_appends_markup_reset() {
    assert_eq!(add_reset(&"x".to_string()), "x%{B-}%{F-}%{T-}");
    assert_eq!(add_reset(&String::new()), "%{B-}%{F-}%{T-}");
}

#[test]
fn decimal_rendering() {
    assert_eq!(u64_dec(0), "0");
    assert_eq!(u64_dec(7), "7");
    assert_eq!(u64_dec(12345), "12345");
    assert_eq!(i64_dec(20), "20");
    assert_eq!(i64_dec(-42), "-42");
}

#[test]
fn compose_fixed_layout() {
    assert_eq!(compose("P", "G", "W", "D", "N", "V"), "PGW%{c}D%{r}NGV\n");
}

#[test]
fn compose_keeps_empty_fragments_in_layout() {
    assert_eq!(compose("", "G", "", "", "", ""), "G%{c}%{r}G\n");
}

#[test]
fn power_fragment_is_static_clickable_block() {
    let r = get_pow(&"S".to_string(), &test_config(), &test_colors(), &test_cmds());
    assert_eq!(r, "%{B#2}%{F#3}%{A:p.sh S 20 &:}_P_%{A}%{B-}%{F-}%{T-}");
}

#[test]
fn clock_text_is_zero_padded_24_hour() {
    assert_eq!(clock_text(9, 5), "09:05");
    assert_eq!(clock_text(0, 0), "00:00");
    assert_eq!(clock_text(23, 59), "23:59");
    assert_eq!(clock_text(13, 7), "13:07");
}

#[test]
fn clock_fragment_wraps_time_in_padding() {
    let r = date_fragment(&test_config(), &test_colors(), 9, 5);
    assert_eq!(r, "%{B#2}%{F#3}~09:05~%{B-}%{F-}%{T-}");
}

#[test]
fn live_clock_fragment_shape() {
    let r = get_date(&test_config(), &test_colors());
    if !r.is_empty() {
        assert!(r.starts_with("%{B#2}%{F#3}~"));
        assert!(r.ends_with("~%{B-}%{F-}%{T-}"));
        // padding + HH:MM + padding + markup, never seconds
        assert_eq!(r.len(), "%{B#2}%{F#3}~09:05~%{B-}%{F-}%{T-}".len());
    }
}

#[test]
fn notification_fragment_on_brace_response() {
    let r = get_not(
        &"S".to_string(),
        &test_config(),
        &test_colors(),
        &test_cmds(),
        Some("{}"),
    );
    assert_eq!(r, "%{B#5}%{F#1}%{A:n.sh S 20 &:}**%{A}%{B-}%{F-}%{T-}");
    assert!(!r.is_empty());
}

#[test]
fn notification_fragment_empty_cases() {
    let cfg = test_config();
    let col = test_colors();
    let cmds = test_cmds();
    let s = "S".to_string();
    assert_eq!(get_not(&s, &cfg, &col, &cmds, Some("")), "");
    assert_eq!(get_not(&s, &cfg, &col, &cmds, None), "");
    assert_eq!(get_not(&s, &cfg, &col, &cmds, Some("nothing")), "");
}

#[test]
fn volume_parse_extracts_bracketed_percentage() {
    let out = "Simple mixer control 'Master',0\n  Playback 1 [on]\n  Simple mixer ... [45%] [on]";
    assert_eq!(parse_volume(out).as_deref(), Some(" 45"));
}

#[test]
fn volume_parse_pads_to_width_three() {
    assert_eq!(parse_volume("[5%]").as_deref(), Some("  5"));
    assert_eq!(parse_volume("[100%]").as_deref(), Some("100"));
    assert_eq!(parse_volume("[%]").as_deref(), Some("   "));
}

#[test]
fn volume_parse_missing_markers() {
    assert_eq!(parse_volume("no percent here"), None);
    assert_eq!(parse_volume("45% but no bracket before"), None);
    assert_eq!(parse_volume(""), None);
}

#[test]
fn volume_fragment_renders_clickable_value() {
    let r = get_vol(
        &"S".to_string(),
        &test_config(),
        &test_colors(),
        &test_cmds(),
        Some("x [45%] y"),
    );
    assert_eq!(r, "%{B#2}%{F#3}%{A:v.sh S 20 &:}|  45|%{A}%{B-}%{F-}%{T-}");
}

#[test]
fn volume_fragment_empty_on_failure() {
    let cfg = test_config();
    let col = test_colors();
    let cmds = test_cmds();
    let s = "S".to_string();
    assert_eq!(get_vol(&s, &cfg, &col, &cmds, None), "");
    assert_eq!(get_vol(&s, &cfg, &col, &cmds, Some("garbage")), "");
}

#[test]
fn classification_precedence() {
    assert_eq!(classify_slot(None), SlotStyle::Empty);
    assert_eq!(classify_slot(Some((true, false))), SlotStyle::Active);
    assert_eq!(classify_slot(Some((true, true))), SlotStyle::Active);
    assert_eq!(classify_slot(Some((false, true))), SlotStyle::Urgent);
    assert_eq!(classify_slot(Some((false, false))), SlotStyle::Inactive);
}

#[test]
fn workspace_fragment_active_and_empty_slots() {
    let workspaces = vec![ws("S", 1, true, false)];
    let r = get_ws(
        &"S".to_string(),
        &test_config(),
        &test_colors(),
        &test_cmds(),
        &1,
        &workspaces,
    );
    assert_eq!(
        r,
        "%{B#2}%{F#3}%{A:sw 1:}.a.%{A}%{B#1}%{F#2}%{A:sw 2:}.b.%{A}%{B-}%{F-}%{T-}"
    );
}

#[test]
fn workspace_fragment_urgent_and_inactive_slots() {
    let workspaces = vec![ws("S", 1, false, true), ws("S", 2, false, false)];
    let r = get_ws(
        &"S".to_string(),
        &test_config(),
        &test_colors(),
        &test_cmds(),
        &1,
        &workspaces,
    );
    assert_eq!(
        r,
        "%{B#1}%{F#5}%{A:sw 1:}.a.%{A}%{B#1}%{F#4}%{A:sw 2:}.b.%{A}%{B-}%{F-}%{T-}"
    );
}

#[test]
fn workspace_fragment_ignores_other_screens() {
    let workspaces = vec![ws("T", 1, true, false)];
    let r = get_ws(
        &"S".to_string(),
        &test_config(),
        &test_colors(),
        &test_cmds(),
        &1,
        &workspaces,
    );
    assert_eq!(
        r,
        "%{B#1}%{F#2}%{A:sw 1:}.a.%{A}%{B#1}%{F#2}%{A:sw 2:}.b.%{A}%{B-}%{F-}%{T-}"
    );
}

#[test]
fn workspace_fragment_normalizes_by_screen_count() {
    // Two screens: workspaces 1 and 2 both normalize to slot 0 on their screens.
    let workspaces = vec![ws("S", 2, true, false)];
    let r = get_ws(
        &"S".to_string(),
        &test_config(),
        &test_colors(),
        &test_cmds(),
        &2,
        &workspaces,
    );
    assert_eq!(
        r,
        "%{B#2}%{F#3}%{A:sw 1:}.a.%{A}%{B#1}%{F#2}%{A:sw 2:}.b.%{A}%{B-}%{F-}%{T-}"
    );
}

#[test]
fn workspace_fragment_slot_count_matches_icons() {
    let r = get_ws(
        &"S".to_string(),
        &test_config(),
        &test_colors(),
        &test_cmds(),
        &1,
        &Vec::new(),
    );
    assert_eq!(r.matches("%{A}").count(), 2);
    assert!(r.ends_with("%{B-}%{F-}%{T-}"));
}
