use vstd::prelude::*;
use vstd::string::{StrSliceExecFns, StringExecFns};
use crate::config::{Colors, Config, Executables};
use crate::markup::{
    action_script, add_reset, click_block, reset_marks, spec_action_script, spec_click_block,
    spec_digit, spec_styled_open, styled_open, digit_str,
};
use crate::scan::{
    find_char, is_digit, lemma_first_from_some, lemma_last_before_some, rfind_char_before,
    spec_first, spec_last_before,
};

verus! {

// ---------------------------------------------------------------------------
// Power fragment: static per screen, a clickable power icon.
// ---------------------------------------------------------------------------

/// The power fragment: secondary background, primary foreground, the power
/// icon between the power padding, click-bound to the power command.
pub open spec fn spec_pow_fragment(
    screen: Seq<char>,
    cfg: Config,
    colors: Colors,
    cmd: Seq<char>,
) -> Seq<char> {
    spec_click_block(
        colors.bg_sec@,
        colors.fg_col@,
        spec_action_script(cmd, screen, cfg.height as int),
        cfg.pow_pad@ + cfg.power_icon@ + cfg.pow_pad@,
    ) + reset_marks()
}

/// Renders the static power fragment of one screen.
pub fn get_pow(screen: &String, config: &Config, colors: &Colors, cmds: &Executables) -> (r:
    String)
    ensures
        r@ == spec_pow_fragment(screen@, *config, *colors, cmds.pow@),
{
    let script = action_script(cmds.pow.as_str(), screen.as_str(), config.height);
    let mut body = String::new();
    body.append(config.pow_pad.as_str());
    body.append(config.power_icon.as_str());
    body.append(config.pow_pad.as_str());
    let block = click_block(
        colors.bg_sec.as_str(),
        colors.fg_col.as_str(),
        script.as_str(),
        body.as_str(),
    );
    let r = add_reset(&block);
    proof {
        assert(r@ =~= spec_pow_fragment(screen@, *config, *colors, cmds.pow@));
    }
    r
}

// ---------------------------------------------------------------------------
// Clock fragment: the local time as zero-padded 24-hour `HH:MM`.
// ---------------------------------------------------------------------------

/// Two zero-padded decimal digits.
pub open spec fn spec_two_dec(n: int) -> Seq<char> {
    seq![spec_digit(n / 10), spec_digit(n % 10)]
}

/// The clock text: zero-padded 24-hour hours and minutes, separated by a
/// colon — five characters, never seconds, never a 12-hour marker.
pub open spec fn spec_clock(h: int, m: int) -> Seq<char> {
    spec_two_dec(h) + ":"@ + spec_two_dec(m)
}

/// The clock text is five characters: two digits, a colon, two digits.
pub proof fn lemma_clock_shape(h: int, m: int)
    requires
        0 <= h < 24,
        0 <= m < 60,
    ensures
        spec_clock(h, m).len() == 5,
        is_digit(spec_clock(h, m)[0]),
        is_digit(spec_clock(h, m)[1]),
        spec_clock(h, m)[2] == ':',
        is_digit(spec_clock(h, m)[3]),
        is_digit(spec_clock(h, m)[4]),
{
    reveal_strlit(":");
}

fn two_dec(n: u8) -> (s: String)
    requires
        n < 100,
    ensures
        s@ == spec_two_dec(n as int),
{
    let mut s = String::from_str(digit_str((n / 10) as u64));
    s.append(digit_str((n % 10) as u64));
    proof {
        assert(s@ =~= spec_two_dec(n as int));
    }
    s
}

/// Renders the clock text of a given hour and minute.
pub fn clock_text(h: u8, m: u8) -> (s: String)
    requires
        h < 24,
        m < 60,
    ensures
        s@ == spec_clock(h as int, m as int),
{
    let mut s = two_dec(h);
    s.append(":");
    let mm = two_dec(m);
    s.append(mm.as_str());
    proof {
        assert(s@ =~= spec_clock(h as int, m as int));
    }
    s
}

/// The clock fragment: secondary background, primary foreground, the clock
/// text between the clock padding, closed by the markup reset.
pub open spec fn spec_date_fragment(cfg: Config, colors: Colors, h: int, m: int) -> Seq<char> {
    spec_styled_open(colors.bg_sec@, colors.fg_col@) + cfg.dat_pad@ + spec_clock(h, m)
        + cfg.dat_pad@ + reset_marks()
}

/// Renders the clock fragment of a given hour and minute.
pub fn date_fragment(config: &Config, colors: &Colors, h: u8, m: u8) -> (r: String)
    requires
        h < 24,
        m < 60,
    ensures
        r@ == spec_date_fragment(*config, *colors, h as int, m as int),
{
    let mut out = styled_open(colors.bg_sec.as_str(), colors.fg_col.as_str());
    out.append(config.dat_pad.as_str());
    let clock = clock_text(h, m);
    out.append(clock.as_str());
    out.append(config.dat_pad.as_str());
    let r = add_reset(&out);
    proof {
        assert(r@ =~= spec_date_fragment(*config, *colors, h as int, m as int));
    }
    r
}

/// Relies on `time::OffsetDateTime::now_local`, `hour` and `minute`: the
/// local wall-clock hour is within `0..24` and the minute within `0..60`;
/// the local offset may be indeterminate, which is a failure.
#[verifier::external_body]
fn local_hour_minute() -> (r: Option<(u8, u8)>)
    ensures
        r matches Some((h, m)) ==> h < 24 && m < 60,
{
    match time::OffsetDateTime::now_local() {
        Ok(t) => Some((t.hour(), t.minute())),
        Err(_) => None,
    }
}

/// Renders the clock fragment of the current local time, or the empty
/// fragment when the local time cannot be determined.
pub fn get_date(config: &Config, colors: &Colors) -> (r: String)
    ensures
        r@ == Seq::<char>::empty() || (exists|h: int, m: int|
            0 <= h < 24 && 0 <= m < 60 && r@ == #[trigger] spec_date_fragment(
                *config,
                *colors,
                h,
                m,
            )),
{
    match local_hour_minute() {
        None => String::new(),
        Some((h, m)) => {
            let r = date_fragment(config, colors, h, m);
            proof {
                assert(r@ == spec_date_fragment(*config, *colors, h as int, m as int));
            }
            r
        },
    }
}

// ---------------------------------------------------------------------------
// Notification fragment: present only when the notification service
// answered with text opening a brace.
// ---------------------------------------------------------------------------

/// The notification fragment: highlight background, primary background as
/// foreground, the notification padding twice, click-bound to the
/// notification viewer.
pub open spec fn spec_not_fragment(
    screen: Seq<char>,
    cfg: Config,
    colors: Colors,
    cmd: Seq<char>,
) -> Seq<char> {
    spec_click_block(
        colors.hl_col@,
        colors.bg_col@,
        spec_action_script(cmd, screen, cfg.height as int),
        cfg.not_pad@ + cfg.not_pad@,
    ) + reset_marks()
}

/// Renders the notification fragment from the service's response:
/// a response opening with `{` renders the clickable fragment; no response
/// or any other response renders nothing.
pub fn get_not(
    screen: &String,
    config: &Config,
    colors: &Colors,
    cmds: &Executables,
    response: Option<&str>,
) -> (r: String)
    ensures
        match response {
            None => r@ == Seq::<char>::empty(),
            Some(resp) => if resp@.len() > 0 && resp@[0] == '{' {
                r@ == spec_not_fragment(screen@, *config, *colors, cmds.not@)
            } else {
                r@ == Seq::<char>::empty()
            },
        },
{
    let resp = match response {
        Some(resp) => resp,
        None => {
            return String::new();
        },
    };
    if resp.unicode_len() > 0 && resp.get_char(0) == '{' {
        let script = action_script(cmds.not.as_str(), screen.as_str(), config.height);
        let mut body = String::new();
        body.append(config.not_pad.as_str());
        body.append(config.not_pad.as_str());
        let block = click_block(
            colors.hl_col.as_str(),
            colors.bg_col.as_str(),
            script.as_str(),
            body.as_str(),
        );
        let r = add_reset(&block);
        proof {
            assert(r@ =~= spec_not_fragment(screen@, *config, *colors, cmds.not@));
        }
        r
    } else {
        String::new()
    }
}

// ---------------------------------------------------------------------------
// Volume fragment: the percentage between the last `[` before the first `%`.
// ---------------------------------------------------------------------------

/// Right-aligns a value to width three with leading spaces.
pub open spec fn spec_pad3(s: Seq<char>) -> Seq<char> {
    if s.len() >= 3 {
        s
    } else if s.len() == 2 {
        " "@ + s
    } else if s.len() == 1 {
        "  "@ + s
    } else {
        "   "@ + s
    }
}

/// The volume value extracted from mixer output: the text between the last
/// `[` before the first `%` and that `%`, right-aligned to width three;
/// nothing when either marker is missing.
pub open spec fn spec_volume_value(s: Seq<char>) -> Option<Seq<char>> {
    match spec_first(s, '%') {
        None => None,
        Some(p) => match spec_last_before(s, '[', p) {
            None => None,
            Some(b) => Some(spec_pad3(s.subrange(b + 1, p))),
        },
    }
}

fn pad3(s: &str) -> (r: String)
    ensures
        r@ == spec_pad3(s@),
{
    let n = s.unicode_len();
    let mut out: String = if n >= 3 {
        String::new()
    } else if n == 2 {
        String::from_str(" ")
    } else if n == 1 {
        String::from_str("  ")
    } else {
        String::from_str("   ")
    };
    out.append(s);
    proof {
        reveal_strlit(" ");
        reveal_strlit("  ");
        reveal_strlit("   ");
        assert(out@ =~= spec_pad3(s@));
    }
    out
}

/// Extracts the volume value from mixer output, by the marker rule of
/// `spec_volume_value`.
pub fn parse_volume(out: &str) -> (r: Option<String>)
    ensures
        match r {
            Some(v) => spec_volume_value(out@) matches Some(sv) && v@ == sv,
            None => spec_volume_value(out@) is None,
        },
{
    let p = match find_char(out, '%') {
        Some(p) => p,
        None => {
            return None;
        },
    };
    proof {
        lemma_first_from_some(out@, '%', 0, p as int);
    }
    let b = match rfind_char_before(out, '[', p) {
        Some(b) => b,
        None => {
            return None;
        },
    };
    proof {
        lemma_last_before_some(out@, '[', p as int, b as int);
    }
    let raw = out.substring_char(b + 1, p);
    Some(pad3(raw))
}

/// The volume fragment: secondary background, primary foreground, a space
/// and the aligned volume value between the volume padding, click-bound to
/// the volume command.
pub open spec fn spec_vol_fragment(
    screen: Seq<char>,
    cfg: Config,
    colors: Colors,
    cmd: Seq<char>,
    vol: Seq<char>,
) -> Seq<char> {
    spec_click_block(
        colors.bg_sec@,
        colors.fg_col@,
        spec_action_script(cmd, screen, cfg.height as int),
        cfg.vol_pad@ + " "@ + vol + cfg.vol_pad@,
    ) + reset_marks()
}

/// Renders the volume fragment from mixer output: the extracted value in a
/// clickable block, or nothing when the tool was unavailable or its output
/// had no markers.
pub fn get_vol(
    screen: &String,
    config: &Config,
    colors: &Colors,
    cmds: &Executables,
    mixer_out: Option<&str>,
) -> (r: String)
    ensures
        match mixer_out {
            None => r@ == Seq::<char>::empty(),
            Some(out) => match spec_volume_value(out@) {
                None => r@ == Seq::<char>::empty(),
                Some(v) => r@ == spec_vol_fragment(screen@, *config, *colors, cmds.vol@, v),
            },
        },
{
    let out = match mixer_out {
        Some(out) => out,
        None => {
            return String::new();
        },
    };
    let vol = match parse_volume(out) {
        Some(vol) => vol,
        None => {
            return String::new();
        },
    };
    let script = action_script(cmds.vol.as_str(), screen.as_str(), config.height);
    let mut body = String::new();
    body.append(config.vol_pad.as_str());
    body.append(" ");
    body.append(vol.as_str());
    body.append(config.vol_pad.as_str());
    let block = click_block(
        colors.bg_sec.as_str(),
        colors.fg_col.as_str(),
        script.as_str(),
        body.as_str(),
    );
    let r = add_reset(&block);
    proof {
        assert(r@ =~= spec_vol_fragment(
            screen@,
            *config,
            *colors,
            cmds.vol@,
            spec_volume_value(out@)->Some_0,
        ));
    }
    r
}

} // verus!
