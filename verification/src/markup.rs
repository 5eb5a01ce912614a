use vstd::prelude::*;
use vstd::string::StringExecFns;

verus! {

// ---------------------------------------------------------------------------
// Markup vocabulary of the bar renderer, as sequences of characters.
// ---------------------------------------------------------------------------

/// The reset directives appended after every fragment: restore background,
/// foreground and font.
pub open spec fn reset_marks() -> Seq<char> {
    "%{B-}%{F-}%{T-}"@
}

/// Opening style directives: set background and foreground colors.
pub open spec fn spec_styled_open(bg: Seq<char>, fg: Seq<char>) -> Seq<char> {
    "%{B"@ + bg + "}%{F"@ + fg + "}"@
}

/// Opening of a clickable region bound to `script`.
pub open spec fn spec_click_open(script: Seq<char>) -> Seq<char> {
    "%{A:"@ + script + ":}"@
}

/// Closing of a clickable region.
pub open spec fn spec_click_close() -> Seq<char> {
    "%{A}"@
}

/// A styled, clickable block: colors, click binding, body, click end.
pub open spec fn spec_click_block(
    bg: Seq<char>,
    fg: Seq<char>,
    script: Seq<char>,
    body: Seq<char>,
) -> Seq<char> {
    spec_styled_open(bg, fg) + spec_click_open(script) + body + spec_click_close()
}

/// Appends the bar markup reset directives (background, foreground, font)
/// to a fragment, so that styling never leaks into the next fragment.
pub fn add_reset(input: &String) -> (r: String)
    ensures
        r@ == input@ + reset_marks(),
{
    let mut out = input.clone();
    out.append("%{B-}%{F-}%{T-}");
    out
}

/// Builds the opening style directives.
pub fn styled_open(bg: &str, fg: &str) -> (r: String)
    ensures
        r@ == spec_styled_open(bg@, fg@),
{
    let mut out = String::new();
    out.append("%{B");
    out.append(bg);
    out.append("}%{F");
    out.append(fg);
    out.append("}");
    proof {
        assert(out@ =~= spec_styled_open(bg@, fg@));
    }
    out
}

/// Builds a styled, clickable block around `body`.
pub fn click_block(bg: &str, fg: &str, script: &str, body: &str) -> (r: String)
    ensures
        r@ == spec_click_block(bg@, fg@, script@, body@),
{
    let mut out = String::new();
    out.append("%{B");
    out.append(bg);
    out.append("}%{F");
    out.append(fg);
    out.append("}");
    out.append("%{A:");
    out.append(script);
    out.append(":}");
    out.append(body);
    out.append("%{A}");
    proof {
        assert(out@ =~= spec_click_block(bg@, fg@, script@, body@));
    }
    out
}

// ---------------------------------------------------------------------------
// Decimal rendering of the integers that appear inside click scripts.
// ---------------------------------------------------------------------------

/// The character for one decimal digit.
pub open spec fn spec_digit(d: int) -> char
    recommends
        0 <= d < 10,
{
    (('0' as int) + d) as char
}

/// Decimal representation of a non-negative integer, most significant first.
pub open spec fn spec_dec(n: int) -> Seq<char>
    recommends
        n >= 0,
    decreases n,
{
    if n < 10 {
        seq![spec_digit(n)]
    } else {
        spec_dec(n / 10) + seq![spec_digit(n % 10)]
    }
}

/// Decimal representation of a signed integer: a leading minus for a
/// negative value, then the magnitude.
pub open spec fn spec_int_dec(n: int) -> Seq<char> {
    if n >= 0 {
        spec_dec(n)
    } else {
        seq!['-'] + spec_dec(-n)
    }
}

pub(crate) fn digit_str(d: u64) -> (r: &'static str)
    requires
        d < 10,
    ensures
        r@ == seq![spec_digit(d as int)],
{
    let r: &'static str = if d == 0 {
        "0"
    } else if d == 1 {
        "1"
    } else if d == 2 {
        "2"
    } else if d == 3 {
        "3"
    } else if d == 4 {
        "4"
    } else if d == 5 {
        "5"
    } else if d == 6 {
        "6"
    } else if d == 7 {
        "7"
    } else if d == 8 {
        "8"
    } else {
        "9"
    };
    proof {
        reveal_strlit("0");
        reveal_strlit("1");
        reveal_strlit("2");
        reveal_strlit("3");
        reveal_strlit("4");
        reveal_strlit("5");
        reveal_strlit("6");
        reveal_strlit("7");
        reveal_strlit("8");
        reveal_strlit("9");
        assert(r@ =~= seq![spec_digit(d as int)]);
    }
    r
}

/// Renders an unsigned integer in decimal.
pub fn u64_dec(n: u64) -> (s: String)
    ensures
        s@ == spec_dec(n as int),
    decreases n,
{
    if n < 10 {
        String::from_str(digit_str(n))
    } else {
        let mut s = u64_dec(n / 10);
        s.append(digit_str(n % 10));
        s
    }
}

/// Renders a signed integer in decimal.
pub fn i64_dec(n: i64) -> (s: String)
    ensures
        s@ == spec_int_dec(n as int),
{
    if n >= 0 {
        u64_dec(n as u64)
    } else {
        let mag_wide: i128 = -(n as i128);
        assert(1 <= mag_wide <= 0x8000_0000_0000_0000i128);
        let mag: u64 = mag_wide as u64;
        let mut s = String::from_str("-");
        proof {
            reveal_strlit("-");
        }
        let digits = u64_dec(mag);
        s.append(digits.as_str());
        proof {
            assert(s@ =~= spec_int_dec(n as int));
        }
        s
    }
}

// ---------------------------------------------------------------------------
// Click scripts.
// ---------------------------------------------------------------------------

/// The click script of a per-screen action: command, screen name, bar height,
/// backgrounded.
pub open spec fn spec_action_script(cmd: Seq<char>, screen: Seq<char>, height: int) -> Seq<char> {
    cmd + " "@ + screen + " "@ + spec_int_dec(height) + " &"@
}

/// Builds the click script of a per-screen action.
pub fn action_script(cmd: &str, screen: &str, height: i64) -> (r: String)
    ensures
        r@ == spec_action_script(cmd@, screen@, height as int),
{
    let mut out = String::new();
    out.append(cmd);
    out.append(" ");
    out.append(screen);
    out.append(" ");
    let dec = i64_dec(height);
    out.append(dec.as_str());
    out.append(" &");
    proof {
        assert(out@ =~= spec_action_script(cmd@, screen@, height as int));
    }
    out
}

/// The click script that switches to workspace number `num`.
pub open spec fn spec_switch_script(cmd: Seq<char>, num: int) -> Seq<char> {
    cmd + " "@ + spec_dec(num)
}

/// Builds the click script that switches to a workspace.
pub fn switch_script(cmd: &str, num: u64) -> (r: String)
    ensures
        r@ == spec_switch_script(cmd@, num as int),
{
    let mut out = String::new();
    out.append(cmd);
    out.append(" ");
    let dec = u64_dec(num);
    out.append(dec.as_str());
    proof {
        assert(out@ =~= spec_switch_script(cmd@, num as int));
    }
    out
}

// ---------------------------------------------------------------------------
// The composed bar line.
// ---------------------------------------------------------------------------

/// One full bar line: power, general padding and workspaces on the left,
/// the clock centered, notification, general padding and volume on the
/// right, closed by a newline. Alignment is delegated to the renderer's
/// own `%{c}` and `%{r}` directives.
pub open spec fn spec_compose(
    pow: Seq<char>,
    gen_pad: Seq<char>,
    ws: Seq<char>,
    date: Seq<char>,
    notif: Seq<char>,
    vol: Seq<char>,
) -> Seq<char> {
    pow + gen_pad + ws + "%{c}"@ + date + "%{r}"@ + notif + gen_pad + vol + "\n"@
}

/// Assembles the fragments of one tick into one bar line.
pub fn compose(
    pow: &str,
    gen_pad: &str,
    ws: &str,
    date: &str,
    notif: &str,
    vol: &str,
) -> (r: String)
    ensures
        r@ == spec_compose(pow@, gen_pad@, ws@, date@, notif@, vol@),
{
    let mut out = String::new();
    out.append(pow);
    out.append(gen_pad);
    out.append(ws);
    out.append("%{c}");
    out.append(date);
    out.append("%{r}");
    out.append(notif);
    out.append(gen_pad);
    out.append(vol);
    out.append("\n");
    proof {
        assert(out@ =~= spec_compose(pow@, gen_pad@, ws@, date@, notif@, vol@));
    }
    out
}

} // verus!
