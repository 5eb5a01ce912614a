use vstd::prelude::*;
use vstd::string::{StrSliceExecFns, StringExecFns};
use crate::config::{Colors, Config, Executables};
use crate::markup::{
    add_reset, click_block, reset_marks, spec_click_block, spec_switch_script, switch_script,
};

verus! {

// ---------------------------------------------------------------------------
// Live workspace state, one tick's snapshot of the window manager.
// ---------------------------------------------------------------------------

/// One live workspace as the window manager reports it: the output it sits
/// on, its 1-based number, and its visible and urgent flags.
#[derive(Debug)]
pub struct Workspace {
    pub output: String,
    pub num: i32,
    pub visible: bool,
    pub urgent: bool,
}

/// Whether workspace `w` normalizes to slot `slot` on `screen`: its output
/// is that screen and its number, made 0-based, divided by the screen count,
/// is the slot index.
pub open spec fn ws_matches(w: Workspace, screen: Seq<char>, dc: int, slot: int) -> bool {
    w.output@ == screen && (w.num - 1) / dc == slot
}

/// The index of the workspace that fills slot `slot`, if any: the last
/// matching entry of the list, as the scan order of the renderer keeps the
/// latest match.
pub open spec fn spec_slot_match(ws: Seq<Workspace>, screen: Seq<char>, dc: int, slot: int) -> Option<
    int,
>
    decreases ws.len(),
{
    if ws.len() == 0 {
        None
    } else if ws_matches(ws.last(), screen, dc, slot) {
        Some(ws.len() - 1)
    } else {
        spec_slot_match(ws.drop_last(), screen, dc, slot)
    }
}

// ---------------------------------------------------------------------------
// Slot classification.
// ---------------------------------------------------------------------------

/// The visual state of one workspace slot.
#[derive(Clone, Copy, Debug, PartialEq, Eq, Structural)]
pub enum SlotStyle {
    Empty,
    Active,
    Urgent,
    Inactive,
}

/// Classifies a slot from whether a live workspace fills it and, if one
/// does, from its visible and urgent flags: no match is empty; a visible
/// match is active; an urgent, invisible match is urgent; any other match
/// is inactive.
pub open spec fn spec_classify(found: Option<(bool, bool)>) -> SlotStyle {
    match found {
        None => SlotStyle::Empty,
        Some((visible, urgent)) => if visible {
            SlotStyle::Active
        } else if urgent {
            SlotStyle::Urgent
        } else {
            SlotStyle::Inactive
        },
    }
}

/// Classifies one slot; `found` carries the visible and urgent flags of the
/// workspace filling the slot, if any fills it.
pub fn classify_slot(found: Option<(bool, bool)>) -> (r: SlotStyle)
    ensures
        r == spec_classify(found),
{
    match found {
        None => SlotStyle::Empty,
        Some((visible, urgent)) => {
            if visible {
                SlotStyle::Active
            } else if urgent {
                SlotStyle::Urgent
            } else {
                SlotStyle::Inactive
            }
        },
    }
}

/// Classification selects exactly one of the four styles, by the fixed
/// precedence: none found, then visible, then urgent, then inactive.
pub proof fn lemma_classify_precedence(found: Option<(bool, bool)>)
    ensures
        found is None ==> spec_classify(found) == SlotStyle::Empty,
        (found matches Some((v, u)) && v) ==> spec_classify(found) == SlotStyle::Active,
        (found matches Some((v, u)) && !v && u) ==> spec_classify(found) == SlotStyle::Urgent,
        (found matches Some((v, u)) && !v && !u) ==> spec_classify(found) == SlotStyle::Inactive,
{
}

/// The background and foreground of a slot, by its style.
pub open spec fn spec_style_colors(style: SlotStyle, colors: Colors) -> (Seq<char>, Seq<char>) {
    match style {
        SlotStyle::Empty => (colors.bg_col@, colors.bg_sec@),
        SlotStyle::Active => (colors.bg_sec@, colors.fg_col@),
        SlotStyle::Urgent => (colors.bg_col@, colors.hl_col@),
        SlotStyle::Inactive => (colors.bg_col@, colors.fg_sec@),
    }
}

fn style_colors<'a>(style: SlotStyle, colors: &'a Colors) -> (r: (&'a str, &'a str))
    ensures
        (r.0@, r.1@) == spec_style_colors(style, *colors),
{
    match style {
        SlotStyle::Empty => (colors.bg_col.as_str(), colors.bg_sec.as_str()),
        SlotStyle::Active => (colors.bg_sec.as_str(), colors.fg_col.as_str()),
        SlotStyle::Urgent => (colors.bg_col.as_str(), colors.hl_col.as_str()),
        SlotStyle::Inactive => (colors.bg_col.as_str(), colors.fg_sec.as_str()),
    }
}

// ---------------------------------------------------------------------------
// The workspace fragment: one styled, clickable, padded icon per slot.
// ---------------------------------------------------------------------------

/// The style of slot `slot`, from the workspace that fills it, if any.
pub open spec fn spec_slot_status(
    ws: Seq<Workspace>,
    screen: Seq<char>,
    dc: int,
    slot: int,
) -> SlotStyle {
    match spec_slot_match(ws, screen, dc, slot) {
        None => spec_classify(None),
        Some(x) => spec_classify(Some((ws[x].visible, ws[x].urgent))),
    }
}

/// The markup of one slot: style colors, a click binding that switches to
/// workspace `slot + 1`, and the slot's icon between the workspace padding.
pub open spec fn spec_slot_fragment(
    screen: Seq<char>,
    cfg: Config,
    colors: Colors,
    ws_cmd: Seq<char>,
    dc: int,
    ws: Seq<Workspace>,
    slot: int,
) -> Seq<char> {
    let cols = spec_style_colors(spec_slot_status(ws, screen, dc, slot), colors);
    spec_click_block(
        cols.0,
        cols.1,
        spec_switch_script(ws_cmd, slot + 1),
        cfg.ws_pad@ + seq![cfg.workspace_icons@[slot]] + cfg.ws_pad@,
    )
}

/// The first `n` slot fragments, concatenated in slot order.
pub open spec fn spec_ws_slots(
    screen: Seq<char>,
    cfg: Config,
    colors: Colors,
    ws_cmd: Seq<char>,
    dc: int,
    ws: Seq<Workspace>,
    n: int,
) -> Seq<char>
    decreases n,
{
    if n <= 0 {
        Seq::empty()
    } else {
        spec_ws_slots(screen, cfg, colors, ws_cmd, dc, ws, n - 1) + spec_slot_fragment(
            screen,
            cfg,
            colors,
            ws_cmd,
            dc,
            ws,
            n - 1,
        )
    }
}

/// The list of slot fragments, one per configured icon.
pub open spec fn spec_slot_list(
    screen: Seq<char>,
    cfg: Config,
    colors: Colors,
    ws_cmd: Seq<char>,
    dc: int,
    ws: Seq<Workspace>,
    n: int,
) -> Seq<Seq<char>> {
    Seq::new(n as nat, |i: int| spec_slot_fragment(screen, cfg, colors, ws_cmd, dc, ws, i))
}

/// The workspace fragment is the flattening of exactly `n` slot
/// sub-fragments, where `n` is the configured icon count, and each
/// sub-fragment wraps its icon in the configured workspace padding inside
/// one styled, clickable block.
pub proof fn lemma_ws_fragment_slots(
    screen: Seq<char>,
    cfg: Config,
    colors: Colors,
    ws_cmd: Seq<char>,
    dc: int,
    ws: Seq<Workspace>,
    n: int,
)
    requires
        n >= 0,
    ensures
        spec_slot_list(screen, cfg, colors, ws_cmd, dc, ws, n).len() == n,
        spec_ws_slots(screen, cfg, colors, ws_cmd, dc, ws, n) == spec_slot_list(
            screen,
            cfg,
            colors,
            ws_cmd,
            dc,
            ws,
            n,
        ).flatten(),
        forall|i: int|
            0 <= i < n ==> spec_slot_list(screen, cfg, colors, ws_cmd, dc, ws, n)[i]
                == spec_click_block(
                spec_style_colors(spec_slot_status(ws, screen, dc, i), colors).0,
                spec_style_colors(spec_slot_status(ws, screen, dc, i), colors).1,
                spec_switch_script(ws_cmd, i + 1),
                cfg.ws_pad@ + seq![cfg.workspace_icons@[i]] + cfg.ws_pad@,
            ),
    decreases n,
{
    let l = spec_slot_list(screen, cfg, colors, ws_cmd, dc, ws, n);
    if n == 0 {
        assert(l.len() == 0);
        assert(l.flatten() =~= Seq::<char>::empty());
    } else {
        lemma_ws_fragment_slots(screen, cfg, colors, ws_cmd, dc, ws, n - 1);
        let prev = spec_slot_list(screen, cfg, colors, ws_cmd, dc, ws, n - 1);
        let frag = spec_slot_fragment(screen, cfg, colors, ws_cmd, dc, ws, n - 1);
        assert(l =~= prev.push(frag));
        prev.lemma_flatten_push(frag);
    }
}

/// Renders the workspace fragment of one screen: one slot per configured
/// icon, in slot order, closed by the markup reset.
pub fn get_ws(
    screen: &String,
    config: &Config,
    colors: &Colors,
    cmds: &Executables,
    display_count: &i32,
    workspaces: &Vec<Workspace>,
) -> (r: String)
    requires
        *display_count >= 1,
        forall|k: int| 0 <= k < workspaces@.len() ==> (#[trigger] workspaces@[k]).num >= 1,
    ensures
        r@ == spec_ws_slots(
            screen@,
            *config,
            *colors,
            cmds.ws@,
            *display_count as int,
            workspaces@,
            config.workspace_icons@.len() as int,
        ) + reset_marks(),
{
    let ghost dc: int = *display_count as int;
    let n = config.workspace_icons.as_str().unicode_len();
    let mut result = String::new();
    let mut i: usize = 0;
    while i < n
        invariant
            i <= n,
            n == config.workspace_icons@.len(),
            *display_count >= 1,
            dc == *display_count as int,
            forall|k: int| 0 <= k < workspaces@.len() ==> (#[trigger] workspaces@[k]).num >= 1,
            result@ == spec_ws_slots(
                screen@,
                *config,
                *colors,
                cmds.ws@,
                dc,
                workspaces@,
                i as int,
            ),
        decreases n - i,
    {
        let mut ws_index: Option<usize> = None;
        let mut x: usize = 0;
        while x < workspaces.len()
            invariant
                x <= workspaces@.len(),
                *display_count >= 1,
                dc == *display_count as int,
                forall|k: int| 0 <= k < workspaces@.len() ==> (#[trigger] workspaces@[k]).num >= 1,
                match ws_index {
                    Some(xi) => xi < x && spec_slot_match(
                        workspaces@.take(x as int),
                        screen@,
                        dc,
                        i as int,
                    ) == Some(xi as int),
                    None => spec_slot_match(workspaces@.take(x as int), screen@, dc, i as int)
                        is None,
                },
            decreases workspaces@.len() - x,
        {
            let w = &workspaces[x];
            if w.output == *screen {
                let zero_based: u32 = (w.num - 1) as u32;
                let normed: u32 = zero_based / (*display_count as u32);
                if normed as usize == i {
                    ws_index = Some(x);
                }
            }
            proof {
                let taken = workspaces@.take(x as int + 1);
                assert(taken.drop_last() =~= workspaces@.take(x as int));
                assert(taken.last() == workspaces@[x as int]);
            }
            x = x + 1;
        }
        proof {
            assert(workspaces@.take(workspaces@.len() as int) =~= workspaces@);
        }
        let found: Option<(bool, bool)> = match ws_index {
            None => None,
            Some(xi) => Some((workspaces[xi].visible, workspaces[xi].urgent)),
        };
        let style = classify_slot(found);
        let cols = style_colors(style, colors);
        let script = switch_script(cmds.ws.as_str(), (i as u64) + 1);
        let icon_seg = config.workspace_icons.as_str().substring_char(i, i + 1);
        let mut body = String::new();
        body.append(config.ws_pad.as_str());
        body.append(icon_seg);
        body.append(config.ws_pad.as_str());
        let block = click_block(cols.0, cols.1, script.as_str(), body.as_str());
        result.append(block.as_str());
        proof {
            assert(icon_seg@ =~= seq![config.workspace_icons@[i as int]]);
            assert(body@ =~= config.ws_pad@ + seq![config.workspace_icons@[i as int]]
                + config.ws_pad@);
            assert(result@ =~= spec_ws_slots(
                screen@,
                *config,
                *colors,
                cmds.ws@,
                dc,
                workspaces@,
                i as int + 1,
            ));
        }
        i = i + 1;
    }
    add_reset(&result)
}

// ---------------------------------------------------------------------------
// The self-healing fetch policy: one request, on failure one reconnect and
// one retry, then an empty list until the next tick.
// ---------------------------------------------------------------------------

/// The state of one tick's workspace fetch: about to make the first
/// request, about to retry on a fresh connection, or finished.
pub enum FetchState {
    FirstTry,
    Retrying,
    Done(Vec<Workspace>),
}

/// The transition relation of the fetch policy. `reply` is what the request
/// returned, `None` standing for any failure: a first failure moves to the
/// retry, a second failure ends the tick with the empty list, and a reply
/// ends the tick with that list.
pub open spec fn spec_fetch_step(
    state: FetchState,
    reply: Option<Seq<Workspace>>,
    next: FetchState,
) -> bool {
    match state {
        FetchState::FirstTry => match reply {
            Some(ws) => next matches FetchState::Done(out) && out@ == ws,
            None => next is Retrying,
        },
        FetchState::Retrying => match reply {
            Some(ws) => next matches FetchState::Done(out) && out@ == ws,
            None => next matches FetchState::Done(out) && out@ == Seq::<Workspace>::empty(),
        },
        FetchState::Done(_) => false,
    }
}

/// The workspace list a finished fetch carries.
pub open spec fn spec_fetch_done(state: FetchState) -> Option<Seq<Workspace>> {
    match state {
        FetchState::Done(out) => Some(out@),
        _ => None,
    }
}

/// Advances the fetch policy by one observed reply.
pub fn fetch_step(state: FetchState, reply: Option<Vec<Workspace>>) -> (next: FetchState)
    requires
        !(state is Done),
    ensures
        spec_fetch_step(
            state,
            match reply {
                Some(ws) => Some(ws@),
                None => None,
            },
            next,
        ),
{
    match state {
        FetchState::FirstTry => match reply {
            Some(ws) => FetchState::Done(ws),
            None => FetchState::Retrying,
        },
        FetchState::Retrying => match reply {
            Some(ws) => FetchState::Done(ws),
            None => {
                let empty: Vec<Workspace> = Vec::new();
                FetchState::Done(empty)
            },
        },
        FetchState::Done(out) => FetchState::Done(out),
    }
}

/// Two consecutive fetch failures within one tick end with the empty
/// workspace list — never with an abort — and leave the next tick free to
/// start over.
pub proof fn lemma_two_failures_yield_empty(s1: FetchState, s2: FetchState)
    requires
        spec_fetch_step(FetchState::FirstTry, None, s1),
        spec_fetch_step(s1, None, s2),
    ensures
        spec_fetch_done(s2) == Some(Seq::<Workspace>::empty()),
{
}

/// A reply on the first request ends the tick with exactly that list.
pub proof fn lemma_first_reply_is_kept(ws: Seq<Workspace>, s1: FetchState)
    requires
        spec_fetch_step(FetchState::FirstTry, Some(ws), s1),
    ensures
        spec_fetch_done(s1) == Some(ws),
{
}

/// A reply on the retry, after a first failure, ends the tick with exactly
/// that list.
pub proof fn lemma_retry_reply_is_kept(ws: Seq<Workspace>, s1: FetchState, s2: FetchState)
    requires
        spec_fetch_step(FetchState::FirstTry, None, s1),
        spec_fetch_step(s1, Some(ws), s2),
    ensures
        spec_fetch_done(s2) == Some(ws),
{
}

} // verus!
