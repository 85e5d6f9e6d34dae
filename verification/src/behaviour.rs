//! What each operation does, stated field by field over its inputs and its
//! result.

use vstd::prelude::*;
use crate::board::{
    Message, SoulboardView, created_team, effect_of, EffectView, named_side, next_board,
    winner_label,
};
use crate::controls::{
    TeamSide, cycle_slot_winner, select_line_map, select_slot_map, select_slot_mode, swap_sides,
    toggle_line_status, toggle_use,
};
use crate::model::{
    MapEntryView, MapStatus, SlotWinner, TeamStateView, default_state, resized, score,
    scores_follow_winners, wins,
};
use crate::payload::{first_named, on_air, payload_of};
use crate::teams::team_name_problem;
use crate::text::{is_white_space, trim_back, trim_front, trimmed};

verus! {

/// Whether `o` is a present, non-empty name.
pub open spec fn has_name(o: Option<Seq<char>>) -> bool {
    &&& o is Some
    &&& o->0.len() > 0
}

/// The map (`modes` false) or mode (`modes` true) named by slot `k`.
pub open spec fn slot_part(s: TeamStateView, k: int, modes: bool) -> Option<Seq<char>> {
    if modes {
        s.map_mode_slots[k].1
    } else {
        s.map_mode_slots[k].0
    }
}

/// The first non-empty name of a sequence: none when no entry has one, else
/// the entry at the first index that has one.
proof fn lemma_first_named(names: Seq<Option<Seq<char>>>)
    ensures
        first_named(names) is None <==> forall|k: int| 0 <= k < names.len() ==> !has_name(#[trigger] names[k]),
        first_named(names) is Some ==> exists|k: int|
            0 <= k < names.len() && names[k] == first_named(names) && has_name(names[k])
                && forall|j: int| 0 <= j < k ==> !has_name(#[trigger] names[j]),
    decreases names.len(),
{
    if names.len() > 0 {
        let rest = names.drop_first();
        lemma_first_named(rest);
        if !has_name(names[0]) {
            assert forall|k: int| 0 <= k < rest.len() implies rest[k] == names[k + 1] by {}
            if first_named(rest) is None {
                assert forall|k: int| 0 <= k < names.len() implies !has_name(#[trigger] names[k]) by {
                    if k > 0 {
                        assert(rest[k - 1] == names[k]);
                    }
                }
            } else {
                let k = choose|k: int|
                    0 <= k < rest.len() && rest[k] == first_named(rest) && has_name(rest[k])
                        && forall|j: int| 0 <= j < k ==> !has_name(#[trigger] rest[j]);
                assert(names[k + 1] == rest[k]);
                assert forall|j: int| 0 <= j < k + 1 implies !has_name(#[trigger] names[j]) by {
                    if j > 0 {
                        assert(rest[j - 1] == names[j]);
                    }
                }
            }
        } else {
            assert(names[0] == first_named(names));
        }
    }
}

/// The map and mode on air: those of the slot in use when it names them;
/// otherwise nothing when no slot names one, and else the one named by the
/// first slot that names one.
pub proof fn law_on_air(s: TeamStateView, modes: bool)
    ensures
        s.selected_slot matches Some(i) && i < s.map_mode_slots.len() && has_name(slot_part(s, i as int, modes))
            ==> on_air(s, modes) == slot_part(s, s.selected_slot->0 as int, modes),
        !(s.selected_slot matches Some(i) && i < s.map_mode_slots.len() && has_name(slot_part(s, i as int, modes)))
            ==> {
            &&& on_air(s, modes) is None <==> forall|k: int|
                0 <= k < s.map_mode_slots.len() ==> !has_name(#[trigger] slot_part(s, k, modes))
            &&& on_air(s, modes) is Some ==> exists|k: int|
                0 <= k < s.map_mode_slots.len() && slot_part(s, k, modes) == on_air(s, modes)
                    && has_name(slot_part(s, k, modes))
                    && forall|j: int| 0 <= j < k ==> !has_name(#[trigger] slot_part(s, j, modes))
        },
{
    let names = crate::payload::slot_names(s.map_mode_slots, modes);
    assert forall|k: int| 0 <= k < s.map_mode_slots.len() implies #[trigger] names[k] == slot_part(s, k, modes) by {}
    lemma_first_named(names);
    if !(s.selected_slot matches Some(i) && i < s.map_mode_slots.len() && has_name(slot_part(s, i as int, modes))) {
        if on_air(s, modes) is None {
            assert forall|k: int| 0 <= k < s.map_mode_slots.len() implies !has_name(#[trigger] slot_part(s, k, modes)) by {
                assert(names[k] == slot_part(s, k, modes));
            }
        } else {
            let k = choose|k: int|
                0 <= k < names.len() && names[k] == first_named(names) && has_name(names[k])
                    && forall|j: int| 0 <= j < k ==> !has_name(#[trigger] names[j]);
            assert(names[k] == slot_part(s, k, modes));
            assert forall|j: int| 0 <= j < k implies !has_name(#[trigger] slot_part(s, j, modes)) by {
                assert(names[j] == slot_part(s, j, modes));
            }
        }
    }
}

/// The published payload carries every field of the state, each in the
/// field of the same name, except the slot list and the slot in use, which
/// give the map and mode on air.
pub proof fn law_payload_fields(s: TeamStateView)
    ensures
        payload_of(s).description == s.description,
        payload_of(s).commentator_a == s.commentator_a,
        payload_of(s).commentator_b == s.commentator_b,
        payload_of(s).team_a_name == s.team_a_name,
        payload_of(s).team_b_name == s.team_b_name,
        payload_of(s).team_a_full == s.team_a_full,
        payload_of(s).team_a_trunc == s.team_a_trunc,
        payload_of(s).team_a_dir == s.team_a_dir,
        payload_of(s).team_b_full == s.team_b_full,
        payload_of(s).team_b_trunc == s.team_b_trunc,
        payload_of(s).team_b_dir == s.team_b_dir,
        payload_of(s).team_a == s.team_a,
        payload_of(s).team_b == s.team_b,
        payload_of(s).mode_lines == s.mode_lines,
        payload_of(s).slot_winners == s.slot_winners,
        payload_of(s).map == on_air(s, false),
        payload_of(s).mode == on_air(s, true),
{
}

/// The winner of a slot once the teams change sides.
pub open spec fn other_side(w: SlotWinner) -> SlotWinner {
    if w == SlotWinner::TeamA {
        SlotWinner::TeamB
    } else if w == SlotWinner::TeamB {
        SlotWinner::TeamA
    } else {
        SlotWinner::Undecided
    }
}

/// Swapping sides: every per-side field holds the other side's old value,
/// every slot keeps its winning team (now on the other side), one winner per
/// slot, and nothing else changes.
pub proof fn law_swap_sides(s: TeamStateView)
    ensures
        swap_sides(s).team_a == s.team_b,
        swap_sides(s).team_b == s.team_a,
        swap_sides(s).team_a_name == s.team_b_name,
        swap_sides(s).team_b_name == s.team_a_name,
        swap_sides(s).team_a_full == s.team_b_full,
        swap_sides(s).team_b_full == s.team_a_full,
        swap_sides(s).team_a_trunc == s.team_b_trunc,
        swap_sides(s).team_b_trunc == s.team_a_trunc,
        swap_sides(s).team_a_dir == s.team_b_dir,
        swap_sides(s).team_b_dir == s.team_a_dir,
        swap_sides(s).slot_winners.len() == s.map_mode_slots.len(),
        forall|i: int|
            0 <= i < s.map_mode_slots.len() ==> #[trigger] swap_sides(s).slot_winners[i] == if i
                < s.slot_winners.len() {
                other_side(s.slot_winners[i])
            } else {
                SlotWinner::Undecided
            },
        swap_sides(s).description == s.description,
        swap_sides(s).commentator_a == s.commentator_a,
        swap_sides(s).commentator_b == s.commentator_b,
        swap_sides(s).map_mode_slots == s.map_mode_slots,
        swap_sides(s).mode_lines == s.mode_lines,
        swap_sides(s).selected_slot == s.selected_slot,
{
}

/// Swapping the teams through an update moves the scores with the teams,
/// when they follow the slot winners and there is one winner per slot.
pub proof fn law_swap_moves_scores(b: SoulboardView)
    requires
        scores_follow_winners(b.state),
        b.state.slot_winners.len() == b.state.map_mode_slots.len(),
    ensures
        next_board(b, Message::SwapTeams).state.team_a == b.state.team_b,
        next_board(b, Message::SwapTeams).state.team_b == b.state.team_a,
        next_board(b, Message::SwapTeams).state.team_a_full == b.state.team_b_full,
        next_board(b, Message::SwapTeams).state.team_b_full == b.state.team_a_full,
        next_board(b, Message::SwapTeams).state.team_a_name == b.state.team_b_name,
        next_board(b, Message::SwapTeams).state.team_b_name == b.state.team_a_name,
{
    let ws = b.state.slot_winners;
    assert(resized(ws, b.state.map_mode_slots.len()) =~= ws);
    crate::laws::lemma_wins_swapped(ws);
}

/// Whether `t` equals `s` in every cell of the grid but cell `(mid, midx)`,
/// with the same columns and names, and in every other field.
pub open spec fn same_but_cell(s: TeamStateView, t: TeamStateView, mid: int, midx: int) -> bool {
    &&& t.mode_lines.len() == s.mode_lines.len()
    &&& forall|i: int|
        0 <= i < s.mode_lines.len() ==> (#[trigger] t.mode_lines[i]).name == s.mode_lines[i].name
            && t.mode_lines[i].maps.len() == s.mode_lines[i].maps.len()
    &&& forall|i: int, j: int|
        0 <= i < s.mode_lines.len() && 0 <= j < s.mode_lines[i].maps.len() && (i != mid || j != midx)
            ==> #[trigger] t.mode_lines[i].maps[j] == s.mode_lines[i].maps[j]
    &&& TeamStateView { mode_lines: s.mode_lines, ..t } == s
}

/// Naming the map of an existing grid cell sets that cell's map and keeps
/// its status; every other cell and field is unchanged. A cell that does not
/// exist changes nothing.
pub proof fn law_select_line_map(s: TeamStateView, mid: usize, midx: usize, sel: Seq<char>)
    ensures
        mid < s.mode_lines.len() && midx < s.mode_lines[mid as int].maps.len() ==> {
            &&& select_line_map(s, mid, midx, sel).mode_lines[mid as int].maps[midx as int] == MapEntryView {
                map: Some(sel),
                status: s.mode_lines[mid as int].maps[midx as int].status,
            }
            &&& same_but_cell(s, select_line_map(s, mid, midx, sel), mid as int, midx as int)
        },
        !(mid < s.mode_lines.len() && midx < s.mode_lines[mid as int].maps.len()) ==> select_line_map(
            s,
            mid,
            midx,
            sel,
        ) == s,
{
    let t = select_line_map(s, mid, midx, sel);
    if mid < s.mode_lines.len() && midx < s.mode_lines[mid as int].maps.len() {
        assert(TeamStateView { mode_lines: s.mode_lines, ..t } =~~= s);
    }
}

/// Choosing a status for an existing grid cell: the cell ends unmarked when
/// it already had that status or the status chosen is "unmarked", and with
/// the chosen status otherwise; its map name and every other cell and field
/// are unchanged. A cell that does not exist changes nothing.
pub proof fn law_toggle_line_status(s: TeamStateView, mid: usize, midx: usize, status: MapStatus)
    ensures
        mid < s.mode_lines.len() && midx < s.mode_lines[mid as int].maps.len() ==> {
            let before = s.mode_lines[mid as int].maps[midx as int];
            let after = toggle_line_status(s, mid, midx, status).mode_lines[mid as int].maps[midx as int];
            &&& after.map == before.map
            &&& (after.status == MapStatus::Unmarked <==> (before.status == status || status
                == MapStatus::Unmarked))
            &&& after.status != MapStatus::Unmarked ==> after.status == status
            &&& same_but_cell(s, toggle_line_status(s, mid, midx, status), mid as int, midx as int)
        },
        !(mid < s.mode_lines.len() && midx < s.mode_lines[mid as int].maps.len()) ==> toggle_line_status(
            s,
            mid,
            midx,
            status,
        ) == s,
{
    let t = toggle_line_status(s, mid, midx, status);
    if mid < s.mode_lines.len() && midx < s.mode_lines[mid as int].maps.len() {
        assert(TeamStateView { mode_lines: s.mode_lines, ..t } =~~= s);
    }
}

/// Whether `t` equals `s` in every slot but slot `idx` and in every other
/// field.
pub open spec fn same_but_slot(s: TeamStateView, t: TeamStateView, idx: int) -> bool {
    &&& t.map_mode_slots.len() == s.map_mode_slots.len()
    &&& forall|k: int|
        0 <= k < s.map_mode_slots.len() && k != idx ==> #[trigger] t.map_mode_slots[k] == s.map_mode_slots[k]
    &&& TeamStateView { map_mode_slots: s.map_mode_slots, ..t } == s
}

/// Choosing the map of an existing slot sets only that slot's map: its mode,
/// every other slot and every other field are unchanged; choosing its mode
/// likewise sets only its mode. A slot that does not exist changes nothing.
pub proof fn law_select_slot(s: TeamStateView, idx: usize, sel: Seq<char>)
    ensures
        idx < s.map_mode_slots.len() ==> {
            &&& select_slot_map(s, idx, sel).map_mode_slots[idx as int] == (
                Some(sel),
                s.map_mode_slots[idx as int].1,
            )
            &&& same_but_slot(s, select_slot_map(s, idx, sel), idx as int)
            &&& select_slot_mode(s, idx, sel).map_mode_slots[idx as int] == (
                s.map_mode_slots[idx as int].0,
                Some(sel),
            )
            &&& same_but_slot(s, select_slot_mode(s, idx, sel), idx as int)
        },
        idx >= s.map_mode_slots.len() ==> select_slot_map(s, idx, sel) == s && select_slot_mode(s, idx, sel)
            == s,
{
    if idx < s.map_mode_slots.len() {
        assert(TeamStateView { map_mode_slots: s.map_mode_slots, ..select_slot_map(s, idx, sel) } =~= s);
        assert(TeamStateView { map_mode_slots: s.map_mode_slots, ..select_slot_mode(s, idx, sel) } =~= s);
    }
}

/// The "use" box: checking slot `idx` makes it the slot in use; unchecking
/// it leaves no slot in use when it was in use and changes nothing
/// otherwise; no other field changes.
pub proof fn law_toggle_use(s: TeamStateView, idx: usize, on: bool)
    ensures
        on ==> toggle_use(s, idx, on).selected_slot == Some(idx),
        !on && s.selected_slot == Some(idx) ==> (toggle_use(s, idx, on).selected_slot is None),
        !on && s.selected_slot != Some(idx) ==> toggle_use(s, idx, on) == s,
        (TeamStateView { selected_slot: s.selected_slot, ..toggle_use(s, idx, on) }) == s,
{
}

/// A winner button moves its slot from undecided to team A, to team B, and
/// back to undecided; the winner list gets one entry per slot, new entries
/// undecided, and no other slot or field changes.
pub proof fn law_cycle_slot_winner(s: TeamStateView, idx: usize)
    ensures
        cycle_slot_winner(s, idx).slot_winners.len() == s.map_mode_slots.len(),
        forall|k: int|
            0 <= k < s.map_mode_slots.len() && k != idx ==> #[trigger] cycle_slot_winner(s, idx).slot_winners[k]
                == if k < s.slot_winners.len() {
                s.slot_winners[k]
            } else {
                SlotWinner::Undecided
            },
        idx < s.map_mode_slots.len() ==> {
            let before = if idx < s.slot_winners.len() {
                s.slot_winners[idx as int]
            } else {
                SlotWinner::Undecided
            };
            let after = cycle_slot_winner(s, idx).slot_winners[idx as int];
            &&& before == SlotWinner::Undecided ==> after == SlotWinner::TeamA
            &&& before == SlotWinner::TeamA ==> after == SlotWinner::TeamB
            &&& before == SlotWinner::TeamB ==> after == SlotWinner::Undecided
        },
        (TeamStateView { slot_winners: s.slot_winners, ..cycle_slot_winner(s, idx) }) == s,
{
}

/// Fitting the winner list to `n` slots keeps the first `n` winners and
/// pads with undecided slots.
pub proof fn law_resized(ws: Seq<SlotWinner>, n: nat)
    ensures
        resized(ws, n).len() == n,
        forall|i: int| 0 <= i < n && i < ws.len() ==> #[trigger] resized(ws, n)[i] == ws[i],
        forall|i: int| ws.len() <= i < n ==> #[trigger] resized(ws, n)[i] == SlotWinner::Undecided,
{
}

/// A team's win count is the number of slots whose winner it is.
pub proof fn law_wins_count(ws: Seq<SlotWinner>, w: SlotWinner)
    ensures
        wins(ws, w) == ws.filter(|x: SlotWinner| x == w).len(),
    decreases ws.len(),
{
    reveal(Seq::filter);
    if ws.len() > 0 {
        law_wins_count(ws.drop_last(), w);
    }
}

/// The score is the win count, unless that passes `i32::MAX`.
pub proof fn law_score(ws: Seq<SlotWinner>, w: SlotWinner)
    ensures
        ws.filter(|x: SlotWinner| x == w).len() <= i32::MAX ==> score(ws, w) == ws.filter(
            |x: SlotWinner| x == w,
        ).len(),
{
    law_wins_count(ws, w);
}

/// Showing a team loaded from directory `dir` on a side: its full name is
/// the trimmed full-name file (or `dir` when unreadable), its short name the
/// trimmed short-name file (or `dir`), its display name the short name, its
/// directory `dir`; the other side and every other field are unchanged. An
/// empty `dir` empties the side.
pub proof fn law_named_side(
    s: TeamStateView,
    side: TeamSide,
    dir: Seq<char>,
    full_file: Option<String>,
    trunc_file: Option<String>,
)
    ensures
        ({
            let t = named_side(s, side, dir, full_file, trunc_file);
            let full = match full_file {
                Some(c) => trimmed(c@),
                None => trimmed(dir),
            };
            let trunc = match trunc_file {
                Some(c) => trimmed(c@),
                None => trimmed(dir),
            };
            &&& side == TeamSide::A && dir.len() > 0 ==> {
                &&& t.team_a_full == full
                &&& t.team_a_trunc == trunc
                &&& t.team_a_name == trunc
                &&& t.team_a_name == t.team_a_trunc
                &&& t.team_a_dir == dir
                &&& TeamStateView {
                    team_a_full: s.team_a_full,
                    team_a_trunc: s.team_a_trunc,
                    team_a_name: s.team_a_name,
                    team_a_dir: s.team_a_dir,
                    ..t
                } == s
            }
            &&& side == TeamSide::B && dir.len() > 0 ==> {
                &&& t.team_b_full == full
                &&& t.team_b_trunc == trunc
                &&& t.team_b_name == trunc
                &&& t.team_b_name == t.team_b_trunc
                &&& t.team_b_dir == dir
                &&& TeamStateView {
                    team_b_full: s.team_b_full,
                    team_b_trunc: s.team_b_trunc,
                    team_b_name: s.team_b_name,
                    team_b_dir: s.team_b_dir,
                    ..t
                } == s
            }
            &&& side == TeamSide::A && dir.len() == 0 ==> t.team_a_full.len() == 0 && t.team_a_trunc.len()
                == 0 && t.team_a_name.len() == 0 && t.team_a_dir.len() == 0
            &&& side == TeamSide::B && dir.len() == 0 ==> t.team_b_full.len() == 0 && t.team_b_trunc.len()
                == 0 && t.team_b_name.len() == 0 && t.team_b_dir.len() == 0
        }),
{
}

/// Choosing no team for a side empties its names and directory and changes
/// nothing else, when the scores follow the slot winners.
pub proof fn law_select_no_team(b: SoulboardView, sel: String)
    requires
        sel@.len() == 0,
        scores_follow_winners(b.state),
    ensures
        next_board(b, Message::SelectTeamA(sel)) == (SoulboardView {
            state: TeamStateView {
                team_a_full: Seq::empty(),
                team_a_trunc: Seq::empty(),
                team_a_name: Seq::empty(),
                team_a_dir: Seq::empty(),
                ..b.state
            },
            ..b
        }),
        next_board(b, Message::SelectTeamB(sel)) == (SoulboardView {
            state: TeamStateView {
                team_b_full: Seq::empty(),
                team_b_trunc: Seq::empty(),
                team_b_name: Seq::empty(),
                team_b_dir: Seq::empty(),
                ..b.state
            },
            ..b
        }),
        effect_of(b, Message::SelectTeamA(sel)) == EffectView::Publish,
{
    assert(next_board(b, Message::SelectTeamA(sel)) =~~= SoulboardView {
        state: TeamStateView {
            team_a_full: Seq::empty(),
            team_a_trunc: Seq::empty(),
            team_a_name: Seq::empty(),
            team_a_dir: Seq::empty(),
            ..b.state
        },
        ..b
    });
    assert(next_board(b, Message::SelectTeamB(sel)) =~~= SoulboardView {
        state: TeamStateView {
            team_b_full: Seq::empty(),
            team_b_trunc: Seq::empty(),
            team_b_name: Seq::empty(),
            team_b_dir: Seq::empty(),
            ..b.state
        },
        ..b
    });
}

/// Choosing a team for a side asks for its name files and changes nothing
/// yet, when the scores follow the slot winners.
pub proof fn law_select_team(b: SoulboardView, sel: String)
    requires
        sel@.len() > 0,
        scores_follow_winners(b.state),
    ensures
        next_board(b, Message::SelectTeamA(sel)) == b,
        next_board(b, Message::SelectTeamB(sel)) == b,
        effect_of(b, Message::SelectTeamA(sel)) == EffectView::LoadTeamNames(TeamSide::A, sel@),
        effect_of(b, Message::SelectTeamB(sel)) == EffectView::LoadTeamNames(TeamSide::B, sel@),
{
    assert(next_board(b, Message::SelectTeamA(sel)) =~~= b);
    assert(next_board(b, Message::SelectTeamB(sel)) =~~= b);
}

/// The text fields and the tab: each message sets its own field and nothing
/// else, when the scores follow the slot winners; editing the team form
/// empties its feedback.
pub proof fn law_text_fields(b: SoulboardView, v: String, tab: usize)
    requires
        scores_follow_winners(b.state),
    ensures
        next_board(b, Message::SetDescription(v)) == (SoulboardView {
            state: TeamStateView { description: v@, ..b.state },
            ..b
        }),
        next_board(b, Message::SetCommentatorA(v)) == (SoulboardView {
            state: TeamStateView { commentator_a: v@, ..b.state },
            ..b
        }),
        next_board(b, Message::SetCommentatorB(v)) == (SoulboardView {
            state: TeamStateView { commentator_b: v@, ..b.state },
            ..b
        }),
        next_board(b, Message::SwitchTab(tab)) == (SoulboardView { selected_tab: tab, ..b }),
        next_board(b, Message::SetCreateTeamFull(v)) == (SoulboardView {
            create_team_full_input: v@,
            create_team_feedback: Seq::empty(),
            create_team_feedback_is_error: false,
            ..b
        }),
        next_board(b, Message::SetCreateTeamTrunc(v)) == (SoulboardView {
            create_team_trunc_input: v@,
            create_team_feedback: Seq::empty(),
            create_team_feedback_is_error: false,
            ..b
        }),
{
    assert(next_board(b, Message::SetDescription(v)) =~~= SoulboardView {
        state: TeamStateView { description: v@, ..b.state },
        ..b
    });
    assert(next_board(b, Message::SetCommentatorA(v)) =~~= SoulboardView {
        state: TeamStateView { commentator_a: v@, ..b.state },
        ..b
    });
    assert(next_board(b, Message::SetCommentatorB(v)) =~~= SoulboardView {
        state: TeamStateView { commentator_b: v@, ..b.state },
        ..b
    });
    assert(next_board(b, Message::SwitchTab(tab)) =~~= SoulboardView { selected_tab: tab, ..b });
    assert(next_board(b, Message::SetCreateTeamFull(v)) =~~= SoulboardView {
        create_team_full_input: v@,
        create_team_feedback: Seq::empty(),
        create_team_feedback_is_error: false,
        ..b
    });
    assert(next_board(b, Message::SetCreateTeamTrunc(v)) =~~= SoulboardView {
        create_team_trunc_input: v@,
        create_team_feedback: Seq::empty(),
        create_team_feedback_is_error: false,
        ..b
    });
}

/// Picking a logo stores it and empties the feedback; opening the dialog
/// changes nothing.
pub proof fn law_logo(b: SoulboardView, p: Option<std::path::PathBuf>)
    requires
        scores_follow_winners(b.state),
    ensures
        next_board(b, Message::CreateTeamLogoPicked(p)) == (SoulboardView {
            create_team_logo_path: p,
            create_team_feedback: Seq::empty(),
            create_team_feedback_is_error: false,
            ..b
        }),
        next_board(b, Message::PickCreateTeamLogo) == b,
        effect_of(b, Message::PickCreateTeamLogo) == EffectView::PickLogo,
{
    assert(next_board(b, Message::CreateTeamLogoPicked(p)) =~~= SoulboardView {
        create_team_logo_path: p,
        create_team_feedback: Seq::empty(),
        create_team_feedback_is_error: false,
        ..b
    });
}

/// Submitting the team form: a blank full name, then a blank short name,
/// then a missing logo is reported as an error and nothing is created;
/// otherwise the team is created with the trimmed names and the dashboard
/// is unchanged until it is done.
pub proof fn law_submit(b: SoulboardView)
    requires
        scores_follow_winners(b.state),
    ensures
        ({
            let t = next_board(b, Message::SubmitCreateTeam);
            let e = effect_of(b, Message::SubmitCreateTeam);
            let full = trimmed(b.create_team_full_input);
            let trunc = trimmed(b.create_team_trunc_input);
            &&& full.len() == 0 ==> t.create_team_feedback == "Full name is required"@
                && t.create_team_feedback_is_error && e == EffectView::Publish
            &&& full.len() > 0 && trunc.len() == 0 ==> t.create_team_feedback == "Short name is required"@
                && t.create_team_feedback_is_error && e == EffectView::Publish
            &&& full.len() > 0 && trunc.len() > 0 && b.create_team_logo_path is None
                ==> t.create_team_feedback == "A logo file is required"@ && t.create_team_feedback_is_error
                && e == EffectView::Publish
            &&& full.len() > 0 && trunc.len() > 0 && b.create_team_logo_path is Some ==> t == b && e
                == EffectView::CreateTeam(full, trunc)
            &&& (SoulboardView {
                create_team_feedback: b.create_team_feedback,
                create_team_feedback_is_error: b.create_team_feedback_is_error,
                ..t
            }) == b
        }),
{
    let t = next_board(b, Message::SubmitCreateTeam);
    assert(t.state =~~= b.state);
}

/// The end of a team creation: on success the team list becomes the one
/// read afterwards, the form is emptied and says `Team "<full>" created
/// successfully`; on failure the error is shown and the form kept. Nothing
/// else changes.
pub proof fn law_created_team(b: SoulboardView, full: Seq<char>, outcome: Result<Seq<Seq<char>>, Seq<char>>)
    ensures
        outcome matches Ok(teams) ==> {
            let t = created_team(b, full, outcome);
            &&& t.available_teams == teams
            &&& t.create_team_feedback == "Team \""@ + full + "\" created successfully"@
            &&& !t.create_team_feedback_is_error
            &&& t.create_team_full_input.len() == 0
            &&& t.create_team_trunc_input.len() == 0
            &&& t.create_team_logo_path is None
            &&& t.state == b.state
            &&& t.selected_tab == b.selected_tab
        },
        outcome matches Err(e) ==> created_team(b, full, outcome) == (SoulboardView {
            create_team_feedback: e,
            create_team_feedback_is_error: true,
            ..b
        }),
{
}

/// A winner label reads "Winner: -" for an undecided slot, and otherwise
/// "Winner: " followed by the side's short name, else its display name,
/// else "Team A" or "Team B".
pub proof fn law_winner_label(s: TeamStateView)
    ensures
        winner_label(s, SlotWinner::Undecided) == "Winner: -"@,
        winner_label(s, SlotWinner::TeamA) == "Winner: "@ + if s.team_a_trunc.len() > 0 {
            s.team_a_trunc
        } else if s.team_a_name.len() > 0 {
            s.team_a_name
        } else {
            "Team A"@
        },
        winner_label(s, SlotWinner::TeamB) == "Winner: "@ + if s.team_b_trunc.len() > 0 {
            s.team_b_trunc
        } else if s.team_b_name.len() > 0 {
            s.team_b_name
        } else {
            "Team B"@
        },
{
}

/// A new team can be created exactly when its trimmed full and short names
/// are non-empty and its trimmed full name holds no `/` or `\`; the error
/// named is the first of these that fails.
pub proof fn law_team_name_problem(full: Seq<char>, trunc: Seq<char>)
    ensures
        team_name_problem(full, trunc) is None <==> (trimmed(full).len() > 0 && trimmed(trunc).len() > 0
            && !trimmed(full).contains('/') && !trimmed(full).contains('\\')),
        trimmed(full).len() == 0 ==> team_name_problem(full, trunc) == Some("Full name is required"@),
        trimmed(full).len() > 0 && trimmed(trunc).len() == 0 ==> team_name_problem(full, trunc) == Some(
            "Short name is required"@,
        ),
        trimmed(full).len() > 0 && trimmed(trunc).len() > 0 && (trimmed(full).contains('/') || trimmed(
            full,
        ).contains('\\')) ==> team_name_problem(full, trunc) == Some(
            "Full name cannot contain path separators"@,
        ),
{
}

/// Leading whitespace removal drops a whitespace prefix and keeps the rest.
proof fn lemma_trim_front_shape(s: Seq<char>)
    ensures
        exists|i: int|
            0 <= i <= s.len() && trim_front(s) == s.subrange(i, s.len() as int) && (forall|k: int|
                0 <= k < i ==> is_white_space(#[trigger] s[k])) && (i < s.len() ==> !is_white_space(s[i])),
    decreases s.len(),
{
    if s.len() > 0 && is_white_space(s[0]) {
        let r = s.drop_first();
        lemma_trim_front_shape(r);
        let i = choose|i: int|
            0 <= i <= r.len() && trim_front(r) == r.subrange(i, r.len() as int) && (forall|k: int|
                0 <= k < i ==> is_white_space(#[trigger] r[k])) && (i < r.len() ==> !is_white_space(r[i]));
        assert(r.subrange(i, r.len() as int) =~= s.subrange(i + 1, s.len() as int));
        assert forall|k: int| 0 <= k < i + 1 implies is_white_space(#[trigger] s[k]) by {
            if k > 0 {
                assert(r[k - 1] == s[k]);
            }
        }
        if i + 1 < s.len() {
            assert(r[i] == s[i + 1]);
        }
    } else {
        assert(s.subrange(0, s.len() as int) =~= s);
    }
}

/// Trailing whitespace removal drops a whitespace suffix and keeps the rest.
proof fn lemma_trim_back_shape(s: Seq<char>)
    ensures
        exists|j: int|
            0 <= j <= s.len() && trim_back(s) == s.subrange(0, j) && (forall|k: int|
                j <= k < s.len() ==> is_white_space(#[trigger] s[k])) && (j > 0 ==> !is_white_space(s[j - 1])),
    decreases s.len(),
{
    if s.len() > 0 && is_white_space(s.last()) {
        let r = s.drop_last();
        lemma_trim_back_shape(r);
        let j = choose|j: int|
            0 <= j <= r.len() && trim_back(r) == r.subrange(0, j) && (forall|k: int|
                j <= k < r.len() ==> is_white_space(#[trigger] r[k])) && (j > 0 ==> !is_white_space(r[j - 1]));
        assert(r.subrange(0, j) =~= s.subrange(0, j));
        assert forall|k: int| j <= k < s.len() implies is_white_space(#[trigger] s[k]) by {
            if k < r.len() {
                assert(r[k] == s[k]);
            }
        }
    } else {
        assert(s.subrange(0, s.len() as int) =~= s);
    }
}

/// A trimmed name is a stretch of the original name that neither starts nor
/// ends with whitespace, and everything cut off around it is whitespace.
pub proof fn law_trimmed_shape(s: Seq<char>)
    ensures
        exists|i: int, j: int|
            0 <= i <= j <= s.len() && trimmed(s) == s.subrange(i, j) && (forall|k: int|
                0 <= k < i ==> is_white_space(#[trigger] s[k])) && (forall|k: int|
                j <= k < s.len() ==> is_white_space(#[trigger] s[k])) && (i < j ==> !is_white_space(s[i])
                && !is_white_space(s[j - 1])),
{
    lemma_trim_front_shape(s);
    let i = choose|i: int|
        0 <= i <= s.len() && trim_front(s) == s.subrange(i, s.len() as int) && (forall|k: int|
            0 <= k < i ==> is_white_space(#[trigger] s[k])) && (i < s.len() ==> !is_white_space(s[i]));
    let f = trim_front(s);
    lemma_trim_back_shape(f);
    let j = choose|j: int|
        0 <= j <= f.len() && trim_back(f) == f.subrange(0, j) && (forall|k: int|
            j <= k < f.len() ==> is_white_space(#[trigger] f[k])) && (j > 0 ==> !is_white_space(f[j - 1]));
    assert(f.subrange(0, j) =~= s.subrange(i, i + j));
    assert forall|k: int| i + j <= k < s.len() implies is_white_space(#[trigger] s[k]) by {
        assert(f[k - i] == s[k]);
    }
    if j > 0 {
        assert(f[0] == s[i]);
        assert(f[j - 1] == s[i + j - 1]);
    }
    assert(trimmed(s) == s.subrange(i, i + j));
}

/// A fresh dashboard's names: the default names and description, no
/// commentators, no team directories, and no scores.
pub proof fn law_default_names()
    ensures
        default_state().description == "Competition - Stage X"@,
        default_state().team_a_name == "Team A"@ && default_state().team_a_full == "Team A"@
            && default_state().team_a_trunc == "Team A"@,
        default_state().team_b_name == "Team B"@ && default_state().team_b_full == "Team B"@
            && default_state().team_b_trunc == "Team B"@,
        default_state().commentator_a.len() == 0 && default_state().commentator_b.len() == 0,
        default_state().team_a_dir.len() == 0 && default_state().team_b_dir.len() == 0,
        default_state().team_a == 0 && default_state().team_b == 0,
{
}

/// A fresh dashboard's slots and grid: nine slots with empty map and mode,
/// no slot in use, no winners, and four named columns of eight empty,
/// unmarked cells.
pub proof fn law_default_layout()
    ensures
        default_state().map_mode_slots.len() == 9,
        forall|k: int|
            0 <= k < 9 ==> #[trigger] default_state().map_mode_slots[k] == (
                Some(Seq::<char>::empty()),
                Some(Seq::<char>::empty()),
            ),
        (default_state().selected_slot is None),
        default_state().slot_winners.len() == 0,
        default_state().mode_lines.len() == 4,
        default_state().mode_lines[0].name == "Splat Zones"@,
        default_state().mode_lines[1].name == "Tower Control"@,
        default_state().mode_lines[2].name == "Clam Blitz"@,
        default_state().mode_lines[3].name == "Rainmaker"@,
        forall|i: int, j: int|
            0 <= i < 4 && 0 <= j < 8 ==> #[trigger] default_state().mode_lines[i].maps[j] == (MapEntryView {
                map: None,
                status: MapStatus::Unmarked,
            }),
        forall|i: int| 0 <= i < 4 ==> (#[trigger] default_state().mode_lines[i]).maps.len() == 8,
{
}

/// After any update but the one opening the logo dialog, each team's score
/// is the number of slots whose winner it is (while that fits an `i32`).
pub proof fn law_scores_count(b: SoulboardView, m: Message)
    requires
        !(m is PickCreateTeamLogo),
    ensures
        ({
            let t = next_board(b, m).state;
            &&& t.slot_winners.filter(|x: SlotWinner| x == SlotWinner::TeamA).len() <= i32::MAX
                ==> t.team_a == t.slot_winners.filter(|x: SlotWinner| x == SlotWinner::TeamA).len()
            &&& t.slot_winners.filter(|x: SlotWinner| x == SlotWinner::TeamB).len() <= i32::MAX
                ==> t.team_b == t.slot_winners.filter(|x: SlotWinner| x == SlotWinner::TeamB).len()
        }),
{
    let t = next_board(b, m).state;
    law_score(t.slot_winners, SlotWinner::TeamA);
    law_score(t.slot_winners, SlotWinner::TeamB);
}

/// Only choosing a team, submitting the team form and opening the logo
/// dialog ask for outside work beyond publishing and saving.
pub proof fn law_effect_publish(b: SoulboardView, m: Message)
    requires
        !(m is SelectTeamA),
        !(m is SelectTeamB),
        !(m is SubmitCreateTeam),
        !(m is PickCreateTeamLogo),
    ensures
        effect_of(b, m) == EffectView::Publish,
{
}

/// Whether `t` is `f` but for the two scores.
pub open spec fn same_but_scores(t: TeamStateView, f: TeamStateView) -> bool {
    (TeamStateView { team_a: f.team_a, team_b: f.team_b, ..t }) == f
}

/// Each control message performs its own operation on the match state (the
/// scores then follow the winners) and leaves the rest of the dashboard
/// alone.
pub proof fn law_update_dispatch(b: SoulboardView, idx: usize, mid: usize, midx: usize, sel: String, status: MapStatus, on: bool)
    ensures
        same_but_scores(next_board(b, Message::SwapTeams).state, swap_sides(b.state)),
        same_but_scores(next_board(b, Message::ResetAll).state, crate::controls::reset_score(b.state)),
        same_but_scores(next_board(b, Message::ClearPicksBans).state, crate::controls::clear_picks_bans(b.state)),
        same_but_scores(next_board(b, Message::CycleSlotWinner(idx)).state, cycle_slot_winner(b.state, idx)),
        same_but_scores(next_board(b, Message::SelectMap(idx, sel)).state, select_slot_map(b.state, idx, sel@)),
        same_but_scores(next_board(b, Message::SelectMode(idx, sel)).state, select_slot_mode(b.state, idx, sel@)),
        same_but_scores(next_board(b, Message::ToggleUse(idx, on)).state, toggle_use(b.state, idx, on)),
        same_but_scores(
            next_board(b, Message::SelectModeLineMap(mid, midx, sel)).state,
            select_line_map(b.state, mid, midx, sel@),
        ),
        same_but_scores(
            next_board(b, Message::ToggleModeLineStatus(mid, midx, status)).state,
            toggle_line_status(b.state, mid, midx, status),
        ),
        (SoulboardView { state: b.state, ..next_board(b, Message::SwapTeams) }) == b,
        (SoulboardView { state: b.state, ..next_board(b, Message::ResetAll) }) == b,
        (SoulboardView { state: b.state, ..next_board(b, Message::ClearPicksBans) }) == b,
        (SoulboardView { state: b.state, ..next_board(b, Message::CycleSlotWinner(idx)) }) == b,
        (SoulboardView { state: b.state, ..next_board(b, Message::SelectMap(idx, sel)) }) == b,
        (SoulboardView { state: b.state, ..next_board(b, Message::SelectMode(idx, sel)) }) == b,
        (SoulboardView { state: b.state, ..next_board(b, Message::ToggleUse(idx, on)) }) == b,
        (SoulboardView { state: b.state, ..next_board(b, Message::SelectModeLineMap(mid, midx, sel)) }) == b,
        (SoulboardView { state: b.state, ..next_board(b, Message::ToggleModeLineStatus(mid, midx, status)) }) == b,
{
    assert(SoulboardView { state: b.state, ..next_board(b, Message::SwapTeams) } =~~= b);
    assert(SoulboardView { state: b.state, ..next_board(b, Message::ResetAll) } =~~= b);
    assert(SoulboardView { state: b.state, ..next_board(b, Message::ClearPicksBans) } =~~= b);
    assert(SoulboardView { state: b.state, ..next_board(b, Message::CycleSlotWinner(idx)) } =~~= b);
    assert(SoulboardView { state: b.state, ..next_board(b, Message::SelectMap(idx, sel)) } =~~= b);
    assert(SoulboardView { state: b.state, ..next_board(b, Message::SelectMode(idx, sel)) } =~~= b);
    assert(SoulboardView { state: b.state, ..next_board(b, Message::ToggleUse(idx, on)) } =~~= b);
    assert(SoulboardView { state: b.state, ..next_board(b, Message::SelectModeLineMap(mid, midx, sel)) } =~~= b);
    assert(SoulboardView { state: b.state, ..next_board(b, Message::ToggleModeLineStatus(mid, midx, status)) } =~~= b);
}

} // verus!
