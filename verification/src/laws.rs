//! Properties of the dashboard as a whole: what every update keeps, which
//! controls undo themselves, and what the overlay clients are shown.

use vstd::prelude::*;
use crate::board::{Message, SoulboardView, next_board, winner_label};
use crate::controls::{next_winner, swapped_winner, toggled};
use crate::model::{
    MapStatus, SlotWinner, TeamStateView, resized, scores_follow_winners, wins,
};
use crate::payload::{is_named, on_air, payload_of, slot_names};
use crate::text::{is_white_space, trim_back, trim_front, trimmed};

verus! {

/// Swapping every winner trades the two teams' win counts.
pub proof fn lemma_wins_swapped(ws: Seq<SlotWinner>)
    ensures
        wins(ws.map_values(|w: SlotWinner| swapped_winner(w)), SlotWinner::TeamA) == wins(ws, SlotWinner::TeamB),
        wins(ws.map_values(|w: SlotWinner| swapped_winner(w)), SlotWinner::TeamB) == wins(ws, SlotWinner::TeamA),
    decreases ws.len(),
{
    if ws.len() > 0 {
        let sw = ws.map_values(|w: SlotWinner| swapped_winner(w));
        assert(sw.drop_last() =~= ws.drop_last().map_values(|w: SlotWinner| swapped_winner(w)));
        lemma_wins_swapped(ws.drop_last());
    }
}

/// A winner list of the right length is kept as it is by fitting it.
proof fn lemma_resized_fitting(ws: Seq<SlotWinner>, n: nat)
    requires
        ws.len() == n,
    ensures
        resized(ws, n) == ws,
{
    assert(resized(ws, n) =~= ws);
}

/// No team wins a slot of an all-undecided list.
proof fn lemma_wins_undecided(n: nat, w: SlotWinner)
    requires
        w != SlotWinner::Undecided,
    ensures
        wins(Seq::new(n, |i: int| SlotWinner::Undecided), w) == 0,
    decreases n,
{
    if n > 0 {
        let ws = Seq::new(n, |i: int| SlotWinner::Undecided);
        assert(ws.drop_last() =~= Seq::new((n - 1) as nat, |i: int| SlotWinner::Undecided));
        lemma_wins_undecided((n - 1) as nat, w);
    }
}

/// Whether the winner list of `s` has one entry per map slot.
pub open spec fn winners_fit(s: TeamStateView) -> bool {
    s.slot_winners.len() == s.map_mode_slots.len()
}

/// After any update, each team's score is the number of map slots it won
/// (the logo dialog, which leaves the dashboard as it is, keeps this if it
/// held).
pub proof fn law_scores_follow_winners(b: SoulboardView, m: Message)
    requires
        m is PickCreateTeamLogo ==> scores_follow_winners(b.state),
    ensures
        scores_follow_winners(next_board(b, m).state),
{
}

/// Whether `t` has the map slots and the pick/ban grid shape of `s`: as
/// many slots, as many columns with the same names, and as many cells in
/// each column.
pub open spec fn same_layout(s: TeamStateView, t: TeamStateView) -> bool {
    &&& t.map_mode_slots.len() == s.map_mode_slots.len()
    &&& t.mode_lines.len() == s.mode_lines.len()
    &&& forall|i: int|
        0 <= i < s.mode_lines.len() ==> (#[trigger] t.mode_lines[i]).name == s.mode_lines[i].name
            && t.mode_lines[i].maps.len() == s.mode_lines[i].maps.len()
}

/// No update adds or removes a map slot, a pick/ban column or a cell.
pub proof fn law_layout_kept(b: SoulboardView, m: Message)
    ensures
        same_layout(b.state, next_board(b, m).state),
{
    let t = next_board(b, m).state;
    match m {
        Message::ClearPicksBans => {
            assert forall|i: int| 0 <= i < b.state.mode_lines.len() implies (#[trigger] t.mode_lines[i]).name
                == b.state.mode_lines[i].name && t.mode_lines[i].maps.len() == b.state.mode_lines[i].maps.len() by {
            }
        },
        _ => {},
    }
}

/// After any update the winner list has one entry per slot if it had
/// before, and after swapping the teams, resetting the score or pressing a
/// winner button it has one in any case.
pub proof fn law_winners_fit(b: SoulboardView, m: Message)
    requires
        winners_fit(b.state) || m is SwapTeams || m is ResetAll || m is CycleSlotWinner,
    ensures
        winners_fit(next_board(b, m).state),
{
}

/// Swapping the teams twice gives back the dashboard one started from,
/// when its scores follow its slot winners and it has one winner per slot.
pub proof fn law_swap_twice(b: SoulboardView)
    requires
        scores_follow_winners(b.state),
        winners_fit(b.state),
    ensures
        next_board(next_board(b, Message::SwapTeams), Message::SwapTeams) == b,
{
    let n = b.state.map_mode_slots.len();
    let ws = b.state.slot_winners;
    let sw = ws.map_values(|w: SlotWinner| swapped_winner(w));
    lemma_resized_fitting(ws, n);
    lemma_wins_swapped(ws);
    lemma_resized_fitting(sw, n);
    lemma_wins_swapped(sw);
    assert(sw.map_values(|w: SlotWinner| swapped_winner(w)) =~= ws);
    let b1 = next_board(b, Message::SwapTeams);
    assert(b1.state.slot_winners == sw);
    assert(next_board(b1, Message::SwapTeams) =~~= b);
}

/// Pressing a slot's winner button three times gives back the dashboard
/// one started from, when its scores follow its slot winners and it has one
/// winner per slot.
pub proof fn law_cycle_winner_thrice(b: SoulboardView, idx: usize)
    requires
        scores_follow_winners(b.state),
        winners_fit(b.state),
    ensures
        next_board(
            next_board(next_board(b, Message::CycleSlotWinner(idx)), Message::CycleSlotWinner(idx)),
            Message::CycleSlotWinner(idx),
        ) == b,
{
    let n = b.state.map_mode_slots.len();
    let ws = b.state.slot_winners;
    lemma_resized_fitting(ws, n);
    let b1 = next_board(b, Message::CycleSlotWinner(idx));
    lemma_resized_fitting(b1.state.slot_winners, n);
    let b2 = next_board(b1, Message::CycleSlotWinner(idx));
    lemma_resized_fitting(b2.state.slot_winners, n);
    let b3 = next_board(b2, Message::CycleSlotWinner(idx));
    if idx < n {
        assert(next_winner(next_winner(next_winner(ws[idx as int]))) == ws[idx as int]);
        assert(b3.state.slot_winners =~= ws);
    } else {
        assert(b3.state.slot_winners =~= ws);
    }
    assert(b3 =~~= b);
}

/// Choosing the same pick or ban for a grid cell twice gives back the
/// dashboard one started from, when its scores follow its slot winners and
/// the cell is unmarked or already has that status.
pub proof fn law_toggle_status_twice(b: SoulboardView, mid: usize, midx: usize, status: MapStatus)
    requires
        scores_follow_winners(b.state),
        crate::controls::has_cell(b.state, mid, midx) ==> crate::controls::cell(b.state, mid, midx).status
            == MapStatus::Unmarked || crate::controls::cell(b.state, mid, midx).status == status,
    ensures
        next_board(
            next_board(b, Message::ToggleModeLineStatus(mid, midx, status)),
            Message::ToggleModeLineStatus(mid, midx, status),
        ) == b,
{
    let b1 = next_board(b, Message::ToggleModeLineStatus(mid, midx, status));
    let b2 = next_board(b1, Message::ToggleModeLineStatus(mid, midx, status));
    if mid < b.state.mode_lines.len() && midx < b.state.mode_lines[mid as int].maps.len() {
        let cur = b.state.mode_lines[mid as int].maps[midx as int].status;
        assert(toggled(toggled(cur, status), status) == cur);
        assert(b2.state.mode_lines[mid as int].maps =~= b.state.mode_lines[mid as int].maps);
        assert(b2.state.mode_lines =~~= b.state.mode_lines);
    }
    assert(b2 =~~= b);
}

/// Choosing the unmarked status for a grid cell clears its pick or ban,
/// whatever it was.
pub proof fn law_unmark_clears(b: SoulboardView, mid: usize, midx: usize)
    requires
        crate::controls::has_cell(b.state, mid, midx),
    ensures
        crate::controls::cell(
            next_board(b, Message::ToggleModeLineStatus(mid, midx, MapStatus::Unmarked)).state,
            mid,
            midx,
        ).status == MapStatus::Unmarked,
{
}

/// Resetting the score leaves every slot undecided and both scores at zero.
pub proof fn law_reset_score(b: SoulboardView)
    ensures
        next_board(b, Message::ResetAll).state.team_a == 0,
        next_board(b, Message::ResetAll).state.team_b == 0,
        next_board(b, Message::ResetAll).state.slot_winners.len() == b.state.map_mode_slots.len(),
        forall|i: int|
            0 <= i < b.state.map_mode_slots.len() ==> #[trigger] next_board(b, Message::ResetAll).state.slot_winners[i]
                == SlotWinner::Undecided,
{
    lemma_wins_undecided(b.state.map_mode_slots.len(), SlotWinner::TeamA);
    lemma_wins_undecided(b.state.map_mode_slots.len(), SlotWinner::TeamB);
}

/// Clearing the picks and bans unmarks every cell of the grid and keeps the
/// columns and the map names.
pub proof fn law_clear_picks_bans(b: SoulboardView)
    ensures
        next_board(b, Message::ClearPicksBans).state.mode_lines.len() == b.state.mode_lines.len(),
        forall|i: int|
            0 <= i < b.state.mode_lines.len() ==> {
                &&& (#[trigger] next_board(b, Message::ClearPicksBans).state.mode_lines[i]).name
                    == b.state.mode_lines[i].name
                &&& next_board(b, Message::ClearPicksBans).state.mode_lines[i].maps.len()
                    == b.state.mode_lines[i].maps.len()
            },
        forall|i: int, j: int|
            0 <= i < b.state.mode_lines.len() && 0 <= j < b.state.mode_lines[i].maps.len() ==> {
                &&& (#[trigger] next_board(b, Message::ClearPicksBans).state.mode_lines[i].maps[j]).status
                    == MapStatus::Unmarked
                &&& next_board(b, Message::ClearPicksBans).state.mode_lines[i].maps[j].map
                    == b.state.mode_lines[i].maps[j].map
            },
{
}

/// Marking a slot for use puts its map and mode on air, where it names them.
pub proof fn law_used_slot_on_air(b: SoulboardView, idx: usize)
    requires
        idx < b.state.map_mode_slots.len(),
    ensures
        is_named(b.state.map_mode_slots[idx as int].0) ==> payload_of(
            next_board(b, Message::ToggleUse(idx, true)).state,
        ).map == b.state.map_mode_slots[idx as int].0,
        is_named(b.state.map_mode_slots[idx as int].1) ==> payload_of(
            next_board(b, Message::ToggleUse(idx, true)).state,
        ).mode == b.state.map_mode_slots[idx as int].1,
{
    let s1 = next_board(b, Message::ToggleUse(idx, true)).state;
    assert(s1.map_mode_slots == b.state.map_mode_slots);
    assert(slot_names(s1.map_mode_slots, false)[idx as int] == b.state.map_mode_slots[idx as int].0);
    assert(slot_names(s1.map_mode_slots, true)[idx as int] == b.state.map_mode_slots[idx as int].1);
}

/// A map or mode chosen for the slot in use is what the overlay clients are
/// shown.
pub proof fn law_selection_on_air(b: SoulboardView, idx: usize, sel: String)
    requires
        idx < b.state.map_mode_slots.len(),
        b.state.selected_slot == Some(idx),
        sel@.len() > 0,
    ensures
        payload_of(next_board(b, Message::SelectMap(idx, sel)).state).map == Some(sel@),
        payload_of(next_board(b, Message::SelectMode(idx, sel)).state).mode == Some(sel@),
{
    let s1 = next_board(b, Message::SelectMap(idx, sel)).state;
    assert(slot_names(s1.map_mode_slots, false)[idx as int] == Some(sel@));
    let s2 = next_board(b, Message::SelectMode(idx, sel)).state;
    assert(slot_names(s2.map_mode_slots, true)[idx as int] == Some(sel@));
}

/// Unchecking the slot in use takes it off air: no slot is in use, and the
/// first slot that names a map (and a mode) supplies it.
pub proof fn law_unused_slot_off_air(b: SoulboardView, idx: usize)
    requires
        b.state.selected_slot == Some(idx),
    ensures
        next_board(b, Message::ToggleUse(idx, false)).state.selected_slot is None,
        on_air(next_board(b, Message::ToggleUse(idx, false)).state, false) == crate::payload::first_named(
            slot_names(b.state.map_mode_slots, false),
        ),
{
}

/// Swapping the teams keeps every slot's winner label, when each team has
/// a short or display name of its own and there is one winner per slot: the
/// slot's winner changes side together with the team's names.
pub proof fn law_swap_keeps_winner_labels(b: SoulboardView, i: int)
    requires
        winners_fit(b.state),
        0 <= i < b.state.slot_winners.len(),
        b.state.team_a_trunc.len() > 0 || b.state.team_a_name.len() > 0,
        b.state.team_b_trunc.len() > 0 || b.state.team_b_name.len() > 0,
    ensures
        winner_label(
            next_board(b, Message::SwapTeams).state,
            next_board(b, Message::SwapTeams).state.slot_winners[i],
        ) == winner_label(b.state, b.state.slot_winners[i]),
{
    lemma_resized_fitting(b.state.slot_winners, b.state.map_mode_slots.len());
}

/// Leading whitespace, once removed, is gone.
proof fn lemma_trim_front_front(s: Seq<char>)
    ensures
        trim_front(trim_front(s)) == trim_front(s),
        trim_front(s).len() > 0 ==> !is_white_space(trim_front(s)[0]),
    decreases s.len(),
{
    if s.len() > 0 && is_white_space(s[0]) {
        lemma_trim_front_front(s.drop_first());
    }
}

/// Removing trailing whitespace keeps a non-whitespace first character.
proof fn lemma_trim_back_keeps_front(s: Seq<char>)
    requires
        s.len() > 0 ==> !is_white_space(s[0]),
    ensures
        trim_back(s).len() > 0 ==> !is_white_space(trim_back(s)[0]),
        trim_back(s).len() > 0 ==> !is_white_space(trim_back(s).last()),
        trim_back(trim_back(s)) == trim_back(s),
    decreases s.len(),
{
    if s.len() > 0 && is_white_space(s.last()) {
        let t = s.drop_last();
        assert(t.len() > 0 ==> t[0] == s[0]);
        lemma_trim_back_keeps_front(t);
    }
}

/// A string without leading whitespace keeps none.
proof fn lemma_trim_front_noop(s: Seq<char>)
    requires
        s.len() > 0 ==> !is_white_space(s[0]),
    ensures
        trim_front(s) == s,
{
}

/// Trimming a trimmed name changes nothing: the names the dashboard stores
/// after trimming have no surrounding whitespace.
pub proof fn law_trim_idempotent(s: Seq<char>)
    ensures
        trimmed(trimmed(s)) == trimmed(s),
{
    lemma_trim_front_front(s);
    let f = trim_front(s);
    lemma_trim_back_keeps_front(f);
    let t = trim_back(f);
    lemma_trim_front_noop(t);
}

} // verus!
