//! What each control of the dashboard does to the match state, as a function
//! on the model and as a method that performs it.

use vstd::prelude::*;
use crate::model::{
    MapEntryView, MapStatus, ModeLineView, SlotWinner, TeamState, TeamStateView, lines_view,
    resized,
};

verus! {

/// One of the two sides of the match.
#[derive(Debug, Clone, Copy, PartialEq, Eq, Structural)]
pub enum TeamSide {
    A,
    B,
}

/// The winner of a slot once the two teams have changed sides.
pub open spec fn swapped_winner(w: SlotWinner) -> SlotWinner {
    match w {
        SlotWinner::TeamA => SlotWinner::TeamB,
        SlotWinner::TeamB => SlotWinner::TeamA,
        SlotWinner::Undecided => SlotWinner::Undecided,
    }
}

/// The winner a slot shows after one more press of its winner button.
pub open spec fn next_winner(w: SlotWinner) -> SlotWinner {
    match w {
        SlotWinner::Undecided => SlotWinner::TeamA,
        SlotWinner::TeamA => SlotWinner::TeamB,
        SlotWinner::TeamB => SlotWinner::Undecided,
    }
}

/// The status of a pick/ban cell after choosing `chosen`: choosing the status
/// the cell already has clears it.
pub open spec fn toggled(current: MapStatus, chosen: MapStatus) -> MapStatus {
    if current == chosen {
        MapStatus::Unmarked
    } else {
        chosen
    }
}

/// The two teams change sides: scores, names and directories trade places,
/// and so does every decided slot winner.
pub open spec fn swap_sides(s: TeamStateView) -> TeamStateView {
    TeamStateView {
        team_a: s.team_b,
        team_b: s.team_a,
        team_a_name: s.team_b_name,
        team_b_name: s.team_a_name,
        team_a_full: s.team_b_full,
        team_b_full: s.team_a_full,
        team_a_trunc: s.team_b_trunc,
        team_b_trunc: s.team_a_trunc,
        team_a_dir: s.team_b_dir,
        team_b_dir: s.team_a_dir,
        slot_winners: resized(s.slot_winners, s.map_mode_slots.len()).map_values(
            |w: SlotWinner| swapped_winner(w),
        ),
        ..s
    }
}

/// Every slot undecided and both scores zero.
pub open spec fn reset_score(s: TeamStateView) -> TeamStateView {
    TeamStateView {
        slot_winners: Seq::new(s.map_mode_slots.len(), |i: int| SlotWinner::Undecided),
        team_a: 0,
        team_b: 0,
        ..s
    }
}

/// A pick/ban column with every cell unmarked and its map names kept.
pub open spec fn cleared_line(l: ModeLineView) -> ModeLineView {
    ModeLineView {
        maps: l.maps.map_values(|e: MapEntryView| MapEntryView { status: MapStatus::Unmarked, ..e }),
        ..l
    }
}

/// Every pick and ban of the grid removed.
pub open spec fn clear_picks_bans(s: TeamStateView) -> TeamStateView {
    TeamStateView { mode_lines: s.mode_lines.map_values(|l: ModeLineView| cleared_line(l)), ..s }
}

/// Slot `idx` shows map `sel`; nothing changes when there is no such slot.
pub open spec fn select_slot_map(s: TeamStateView, idx: usize, sel: Seq<char>) -> TeamStateView {
    if idx < s.map_mode_slots.len() {
        TeamStateView {
            map_mode_slots: s.map_mode_slots.update(
                idx as int,
                (Some(sel), s.map_mode_slots[idx as int].1),
            ),
            ..s
        }
    } else {
        s
    }
}

/// Slot `idx` shows mode `sel`; nothing changes when there is no such slot.
pub open spec fn select_slot_mode(s: TeamStateView, idx: usize, sel: Seq<char>) -> TeamStateView {
    if idx < s.map_mode_slots.len() {
        TeamStateView {
            map_mode_slots: s.map_mode_slots.update(
                idx as int,
                (s.map_mode_slots[idx as int].0, Some(sel)),
            ),
            ..s
        }
    } else {
        s
    }
}

/// The winner list is fitted to the slots, then slot `idx` (if any) moves on
/// to its next winner.
pub open spec fn cycle_slot_winner(s: TeamStateView, idx: usize) -> TeamStateView {
    let ws = resized(s.slot_winners, s.map_mode_slots.len());
    TeamStateView {
        slot_winners: if idx < ws.len() {
            ws.update(idx as int, next_winner(ws[idx as int]))
        } else {
            ws
        },
        ..s
    }
}

/// Whether the pick/ban grid has a cell at column `mid`, row `midx`.
pub open spec fn has_cell(s: TeamStateView, mid: usize, midx: usize) -> bool {
    mid < s.mode_lines.len() && midx < s.mode_lines[mid as int].maps.len()
}

/// The cell at column `mid`, row `midx`.
pub open spec fn cell(s: TeamStateView, mid: usize, midx: usize) -> MapEntryView {
    s.mode_lines[mid as int].maps[midx as int]
}

/// `s` with the cell at column `mid`, row `midx` replaced by `e`.
pub open spec fn with_cell(s: TeamStateView, mid: usize, midx: usize, e: MapEntryView) -> TeamStateView {
    TeamStateView {
        mode_lines: s.mode_lines.update(
            mid as int,
            ModeLineView {
                maps: s.mode_lines[mid as int].maps.update(midx as int, e),
                ..s.mode_lines[mid as int]
            },
        ),
        ..s
    }
}

/// The cell at column `mid`, row `midx` names map `sel`; nothing changes when
/// there is no such cell.
pub open spec fn select_line_map(s: TeamStateView, mid: usize, midx: usize, sel: Seq<char>) -> TeamStateView {
    if has_cell(s, mid, midx) {
        with_cell(s, mid, midx, MapEntryView { map: Some(sel), ..cell(s, mid, midx) })
    } else {
        s
    }
}

/// The cell at column `mid`, row `midx` takes status `status`, or loses it
/// when it has it already; nothing changes when there is no such cell.
pub open spec fn toggle_line_status(
    s: TeamStateView,
    mid: usize,
    midx: usize,
    status: MapStatus,
) -> TeamStateView {
    if has_cell(s, mid, midx) {
        with_cell(
            s,
            mid,
            midx,
            MapEntryView { status: toggled(cell(s, mid, midx).status, status), ..cell(s, mid, midx) },
        )
    } else {
        s
    }
}

/// Checking the "use" box of slot `idx` makes it the slot on air; unchecking
/// it takes it off air, if it was.
pub open spec fn toggle_use(s: TeamStateView, idx: usize, on: bool) -> TeamStateView {
    TeamStateView {
        selected_slot: if on {
            Some(idx)
        } else if s.selected_slot == Some(idx) {
            None
        } else {
            s.selected_slot
        },
        ..s
    }
}

/// The display names and directory of one side set to the given values.
pub open spec fn with_side_names(
    s: TeamStateView,
    side: TeamSide,
    full: Seq<char>,
    trunc: Seq<char>,
    name: Seq<char>,
    dir: Seq<char>,
) -> TeamStateView {
    match side {
        TeamSide::A => TeamStateView {
            team_a_full: full,
            team_a_trunc: trunc,
            team_a_name: name,
            team_a_dir: dir,
            ..s
        },
        TeamSide::B => TeamStateView {
            team_b_full: full,
            team_b_trunc: trunc,
            team_b_name: name,
            team_b_dir: dir,
            ..s
        },
    }
}

/// One side with no team chosen.
pub open spec fn clear_side(s: TeamStateView, side: TeamSide) -> TeamStateView {
    with_side_names(s, side, Seq::empty(), Seq::empty(), Seq::empty(), Seq::empty())
}

/// Lemma: the model of mode lines after replacing one line.
proof fn lemma_lines_view_update(lines: Seq<crate::model::ModeLine>, i: int, l: crate::model::ModeLine)
    requires
        0 <= i < lines.len(),
    ensures
        lines_view(lines.update(i, l)) == lines_view(lines).update(i, l@),
{
    assert(lines_view(lines.update(i, l)) =~= lines_view(lines).update(i, l@));
}

impl TeamState {
    /// The two teams change sides.
    pub fn swap_sides(&mut self)
        ensures
            final(self)@ == swap_sides(old(self)@),
    {
        std::mem::swap(&mut self.team_a, &mut self.team_b);
        std::mem::swap(&mut self.team_a_name, &mut self.team_b_name);
        std::mem::swap(&mut self.team_a_full, &mut self.team_b_full);
        std::mem::swap(&mut self.team_a_trunc, &mut self.team_b_trunc);
        std::mem::swap(&mut self.team_a_dir, &mut self.team_b_dir);
        self.ensure_slot_winners_len();
        let ghost fitted = self.slot_winners@;
        let n = self.slot_winners.len();
        let mut i: usize = 0;
        while i < n
            invariant
                i <= n,
                n == fitted.len(),
                self.slot_winners@.len() == n,
                self@ == (TeamStateView { slot_winners: self.slot_winners@, ..swap_sides(old(self)@) }),
                fitted == resized(old(self)@.slot_winners, old(self)@.map_mode_slots.len()),
                forall|k: int| 0 <= k < i ==> #[trigger] self.slot_winners@[k] == swapped_winner(fitted[k]),
                forall|k: int| i <= k < n ==> #[trigger] self.slot_winners@[k] == fitted[k],
            decreases n - i,
        {
            let w = self.slot_winners[i];
            let s = match w {
                SlotWinner::TeamA => SlotWinner::TeamB,
                SlotWinner::TeamB => SlotWinner::TeamA,
                SlotWinner::Undecided => SlotWinner::Undecided,
            };
            self.slot_winners.set(i, s);
            i = i + 1;
        }
        assert(self.slot_winners@ =~= swap_sides(old(self)@).slot_winners);
    }

    /// Every slot undecided and both scores zero.
    pub fn reset_score(&mut self)
        ensures
            final(self)@ == reset_score(old(self)@),
    {
        self.ensure_slot_winners_len();
        let n = self.slot_winners.len();
        let mut i: usize = 0;
        while i < n
            invariant
                i <= n,
                n == old(self)@.map_mode_slots.len(),
                self.slot_winners@.len() == n,
                self@ == (TeamStateView { slot_winners: self.slot_winners@, ..old(self)@ }),
                forall|k: int| 0 <= k < i ==> #[trigger] self.slot_winners@[k] == SlotWinner::Undecided,
            decreases n - i,
        {
            self.slot_winners.set(i, SlotWinner::Undecided);
            i = i + 1;
        }
        self.team_a = 0;
        self.team_b = 0;
        assert(self.slot_winners@ =~= reset_score(old(self)@).slot_winners);
    }

    /// Remove every pick and ban of the grid.
    pub fn clear_picks_bans(&mut self)
        ensures
            final(self)@ == clear_picks_bans(old(self)@),
    {
        let ghost start = lines_view(self.mode_lines@);
        let m = self.mode_lines.len();
        let mut i: usize = 0;
        while i < m
            invariant
                i <= m,
                m == start.len(),
                start == old(self)@.mode_lines,
                self.mode_lines@.len() == m,
                self@ == (TeamStateView { mode_lines: lines_view(self.mode_lines@), ..old(self)@ }),
                forall|p: int| 0 <= p < i ==> #[trigger] lines_view(self.mode_lines@)[p] == cleared_line(start[p]),
                forall|p: int| i <= p < m ==> #[trigger] lines_view(self.mode_lines@)[p] == start[p],
            decreases m - i,
        {
            let k = self.mode_lines[i].maps.len();
            assert(lines_view(self.mode_lines@)[i as int] == start[i as int]);
            let mut j: usize = 0;
            while j < k
                invariant
                    i < m,
                    j <= k,
                    m == start.len(),
                    start == old(self)@.mode_lines,
                    self.mode_lines@.len() == m,
                    k == start[i as int].maps.len(),
                    self@ == (TeamStateView { mode_lines: lines_view(self.mode_lines@), ..old(self)@ }),
                    forall|p: int| 0 <= p < i ==> #[trigger] lines_view(self.mode_lines@)[p] == cleared_line(start[p]),
                    forall|p: int| i < p < m ==> #[trigger] lines_view(self.mode_lines@)[p] == start[p],
                    lines_view(self.mode_lines@)[i as int].name == start[i as int].name,
                    lines_view(self.mode_lines@)[i as int].maps.len() == k,
                    forall|q: int| 0 <= q < j ==> #[trigger] lines_view(self.mode_lines@)[i as int].maps[q]
                        == cleared_line(start[i as int]).maps[q],
                    forall|q: int| j <= q < k ==> #[trigger] lines_view(self.mode_lines@)[i as int].maps[q]
                        == start[i as int].maps[q],
                decreases k - j,
            {
                let ghost before = self.mode_lines@;
                self.mode_lines[i].maps[j].status = MapStatus::Unmarked;
                proof {
                    let old_line = before[i as int];
                    let new_line = self.mode_lines@[i as int];
                    lemma_lines_view_update(before, i as int, new_line);
                    assert(self.mode_lines@ == before.update(i as int, new_line));
                    assert(new_line.maps@ == old_line.maps@.update(j as int, new_line.maps@[j as int]));
                    assert(new_line.maps@[j as int].map == old_line.maps@[j as int].map);
                    assert(lines_view(before)[i as int] == old_line@);
                    assert(lines_view(self.mode_lines@)[i as int] == new_line@);
                    assert forall|q: int| 0 <= q < j + 1 implies #[trigger] lines_view(self.mode_lines@)[i as int].maps[q]
                        == cleared_line(start[i as int]).maps[q] by {
                        if q < j {
                            assert(new_line@.maps[q] == old_line@.maps[q]);
                            assert(lines_view(before)[i as int].maps[q] == cleared_line(start[i as int]).maps[q]);
                        } else {
                            assert(lines_view(before)[i as int].maps[q] == start[i as int].maps[q]);
                            assert(new_line@.maps[q] == new_line.maps@[q]@);
                            assert(old_line@.maps[q] == old_line.maps@[q]@);
                        }
                    }
                    assert forall|q: int| j + 1 <= q < k implies #[trigger] lines_view(self.mode_lines@)[i as int].maps[q]
                        == start[i as int].maps[q] by {
                        assert(new_line@.maps[q] == old_line@.maps[q]);
                        assert(lines_view(before)[i as int].maps[q] == start[i as int].maps[q]);
                    }
                }
                j = j + 1;
            }
            assert(lines_view(self.mode_lines@)[i as int] =~~= cleared_line(start[i as int]));
            i = i + 1;
        }
        assert(lines_view(self.mode_lines@) =~~= clear_picks_bans(old(self)@).mode_lines);
    }
    /// Slot `idx` shows map `sel`; nothing changes when there is no such slot.
    pub fn select_slot_map(&mut self, idx: usize, sel: String)
        ensures
            final(self)@ == select_slot_map(old(self)@, idx, sel@),
    {
        if idx < self.map_mode_slots.len() {
            self.map_mode_slots[idx].0 = Some(sel);
            assert(self@.map_mode_slots =~= select_slot_map(old(self)@, idx, sel@).map_mode_slots);
        }
    }

    /// Slot `idx` shows mode `sel`; nothing changes when there is no such slot.
    pub fn select_slot_mode(&mut self, idx: usize, sel: String)
        ensures
            final(self)@ == select_slot_mode(old(self)@, idx, sel@),
    {
        if idx < self.map_mode_slots.len() {
            self.map_mode_slots[idx].1 = Some(sel);
            assert(self@.map_mode_slots =~= select_slot_mode(old(self)@, idx, sel@).map_mode_slots);
        }
    }

    /// Slot `idx` moves on to its next winner.
    pub fn cycle_slot_winner(&mut self, idx: usize)
        ensures
            final(self)@ == cycle_slot_winner(old(self)@, idx),
    {
        self.ensure_slot_winners_len();
        if idx < self.slot_winners.len() {
            let next = match self.slot_winners[idx] {
                SlotWinner::Undecided => SlotWinner::TeamA,
                SlotWinner::TeamA => SlotWinner::TeamB,
                SlotWinner::TeamB => SlotWinner::Undecided,
            };
            self.slot_winners.set(idx, next);
        }
    }

    /// The cell at column `mid`, row `midx` names map `sel`.
    pub fn select_line_map(&mut self, mid: usize, midx: usize, sel: String)
        ensures
            final(self)@ == select_line_map(old(self)@, mid, midx, sel@),
    {
        if mid < self.mode_lines.len() && midx < self.mode_lines[mid].maps.len() {
            let ghost before = self.mode_lines@;
            self.mode_lines[mid].maps[midx].map = Some(sel);
            proof {
                let new_line = self.mode_lines@[mid as int];
                lemma_lines_view_update(before, mid as int, new_line);
                assert(self.mode_lines@ == before.update(mid as int, new_line));
                assert(new_line@ =~~= ModeLineView {
                    maps: before[mid as int]@.maps.update(midx as int, MapEntryView {
                        map: Some(sel@),
                        ..before[mid as int]@.maps[midx as int]
                    }),
                    ..before[mid as int]@
                });
            }
            assert(self@ =~~= select_line_map(old(self)@, mid, midx, sel@));
        }
    }

    /// The cell at column `mid`, row `midx` takes status `status`, or loses
    /// it when it has it already.
    pub fn toggle_line_status(&mut self, mid: usize, midx: usize, status: MapStatus)
        ensures
            final(self)@ == toggle_line_status(old(self)@, mid, midx, status),
    {
        if mid < self.mode_lines.len() && midx < self.mode_lines[mid].maps.len() {
            let ghost before = self.mode_lines@;
            let cur = self.mode_lines[mid].maps[midx].status;
            let next = if cur == status {
                MapStatus::Unmarked
            } else {
                status
            };
            self.mode_lines[mid].maps[midx].status = next;
            proof {
                let new_line = self.mode_lines@[mid as int];
                lemma_lines_view_update(before, mid as int, new_line);
                assert(self.mode_lines@ == before.update(mid as int, new_line));
                assert(new_line@ =~~= ModeLineView {
                    maps: before[mid as int]@.maps.update(midx as int, MapEntryView {
                        status: next,
                        ..before[mid as int]@.maps[midx as int]
                    }),
                    ..before[mid as int]@
                });
            }
            assert(self@ =~~= toggle_line_status(old(self)@, mid, midx, status));
        }
    }

    /// Checking or unchecking the "use" box of slot `idx`.
    pub fn toggle_use(&mut self, idx: usize, on: bool)
        ensures
            final(self)@ == toggle_use(old(self)@, idx, on),
    {
        if on {
            self.selected_slot = Some(idx);
        } else if self.selected_slot == Some(idx) {
            self.selected_slot = None;
        }
    }

    /// Set the display names and directory of one side.
    pub fn set_side_names(&mut self, side: TeamSide, full: String, trunc: String, name: String, dir: String)
        ensures
            final(self)@ == with_side_names(old(self)@, side, full@, trunc@, name@, dir@),
    {
        match side {
            TeamSide::A => {
                self.team_a_full = full;
                self.team_a_trunc = trunc;
                self.team_a_name = name;
                self.team_a_dir = dir;
            },
            TeamSide::B => {
                self.team_b_full = full;
                self.team_b_trunc = trunc;
                self.team_b_name = name;
                self.team_b_dir = dir;
            },
        }
    }
}

} // verus!
