//! The match state shared by the controls and the overlay bridge, with its
//! mathematical model.

use vstd::prelude::*;

verus! {

/// Status of a map in a pick/ban line.
#[derive(Debug, Clone, Copy, PartialEq, Eq, Structural)]
pub enum MapStatus {
    /// Not selected or unaffected
    Unmarked,
    /// This map is banned
    Banned,
    /// This map is picked
    Picked,
}

/// Which team won a map slot.
#[derive(Debug, Clone, Copy, PartialEq, Eq, Structural)]
pub enum SlotWinner {
    /// Not decided yet
    Undecided,
    /// Won by the team on the A side
    TeamA,
    /// Won by the team on the B side
    TeamB,
}

/// A single map entry with optional map name and its status.
#[derive(Debug, Clone)]
pub struct MapEntry {
    pub map: Option<String>,
    pub status: MapStatus,
}

/// A named mode (column) containing multiple `MapEntry` items.
#[derive(Debug, Clone)]
pub struct ModeLine {
    pub name: String,
    pub maps: Vec<MapEntry>,
}

/// The complete state used by the controls and the bridge publishing.
#[derive(Debug, Clone)]
pub struct TeamState {
    pub description: String,
    pub commentator_a: String,
    pub commentator_b: String,
    pub team_a_name: String,
    pub team_b_name: String,
    pub team_a_full: String,
    pub team_a_trunc: String,
    pub team_a_dir: String,
    pub team_b_full: String,
    pub team_b_trunc: String,
    pub team_b_dir: String,
    pub team_a: i32,
    pub team_b: i32,
    pub map_mode_slots: Vec<(Option<String>, Option<String>)>,
    pub mode_lines: Vec<ModeLine>,
    pub selected_slot: Option<usize>,
    pub slot_winners: Vec<SlotWinner>,
}

/// Model of a `MapEntry`.
#[verifier::ext_equal]
pub struct MapEntryView {
    pub map: Option<Seq<char>>,
    pub status: MapStatus,
}

/// Model of a `ModeLine`.
#[verifier::ext_equal]
pub struct ModeLineView {
    pub name: Seq<char>,
    pub maps: Seq<MapEntryView>,
}

/// A map slot: the map name and the mode name chosen for it.
pub type SlotView = (Option<Seq<char>>, Option<Seq<char>>);

/// Model of a `TeamState`: every string by its characters.
#[verifier::ext_equal]
pub struct TeamStateView {
    pub description: Seq<char>,
    pub commentator_a: Seq<char>,
    pub commentator_b: Seq<char>,
    pub team_a_name: Seq<char>,
    pub team_b_name: Seq<char>,
    pub team_a_full: Seq<char>,
    pub team_a_trunc: Seq<char>,
    pub team_a_dir: Seq<char>,
    pub team_b_full: Seq<char>,
    pub team_b_trunc: Seq<char>,
    pub team_b_dir: Seq<char>,
    pub team_a: i32,
    pub team_b: i32,
    pub map_mode_slots: Seq<SlotView>,
    pub mode_lines: Seq<ModeLineView>,
    pub selected_slot: Option<usize>,
    pub slot_winners: Seq<SlotWinner>,
}

/// An optional name by its characters.
pub open spec fn name_view(o: Option<String>) -> Option<Seq<char>> {
    match o {
        Some(s) => Some(s@),
        None => None,
    }
}

/// Model of a map slot.
pub open spec fn slot_view(slot: (Option<String>, Option<String>)) -> SlotView {
    (name_view(slot.0), name_view(slot.1))
}

/// Model of a sequence of mode lines.
pub open spec fn lines_view(lines: Seq<ModeLine>) -> Seq<ModeLineView> {
    lines.map_values(|l: ModeLine| l@)
}

impl View for MapEntry {
    type V = MapEntryView;

    open spec fn view(&self) -> MapEntryView {
        MapEntryView { map: name_view(self.map), status: self.status }
    }
}

impl View for ModeLine {
    type V = ModeLineView;

    open spec fn view(&self) -> ModeLineView {
        ModeLineView { name: self.name@, maps: self.maps@.map_values(|e: MapEntry| e@) }
    }
}

impl View for TeamState {
    type V = TeamStateView;

    open spec fn view(&self) -> TeamStateView {
        TeamStateView {
            description: self.description@,
            commentator_a: self.commentator_a@,
            commentator_b: self.commentator_b@,
            team_a_name: self.team_a_name@,
            team_b_name: self.team_b_name@,
            team_a_full: self.team_a_full@,
            team_a_trunc: self.team_a_trunc@,
            team_a_dir: self.team_a_dir@,
            team_b_full: self.team_b_full@,
            team_b_trunc: self.team_b_trunc@,
            team_b_dir: self.team_b_dir@,
            team_a: self.team_a,
            team_b: self.team_b,
            map_mode_slots: self.map_mode_slots@.map_values(
                |s: (Option<String>, Option<String>)| slot_view(s),
            ),
            mode_lines: lines_view(self.mode_lines@),
            selected_slot: self.selected_slot,
            slot_winners: self.slot_winners@,
        }
    }
}

/// Number of slots in `ws` won by `w`.
pub open spec fn wins(ws: Seq<SlotWinner>, w: SlotWinner) -> nat
    decreases ws.len(),
{
    if ws.len() == 0 {
        0
    } else {
        wins(ws.drop_last(), w) + if ws.last() == w {
            1nat
        } else {
            0nat
        }
    }
}

/// The score of `w`: the number of slots it won, held in an `i32`
/// (which cannot fall short while fewer than 2^31 slots exist).
pub open spec fn score(ws: Seq<SlotWinner>, w: SlotWinner) -> i32 {
    if wins(ws, w) <= i32::MAX {
        wins(ws, w) as i32
    } else {
        i32::MAX
    }
}

/// `v` with both scores derived from the slot winners.
pub open spec fn synced(v: TeamStateView) -> TeamStateView {
    TeamStateView {
        team_a: score(v.slot_winners, SlotWinner::TeamA),
        team_b: score(v.slot_winners, SlotWinner::TeamB),
        ..v
    }
}

/// Whether both scores of `v` are derived from its slot winners.
pub open spec fn scores_follow_winners(v: TeamStateView) -> bool {
    &&& v.team_a == score(v.slot_winners, SlotWinner::TeamA)
    &&& v.team_b == score(v.slot_winners, SlotWinner::TeamB)
}

/// `ws` cut or padded with `Undecided` to `n` entries.
pub open spec fn resized(ws: Seq<SlotWinner>, n: nat) -> Seq<SlotWinner> {
    Seq::new(n, |i: int| if i < ws.len() { ws[i] } else { SlotWinner::Undecided })
}

/// An empty cell of the pick/ban grid.
pub open spec fn blank_entry() -> MapEntryView {
    MapEntryView { map: None, status: MapStatus::Unmarked }
}

/// A pick/ban column named `name` with eight empty cells.
pub open spec fn blank_line(name: Seq<char>) -> ModeLineView {
    ModeLineView { name, maps: Seq::new(8, |i: int| blank_entry()) }
}

/// The state a fresh dashboard starts from.
pub open spec fn default_state() -> TeamStateView {
    TeamStateView {
        description: "Competition - Stage X"@,
        commentator_a: Seq::empty(),
        commentator_b: Seq::empty(),
        team_a_name: "Team A"@,
        team_b_name: "Team B"@,
        team_a_full: "Team A"@,
        team_a_trunc: "Team A"@,
        team_a_dir: Seq::empty(),
        team_b_full: "Team B"@,
        team_b_trunc: "Team B"@,
        team_b_dir: Seq::empty(),
        team_a: 0,
        team_b: 0,
        map_mode_slots: Seq::new(9, |i: int| (Some(Seq::<char>::empty()), Some(Seq::<char>::empty()))),
        mode_lines: seq![
            blank_line("Splat Zones"@),
            blank_line("Tower Control"@),
            blank_line("Clam Blitz"@),
            blank_line("Rainmaker"@),
        ],
        selected_slot: None,
        slot_winners: Seq::empty(),
    }
}

/// A pick/ban column named `name` with eight empty cells.
fn new_blank_line(name: &str) -> (r: ModeLine)
    ensures
        r@ == blank_line(name@),
{
    let mut maps: Vec<MapEntry> = Vec::new();
    let mut i: usize = 0;
    while i < 8
        invariant
            i <= 8,
            maps@.len() == i,
            forall|k: int| 0 <= k < i ==> #[trigger] maps@[k]@ == blank_entry(),
        decreases 8 - i,
    {
        maps.push(MapEntry { map: None, status: MapStatus::Unmarked });
        i = i + 1;
    }
    let r = ModeLine { name: String::from_str(name), maps };
    assert(r@.maps =~= blank_line(name@).maps);
    r
}

impl Default for TeamState {
    /// The state a fresh dashboard starts from: default team names, no
    /// scores, nine empty map slots and four empty pick/ban columns.
    fn default() -> (r: TeamState)
        ensures
            r@ == default_state(),
    {
        let mut slots: Vec<(Option<String>, Option<String>)> = Vec::new();
        let mut i: usize = 0;
        while i < 9
            invariant
                i <= 9,
                slots@.len() == i,
                forall|k: int|
                    0 <= k < i ==> #[trigger] slot_view(slots@[k]) == (
                        Some(Seq::<char>::empty()),
                        Some(Seq::<char>::empty()),
                    ),
            decreases 9 - i,
        {
            slots.push((Some(String::new()), Some(String::new())));
            i = i + 1;
        }
        let mut mode_lines: Vec<ModeLine> = Vec::new();
        mode_lines.push(new_blank_line("Splat Zones"));
        mode_lines.push(new_blank_line("Tower Control"));
        mode_lines.push(new_blank_line("Clam Blitz"));
        mode_lines.push(new_blank_line("Rainmaker"));
        let r = TeamState {
            description: String::from_str("Competition - Stage X"),
            commentator_a: String::new(),
            commentator_b: String::new(),
            team_a_name: String::from_str("Team A"),
            team_a_full: String::from_str("Team A"),
            team_a_trunc: String::from_str("Team A"),
            team_a_dir: String::new(),
            team_b_name: String::from_str("Team B"),
            team_b_full: String::from_str("Team B"),
            team_b_trunc: String::from_str("Team B"),
            team_b_dir: String::new(),
            team_a: 0,
            team_b: 0,
            map_mode_slots: slots,
            mode_lines,
            selected_slot: None,
            slot_winners: Vec::new(),
        };
        assert(r@.map_mode_slots =~= default_state().map_mode_slots);
        assert(r@.mode_lines =~= default_state().mode_lines);
        r
    }
}

impl TeamState {

    /// Make the winner list as long as the slot list: cut it, or pad it
    /// with `Undecided`.
    pub fn ensure_slot_winners_len(&mut self)
        ensures
            final(self)@ == (TeamStateView {
                slot_winners: resized(old(self)@.slot_winners, old(self)@.map_mode_slots.len()),
                ..old(self)@
            }),
    {
        let n = self.map_mode_slots.len();
        if self.slot_winners.len() > n {
            self.slot_winners.truncate(n);
        }
        while self.slot_winners.len() < n
            invariant
                n == self.map_mode_slots.len(),
                self.slot_winners.len() <= n,
                self.slot_winners.len() < n ==> self.slot_winners.len() >= old(
                    self,
                ).slot_winners.len(),
                self@ == (TeamStateView { slot_winners: self.slot_winners@, ..old(self)@ }),
                forall|k: int|
                    0 <= k < self.slot_winners.len() ==> #[trigger] self.slot_winners@[k]
                        == resized(old(self)@.slot_winners, n as nat)[k],
            decreases n - self.slot_winners.len(),
        {
            self.slot_winners.push(SlotWinner::Undecided);
        }
        assert(self.slot_winners@ =~= resized(old(self)@.slot_winners, n as nat));
    }

    /// Derive both scores from the slot winners: each team scores one point
    /// per slot it won.
    pub fn sync_scores_from_slot_winners(&mut self)
        ensures
            final(self)@ == synced(old(self)@),
    {
        let ghost ws = self.slot_winners@;
        let n = self.slot_winners.len();
        let mut a: i32 = 0;
        let mut b: i32 = 0;
        let mut i: usize = 0;
        while i < n
            invariant
                i <= n,
                n == ws.len(),
                ws == self.slot_winners@,
                a == score(ws.take(i as int), SlotWinner::TeamA),
                b == score(ws.take(i as int), SlotWinner::TeamB),
            decreases n - i,
        {
            assert(ws.take(i + 1).drop_last() =~= ws.take(i as int));
            let w = self.slot_winners[i];
            if w == SlotWinner::TeamA && a < i32::MAX {
                a = a + 1;
            }
            if w == SlotWinner::TeamB && b < i32::MAX {
                b = b + 1;
            }
            i = i + 1;
        }
        assert(ws.take(n as int) =~= ws);
        self.team_a = a;
        self.team_b = b;
    }
}

} // verus!
