//! What the overlay clients receive: the match state without the internal
//! slot list, plus the map and mode on air.

use vstd::prelude::*;
use crate::model::{
    MapEntry, ModeLine, ModeLineView, SlotView, SlotWinner, TeamState, TeamStateView, lines_view,
    name_view, slot_view,
};

verus! {

/// The state published to overlay clients: every field of `TeamState` but
/// the map slots and the selected slot, which are replaced by the map and
/// mode on air.
#[derive(Debug)]
pub struct Payload {
    pub description: String,
    pub commentator_a: String,
    pub commentator_b: String,
    pub team_a_name: String,
    pub team_b_name: String,
    pub team_a_full: String,
    pub team_a_trunc: String,
    pub team_a_dir: String,
    pub team_b_full: String,
    pub team_b_trunc: String,
    pub team_b_dir: String,
    pub team_a: i32,
    pub team_b: i32,
    pub mode_lines: Vec<ModeLine>,
    pub slot_winners: Vec<SlotWinner>,
    pub map: Option<String>,
    pub mode: Option<String>,
}

/// Model of a `Payload`.
#[verifier::ext_equal]
pub struct PayloadView {
    pub description: Seq<char>,
    pub commentator_a: Seq<char>,
    pub commentator_b: Seq<char>,
    pub team_a_name: Seq<char>,
    pub team_b_name: Seq<char>,
    pub team_a_full: Seq<char>,
    pub team_a_trunc: Seq<char>,
    pub team_a_dir: Seq<char>,
    pub team_b_full: Seq<char>,
    pub team_b_trunc: Seq<char>,
    pub team_b_dir: Seq<char>,
    pub team_a: i32,
    pub team_b: i32,
    pub mode_lines: Seq<ModeLineView>,
    pub slot_winners: Seq<SlotWinner>,
    pub map: Option<Seq<char>>,
    pub mode: Option<Seq<char>>,
}

impl View for Payload {
    type V = PayloadView;

    open spec fn view(&self) -> PayloadView {
        PayloadView {
            description: self.description@,
            commentator_a: self.commentator_a@,
            commentator_b: self.commentator_b@,
            team_a_name: self.team_a_name@,
            team_b_name: self.team_b_name@,
            team_a_full: self.team_a_full@,
            team_a_trunc: self.team_a_trunc@,
            team_a_dir: self.team_a_dir@,
            team_b_full: self.team_b_full@,
            team_b_trunc: self.team_b_trunc@,
            team_b_dir: self.team_b_dir@,
            team_a: self.team_a,
            team_b: self.team_b,
            mode_lines: lines_view(self.mode_lines@),
            slot_winners: self.slot_winners@,
            map: name_view(self.map),
            mode: name_view(self.mode),
        }
    }
}

/// Whether `o` is a non-empty name.
pub open spec fn is_named(o: Option<Seq<char>>) -> bool {
    o matches Some(n) && n.len() > 0
}

/// The first non-empty name of `names`, if any.
pub open spec fn first_named(names: Seq<Option<Seq<char>>>) -> Option<Seq<char>>
    decreases names.len(),
{
    if names.len() == 0 {
        None
    } else if is_named(names[0]) {
        names[0]
    } else {
        first_named(names.drop_first())
    }
}

/// The map names (or, with `modes`, the mode names) of the slots.
pub open spec fn slot_names(slots: Seq<SlotView>, modes: bool) -> Seq<Option<Seq<char>>> {
    slots.map_values(|sl: SlotView| if modes { sl.1 } else { sl.0 })
}

/// The map (or, with `modes`, the mode) on air: that of the slot marked for
/// use when it names one, else the first one that some slot names.
pub open spec fn on_air(s: TeamStateView, modes: bool) -> Option<Seq<char>> {
    let names = slot_names(s.map_mode_slots, modes);
    if s.selected_slot matches Some(i) && i < names.len() && is_named(names[i as int]) {
        names[s.selected_slot->0 as int]
    } else {
        first_named(names)
    }
}

/// The payload published for match state `s`.
pub open spec fn payload_of(s: TeamStateView) -> PayloadView {
    PayloadView {
        description: s.description,
        commentator_a: s.commentator_a,
        commentator_b: s.commentator_b,
        team_a_name: s.team_a_name,
        team_b_name: s.team_b_name,
        team_a_full: s.team_a_full,
        team_a_trunc: s.team_a_trunc,
        team_a_dir: s.team_a_dir,
        team_b_full: s.team_b_full,
        team_b_trunc: s.team_b_trunc,
        team_b_dir: s.team_b_dir,
        team_a: s.team_a,
        team_b: s.team_b,
        mode_lines: s.mode_lines,
        slot_winners: s.slot_winners,
        map: on_air(s, false),
        mode: on_air(s, true),
    }
}

/// The slot name at `i`: the map name, or with `modes` the mode name.
fn slot_name(slots: &Vec<(Option<String>, Option<String>)>, i: usize, modes: bool) -> (r: Option<String>)
    requires
        i < slots@.len(),
    ensures
        name_view(r) == slot_names(slots@.map_values(|sl: (Option<String>, Option<String>)| slot_view(sl)), modes)[i as int],
{
    let name = if modes {
        &slots[i].1
    } else {
        &slots[i].0
    };
    match name {
        Some(n) => Some(n.clone()),
        None => None,
    }
}

/// Whether an optional name is present and non-empty.
fn named(o: &Option<String>) -> (r: bool)
    ensures
        r == is_named(name_view(*o)),
{
    match o {
        Some(n) => !n.as_str().is_empty(),
        None => false,
    }
}

/// The first non-empty map name (or, with `modes`, mode name) of the slots.
fn first_named_slot(slots: &Vec<(Option<String>, Option<String>)>, modes: bool) -> (r: Option<String>)
    ensures
        name_view(r) == first_named(slot_names(slots@.map_values(|sl: (Option<String>, Option<String>)| slot_view(sl)), modes)),
{
    let ghost names = slot_names(slots@.map_values(|sl: (Option<String>, Option<String>)| slot_view(sl)), modes);
    let n = slots.len();
    let mut i: usize = 0;
    assert(names.skip(0) =~= names);
    while i < n
        invariant
            i <= n,
            n == slots@.len(),
            names == slot_names(slots@.map_values(|sl: (Option<String>, Option<String>)| slot_view(sl)), modes),
            first_named(names) == first_named(names.skip(i as int)),
        decreases n - i,
    {
        let name = slot_name(slots, i, modes);
        assert(names.skip(i as int)[0] == names[i as int]);
        if named(&name) {
            return name;
        }
        assert(names.skip(i as int).drop_first() =~= names.skip(i + 1));
        i = i + 1;
    }
    None
}

/// The map (or, with `modes`, the mode) on air.
fn on_air_name(state: &TeamState, modes: bool) -> (r: Option<String>)
    ensures
        name_view(r) == on_air(state@, modes),
{
    if let Some(idx) = state.selected_slot {
        if idx < state.map_mode_slots.len() {
            let name = slot_name(&state.map_mode_slots, idx, modes);
            if named(&name) {
                return name;
            }
        }
    }
    first_named_slot(&state.map_mode_slots, modes)
}

/// A copy of the pick/ban grid.
fn copy_mode_lines(lines: &Vec<ModeLine>) -> (r: Vec<ModeLine>)
    ensures
        lines_view(r@) == lines_view(lines@),
{
    let mut out: Vec<ModeLine> = Vec::new();
    let m = lines.len();
    let mut i: usize = 0;
    while i < m
        invariant
            i <= m,
            m == lines@.len(),
            out@.len() == i,
            forall|p: int| 0 <= p < i ==> #[trigger] out@[p]@ == lines@[p]@,
        decreases m - i,
    {
        let line = &lines[i];
        let mut maps: Vec<MapEntry> = Vec::new();
        let k = line.maps.len();
        let mut j: usize = 0;
        while j < k
            invariant
                j <= k,
                k == line.maps@.len(),
                maps@.len() == j,
                forall|q: int| 0 <= q < j ==> #[trigger] maps@[q]@ == line.maps@[q]@,
            decreases k - j,
        {
            let entry = &line.maps[j];
            let map = match &entry.map {
                Some(n) => Some(n.clone()),
                None => None,
            };
            maps.push(MapEntry { map, status: entry.status });
            j = j + 1;
        }
        let copy = ModeLine { name: line.name.clone(), maps };
        assert(copy@ =~~= line@);
        out.push(copy);
        i = i + 1;
    }
    assert(lines_view(out@) =~~= lines_view(lines@));
    out
}

/// A copy of the slot winners.
fn copy_winners(ws: &Vec<SlotWinner>) -> (r: Vec<SlotWinner>)
    ensures
        r@ == ws@,
{
    let mut out: Vec<SlotWinner> = Vec::new();
    let n = ws.len();
    let mut i: usize = 0;
    while i < n
        invariant
            i <= n,
            n == ws@.len(),
            out@ == ws@.take(i as int),
        decreases n - i,
    {
        out.push(ws[i]);
        assert(out@ =~= ws@.take(i + 1));
        i = i + 1;
    }
    assert(ws@.take(n as int) =~= ws@);
    out
}

/// The payload published for `state`: its fields without the internal slot
/// list and selected slot, and the map and mode on air. A slot's map or
/// mode is on air when the slot is marked for use and names one; otherwise
/// the first slot that names one supplies it.
pub fn scores_payload(state: &TeamState) -> (p: Payload)
    ensures
        p@ == payload_of(state@),
{
    let map = on_air_name(state, false);
    let mode = on_air_name(state, true);
    Payload {
        description: state.description.clone(),
        commentator_a: state.commentator_a.clone(),
        commentator_b: state.commentator_b.clone(),
        team_a_name: state.team_a_name.clone(),
        team_b_name: state.team_b_name.clone(),
        team_a_full: state.team_a_full.clone(),
        team_a_trunc: state.team_a_trunc.clone(),
        team_a_dir: state.team_a_dir.clone(),
        team_b_full: state.team_b_full.clone(),
        team_b_trunc: state.team_b_trunc.clone(),
        team_b_dir: state.team_b_dir.clone(),
        team_a: state.team_a,
        team_b: state.team_b,
        mode_lines: copy_mode_lines(&state.mode_lines),
        slot_winners: copy_winners(&state.slot_winners),
        map,
        mode,
    }
}

} // verus!
