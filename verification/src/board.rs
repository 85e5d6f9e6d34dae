//! The dashboard: its state, the messages its controls send, and the update
//! that applies a message and says what outside work must follow.

use vstd::prelude::*;
use std::path::PathBuf;
use crate::controls::{
    TeamSide, clear_picks_bans, clear_side, cycle_slot_winner, reset_score, select_line_map,
    select_slot_map, select_slot_mode, swap_sides, toggle_line_status, toggle_use,
    with_side_names,
};
use crate::model::{MapStatus, SlotWinner, TeamState, TeamStateView, synced};
use crate::teams::{file_or, load_team_names};
use crate::text::{trim, trimmed};

verus! {

/// std's `PathBuf`, declared so that the chosen logo file can be carried in
/// the dashboard state and handed back; Verus sees nothing inside it, and
/// nothing is claimed of it.
#[verifier::external_type_specification]
#[verifier::external_body]
pub struct ExPathBuf(std::path::PathBuf);

/// Messages/events handled by the dashboard.
#[derive(Debug, Clone)]
pub enum Message {
    AddA,
    SubtractA,
    AddB,
    SubtractB,
    SwapTeams,
    ResetAll,
    ClearPicksBans,
    SetDescription(String),
    SetCommentatorA(String),
    SetCommentatorB(String),
    SelectMap(usize, String),
    SelectMode(usize, String),
    CycleSlotWinner(usize),
    ToggleUse(usize, bool),
    SelectModeLineMap(usize, usize, String),
    ToggleModeLineStatus(usize, usize, MapStatus),
    SelectTeamA(String),
    SelectTeamB(String),
    SetCreateTeamFull(String),
    SetCreateTeamTrunc(String),
    PickCreateTeamLogo,
    CreateTeamLogoPicked(Option<PathBuf>),
    SubmitCreateTeam,
    SwitchTab(usize),
}

/// Dashboard state: the match state and the inputs of the team creation
/// form.
pub struct Soulboard {
    pub state: TeamState,
    pub available_teams: Vec<String>,
    pub create_team_full_input: String,
    pub create_team_trunc_input: String,
    pub create_team_logo_path: Option<PathBuf>,
    pub create_team_feedback: String,
    pub create_team_feedback_is_error: bool,
    pub selected_tab: usize,
}

/// Model of a `Soulboard`.
#[verifier::ext_equal]
pub struct SoulboardView {
    pub state: TeamStateView,
    pub available_teams: Seq<Seq<char>>,
    pub create_team_full_input: Seq<char>,
    pub create_team_trunc_input: Seq<char>,
    pub create_team_logo_path: Option<PathBuf>,
    pub create_team_feedback: Seq<char>,
    pub create_team_feedback_is_error: bool,
    pub selected_tab: usize,
}

impl View for Soulboard {
    type V = SoulboardView;

    open spec fn view(&self) -> SoulboardView {
        SoulboardView {
            state: self.state@,
            available_teams: self.available_teams@.map_values(|t: String| t@),
            create_team_full_input: self.create_team_full_input@,
            create_team_trunc_input: self.create_team_trunc_input@,
            create_team_logo_path: self.create_team_logo_path,
            create_team_feedback: self.create_team_feedback@,
            create_team_feedback_is_error: self.create_team_feedback_is_error,
            selected_tab: self.selected_tab,
        }
    }
}

impl Soulboard {
    /// A dashboard showing `state`, with no team list and an empty team
    /// creation form on the first tab.
    pub fn new(state: TeamState) -> (r: Soulboard)
        ensures
            r@ == (SoulboardView {
                state: state@,
                available_teams: Seq::empty(),
                create_team_full_input: Seq::empty(),
                create_team_trunc_input: Seq::empty(),
                create_team_logo_path: None,
                create_team_feedback: Seq::empty(),
                create_team_feedback_is_error: false,
                selected_tab: 0,
            }),
    {
        let r = Soulboard {
            state,
            available_teams: Vec::new(),
            create_team_full_input: String::new(),
            create_team_trunc_input: String::new(),
            create_team_logo_path: None,
            create_team_feedback: String::new(),
            create_team_feedback_is_error: false,
            selected_tab: 0,
        };
        assert(r@.available_teams =~= Seq::empty());
        r
    }
}

/// The outside work that must follow an update.
pub enum Effect {
    /// None: publish the new state to the overlay clients and save it.
    Publish,
    /// Read the name files of team directory `dir` for the given side, hand
    /// them to `apply_team_names`, then publish and save.
    LoadTeamNames(TeamSide, String),
    /// Open the logo file dialog, whose answer comes back as
    /// `CreateTeamLogoPicked`; nothing is published or saved.
    PickLogo,
    /// Create the team with these (trimmed) full and short names and the
    /// chosen logo, hand the outcome to `finish_create_team`, then publish
    /// and save.
    CreateTeam(String, String),
}

/// Model of an `Effect`.
pub enum EffectView {
    Publish,
    LoadTeamNames(TeamSide, Seq<char>),
    PickLogo,
    CreateTeam(Seq<char>, Seq<char>),
}

impl View for Effect {
    type V = EffectView;

    open spec fn view(&self) -> EffectView {
        match self {
            Effect::Publish => EffectView::Publish,
            Effect::LoadTeamNames(side, dir) => EffectView::LoadTeamNames(*side, dir@),
            Effect::PickLogo => EffectView::PickLogo,
            Effect::CreateTeam(full, trunc) => EffectView::CreateTeam(full@, trunc@),
        }
    }
}

/// What a message does to the match state, before the scores are derived
/// from the slot winners.
pub open spec fn next_team_state(s: TeamStateView, m: Message) -> TeamStateView {
    match m {
        Message::AddA => TeamStateView { team_a: (s.team_a + 1) as i32, ..s },
        Message::SubtractA => TeamStateView { team_a: (s.team_a - 1) as i32, ..s },
        Message::AddB => TeamStateView { team_b: (s.team_b + 1) as i32, ..s },
        Message::SubtractB => TeamStateView { team_b: (s.team_b - 1) as i32, ..s },
        Message::SwapTeams => swap_sides(s),
        Message::ResetAll => reset_score(s),
        Message::ClearPicksBans => clear_picks_bans(s),
        Message::SetDescription(d) => TeamStateView { description: d@, ..s },
        Message::SetCommentatorA(c) => TeamStateView { commentator_a: c@, ..s },
        Message::SetCommentatorB(c) => TeamStateView { commentator_b: c@, ..s },
        Message::SelectMap(idx, sel) => select_slot_map(s, idx, sel@),
        Message::SelectMode(idx, sel) => select_slot_mode(s, idx, sel@),
        Message::CycleSlotWinner(idx) => cycle_slot_winner(s, idx),
        Message::ToggleUse(idx, on) => toggle_use(s, idx, on),
        Message::SelectModeLineMap(mid, midx, sel) => select_line_map(s, mid, midx, sel@),
        Message::ToggleModeLineStatus(mid, midx, status) => toggle_line_status(s, mid, midx, status),
        Message::SelectTeamA(sel) => if sel@.len() == 0 {
            clear_side(s, TeamSide::A)
        } else {
            s
        },
        Message::SelectTeamB(sel) => if sel@.len() == 0 {
            clear_side(s, TeamSide::B)
        } else {
            s
        },
        _ => s,
    }
}

/// Why the team creation form cannot be submitted, or `None` when it can.
pub open spec fn submit_problem(b: SoulboardView) -> Option<Seq<char>> {
    if trimmed(b.create_team_full_input).len() == 0 {
        Some("Full name is required"@)
    } else if trimmed(b.create_team_trunc_input).len() == 0 {
        Some("Short name is required"@)
    } else if b.create_team_logo_path is None {
        Some("A logo file is required"@)
    } else {
        None
    }
}

/// `b` with the feedback line of the form emptied.
pub open spec fn no_feedback(b: SoulboardView) -> SoulboardView {
    SoulboardView { create_team_feedback: Seq::empty(), create_team_feedback_is_error: false, ..b }
}

/// What a message does to the fields of the dashboard besides the match
/// state.
pub open spec fn next_form(b: SoulboardView, m: Message) -> SoulboardView {
    match m {
        Message::SetCreateTeamFull(v) => no_feedback(SoulboardView { create_team_full_input: v@, ..b }),
        Message::SetCreateTeamTrunc(v) => no_feedback(SoulboardView { create_team_trunc_input: v@, ..b }),
        Message::CreateTeamLogoPicked(p) => no_feedback(SoulboardView { create_team_logo_path: p, ..b }),
        Message::SubmitCreateTeam => match submit_problem(b) {
            Some(problem) => SoulboardView {
                create_team_feedback: problem,
                create_team_feedback_is_error: true,
                ..b
            },
            None => b,
        },
        Message::SwitchTab(idx) => SoulboardView { selected_tab: idx, ..b },
        _ => b,
    }
}

/// The dashboard after an update with message `m`: every message but the
/// one that opens the logo dialog ends with the scores derived from the slot
/// winners.
pub open spec fn next_board(b: SoulboardView, m: Message) -> SoulboardView {
    match m {
        Message::PickCreateTeamLogo => b,
        _ => SoulboardView { state: synced(next_team_state(b.state, m)), ..next_form(b, m) },
    }
}

/// The outside work that an update with message `m` asks for.
pub open spec fn effect_of(b: SoulboardView, m: Message) -> EffectView {
    match m {
        Message::PickCreateTeamLogo => EffectView::PickLogo,
        Message::SelectTeamA(sel) => if sel@.len() == 0 {
            EffectView::Publish
        } else {
            EffectView::LoadTeamNames(TeamSide::A, sel@)
        },
        Message::SelectTeamB(sel) => if sel@.len() == 0 {
            EffectView::Publish
        } else {
            EffectView::LoadTeamNames(TeamSide::B, sel@)
        },
        Message::SubmitCreateTeam => if submit_problem(b) is None {
            EffectView::CreateTeam(trimmed(b.create_team_full_input), trimmed(b.create_team_trunc_input))
        } else {
            EffectView::Publish
        },
        _ => EffectView::Publish,
    }
}

/// Whether the score buttons can act on `s` without leaving the range of
/// an `i32`.
pub open spec fn score_step_in_range(s: TeamStateView, m: Message) -> bool {
    match m {
        Message::AddA => s.team_a < i32::MAX,
        Message::SubtractA => s.team_a > i32::MIN,
        Message::AddB => s.team_b < i32::MAX,
        Message::SubtractB => s.team_b > i32::MIN,
        _ => true,
    }
}

/// Apply a `Message` to the dashboard. The scores are then derived from
/// the map winners. The result names the outside work that must follow:
/// reading a team's name files, opening the logo dialog, creating a team,
/// and otherwise publishing the state to the bridge and saving it.
pub fn update(state: &mut Soulboard, message: Message) -> (effect: Effect)
    requires
        score_step_in_range(old(state)@.state, message),
    ensures
        final(state)@ == next_board(old(state)@, message),
        effect@ == effect_of(old(state)@, message),
{
    let effect = match message {
        Message::AddA => {
            state.state.team_a = state.state.team_a + 1;
            Effect::Publish
        },
        Message::SubtractA => {
            state.state.team_a = state.state.team_a - 1;
            Effect::Publish
        },
        Message::AddB => {
            state.state.team_b = state.state.team_b + 1;
            Effect::Publish
        },
        Message::SubtractB => {
            state.state.team_b = state.state.team_b - 1;
            Effect::Publish
        },
        Message::SwapTeams => {
            state.state.swap_sides();
            Effect::Publish
        },
        Message::ResetAll => {
            state.state.reset_score();
            Effect::Publish
        },
        Message::ClearPicksBans => {
            state.state.clear_picks_bans();
            Effect::Publish
        },
        Message::SetDescription(desc) => {
            state.state.description = desc;
            Effect::Publish
        },
        Message::SetCommentatorA(s) => {
            state.state.commentator_a = s;
            Effect::Publish
        },
        Message::SetCommentatorB(s) => {
            state.state.commentator_b = s;
            Effect::Publish
        },
        Message::SelectMap(idx, sel) => {
            state.state.select_slot_map(idx, sel);
            Effect::Publish
        },
        Message::SelectMode(idx, sel) => {
            state.state.select_slot_mode(idx, sel);
            Effect::Publish
        },
        Message::CycleSlotWinner(idx) => {
            state.state.cycle_slot_winner(idx);
            Effect::Publish
        },
        Message::SelectModeLineMap(mid, midx, sel) => {
            state.state.select_line_map(mid, midx, sel);
            Effect::Publish
        },
        Message::ToggleModeLineStatus(mid, midx, status) => {
            state.state.toggle_line_status(mid, midx, status);
            Effect::Publish
        },
        Message::ToggleUse(idx, on) => {
            state.state.toggle_use(idx, on);
            Effect::Publish
        },
        Message::SelectTeamA(sel) => {
            if sel.as_str().is_empty() {
                state.state.set_side_names(TeamSide::A, String::new(), String::new(), String::new(), String::new());
                Effect::Publish
            } else {
                Effect::LoadTeamNames(TeamSide::A, sel)
            }
        },
        Message::SelectTeamB(sel) => {
            if sel.as_str().is_empty() {
                state.state.set_side_names(TeamSide::B, String::new(), String::new(), String::new(), String::new());
                Effect::Publish
            } else {
                Effect::LoadTeamNames(TeamSide::B, sel)
            }
        },
        Message::SetCreateTeamFull(value) => {
            state.create_team_full_input = value;
            state.create_team_feedback = String::new();
            state.create_team_feedback_is_error = false;
            Effect::Publish
        },
        Message::SetCreateTeamTrunc(value) => {
            state.create_team_trunc_input = value;
            state.create_team_feedback = String::new();
            state.create_team_feedback_is_error = false;
            Effect::Publish
        },
        Message::PickCreateTeamLogo => {
            return Effect::PickLogo;
        },
        Message::CreateTeamLogoPicked(path) => {
            state.create_team_logo_path = path;
            state.create_team_feedback = String::new();
            state.create_team_feedback_is_error = false;
            Effect::Publish
        },
        Message::SubmitCreateTeam => {
            let full = trim(state.create_team_full_input.as_str());
            let trunc = trim(state.create_team_trunc_input.as_str());
            if full.as_str().is_empty() {
                state.create_team_feedback = String::from_str("Full name is required");
                state.create_team_feedback_is_error = true;
                Effect::Publish
            } else if trunc.as_str().is_empty() {
                state.create_team_feedback = String::from_str("Short name is required");
                state.create_team_feedback_is_error = true;
                Effect::Publish
            } else if state.create_team_logo_path.is_none() {
                state.create_team_feedback = String::from_str("A logo file is required");
                state.create_team_feedback_is_error = true;
                Effect::Publish
            } else {
                Effect::CreateTeam(full, trunc)
            }
        },
        Message::SwitchTab(idx) => {
            state.selected_tab = idx;
            Effect::Publish
        },
    };
    state.state.sync_scores_from_slot_winners();
    effect
}

/// The match state once the names read for team directory `dir` are shown
/// on `side`: the trimmed full and short names (each falling back to `dir`
/// when its file could not be read), the short name as display name, and the
/// directory; an empty `dir` clears the side.
pub open spec fn named_side(
    s: TeamStateView,
    side: TeamSide,
    dir: Seq<char>,
    full_file: Option<String>,
    trunc_file: Option<String>,
) -> TeamStateView {
    if dir.len() == 0 {
        with_side_names(s, side, dir, dir, dir, dir)
    } else {
        let trunc = trimmed(file_or(trunc_file, dir));
        with_side_names(s, side, trimmed(file_or(full_file, dir)), trunc, trunc, dir)
    }
}

/// Show on `side` the team of directory `dir`, given what its
/// `nameFull.txt` and `nameTrunc.txt` hold (`None` for a file that could not
/// be read).
pub fn apply_team_names(
    state: &mut Soulboard,
    side: TeamSide,
    dir: String,
    full_file: Option<String>,
    trunc_file: Option<String>,
)
    ensures
        final(state)@ == (SoulboardView {
            state: named_side(old(state)@.state, side, dir@, full_file, trunc_file),
            ..old(state)@
        }),
{
    match load_team_names(dir.as_str(), full_file, trunc_file) {
        Some((full, trunc)) => {
            let name = trunc.clone();
            state.state.set_side_names(side, full, trunc, name, dir);
        },
        None => {
            let full = dir.clone();
            let trunc = dir.clone();
            let name = dir.clone();
            state.state.set_side_names(side, full, trunc, name, dir);
        },
    }
}

/// The message shown once team `full` has been created.
pub open spec fn created_message(full: Seq<char>) -> Seq<char> {
    "Team \""@ + full + "\" created successfully"@
}

/// The dashboard once the creation of team `full` has ended: on success the
/// team list is the one read afterwards, the form is emptied and says so;
/// on failure the form keeps its inputs and shows the error.
pub open spec fn created_team(b: SoulboardView, full: Seq<char>, outcome: Result<Seq<Seq<char>>, Seq<char>>) -> SoulboardView {
    match outcome {
        Ok(teams) => SoulboardView {
            available_teams: teams,
            create_team_feedback: created_message(full),
            create_team_feedback_is_error: false,
            create_team_full_input: Seq::empty(),
            create_team_trunc_input: Seq::empty(),
            create_team_logo_path: None,
            ..b
        },
        Err(e) => SoulboardView { create_team_feedback: e, create_team_feedback_is_error: true, ..b },
    }
}

/// Model of the outcome of a team creation.
pub open spec fn outcome_view(outcome: Result<Vec<String>, String>) -> Result<Seq<Seq<char>>, Seq<char>> {
    match outcome {
        Ok(teams) => Ok(teams@.map_values(|t: String| t@)),
        Err(e) => Err(e@),
    }
}

/// Record how the creation of team `full` ended: the team directories listed
/// after it succeeded, or the error that stopped it.
pub fn finish_create_team(state: &mut Soulboard, full: String, outcome: Result<Vec<String>, String>)
    ensures
        final(state)@ == created_team(old(state)@, full@, outcome_view(outcome)),
{
    match outcome {
        Ok(teams) => {
            state.available_teams = teams;
            let mut feedback = String::from_str("Team \"");
            feedback.append(full.as_str());
            feedback.append("\" created successfully");
            state.create_team_feedback = feedback;
            state.create_team_feedback_is_error = false;
            state.create_team_full_input = String::new();
            state.create_team_trunc_input = String::new();
            state.create_team_logo_path = None;
        },
        Err(err) => {
            state.create_team_feedback = err;
            state.create_team_feedback_is_error = true;
        },
    }
}

/// The name a winner button shows for a side: its short name, else its
/// display name, else `fallback`.
pub open spec fn shown_name(trunc: Seq<char>, name: Seq<char>, fallback: Seq<char>) -> Seq<char> {
    if trunc.len() > 0 {
        trunc
    } else if name.len() > 0 {
        name
    } else {
        fallback
    }
}

/// The label of a slot's winner button.
pub open spec fn winner_label(s: TeamStateView, winner: SlotWinner) -> Seq<char> {
    match winner {
        SlotWinner::Undecided => "Winner: -"@,
        SlotWinner::TeamA => "Winner: "@ + shown_name(s.team_a_trunc, s.team_a_name, "Team A"@),
        SlotWinner::TeamB => "Winner: "@ + shown_name(s.team_b_trunc, s.team_b_name, "Team B"@),
    }
}

/// The label of a slot's winner button.
pub fn slot_winner_label(state: &Soulboard, winner: SlotWinner) -> (r: String)
    ensures
        r@ == winner_label(state@.state, winner),
{
    match winner {
        SlotWinner::Undecided => String::from_str("Winner: -"),
        SlotWinner::TeamA => {
            let mut label = String::from_str("Winner: ");
            if !state.state.team_a_trunc.as_str().is_empty() {
                label.append(state.state.team_a_trunc.as_str());
            } else if !state.state.team_a_name.as_str().is_empty() {
                label.append(state.state.team_a_name.as_str());
            } else {
                label.append("Team A");
            }
            label
        },
        SlotWinner::TeamB => {
            let mut label = String::from_str("Winner: ");
            if !state.state.team_b_trunc.as_str().is_empty() {
                label.append(state.state.team_b_trunc.as_str());
            } else if !state.state.team_b_name.as_str().is_empty() {
                label.append(state.state.team_b_name.as_str());
            } else {
                label.append("Team B");
            }
            label
        },
    }
}

} // verus!
