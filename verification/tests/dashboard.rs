use soulboard::board::{
    apply_team_names, finish_create_team, slot_winner_label, update, Effect, Message, Soulboard,
};
use soulboard::controls::TeamSide;
use soulboard::model::{MapStatus, SlotWinner, TeamState};
use soulboard::payload::scores_payload;
use soulboard::teams::{dir_selection, listed_dir_selection, load_team_names, validate_team_names};
use soulboard::text::{has_path_separator, trim, white_space};
use std::path::PathBuf;

fn board() -> Soulboard {
    Soulboard::new(TeamState::default())
}

fn send(b: &mut Soulboard, m: Message) -> Effect {
    update(b, m)
}

#[test]
fn default_state_has_nine_slots_and_four_columns() {
    let s = TeamState::default();
    assert_eq!(s.description, "Competition - Stage X");
    assert_eq!(s.team_a_name, "Team A");
    assert_eq!(s.team_b_full, "Team B");
    assert_eq!(s.team_a_dir, "");
    assert_eq!(s.team_a, 0);
    assert_eq!(s.map_mode_slots.len(), 9);
    for slot in &s.map_mode_slots {
        assert_eq!(slot, &(Some(String::new()), Some(String::new())));
    }
    let names: Vec<&str> = s.mode_lines.iter().map(|l| l.name.as_str()).collect();
    assert_eq!(names, vec!["Splat Zones", "Tower Control", "Clam Blitz", "Rainmaker"]);
    for line in &s.mode_lines {
        assert_eq!(line.maps.len(), 8);
        for e in &line.maps {
            assert_eq!(e.map, None);
            assert_eq!(e.status, MapStatus::Unmarked);
        }
    }
    assert_eq!(s.selected_slot, None);
    assert!(s.slot_winners.is_empty());
}

#[test]
fn cycling_a_winner_scores_for_that_team() {
    let mut b = board();
    assert!(matches!(send(&mut b, Message::CycleSlotWinner(0)), Effect::Publish));
    assert_eq!(b.state.slot_winners.len(), 9);
    assert_eq!(b.state.slot_winners[0], SlotWinner::TeamA);
    assert_eq!((b.state.team_a, b.state.team_b), (1, 0));
    send(&mut b, Message::CycleSlotWinner(0));
    assert_eq!(b.state.slot_winners[0], SlotWinner::TeamB);
    assert_eq!((b.state.team_a, b.state.team_b), (0, 1));
    send(&mut b, Message::CycleSlotWinner(0));
    assert_eq!(b.state.slot_winners[0], SlotWinner::Undecided);
    assert_eq!((b.state.team_a, b.state.team_b), (0, 0));
}

#[test]
fn cycling_a_missing_slot_only_fits_the_winner_list() {
    let mut b = board();
    send(&mut b, Message::CycleSlotWinner(20));
    assert_eq!(b.state.slot_winners, vec![SlotWinner::Undecided; 9]);
    assert_eq!((b.state.team_a, b.state.team_b), (0, 0));
}

#[test]
fn score_buttons_are_overridden_by_the_winners() {
    let mut b = board();
    send(&mut b, Message::AddA);
    send(&mut b, Message::AddB);
    assert_eq!((b.state.team_a, b.state.team_b), (0, 0));
    send(&mut b, Message::CycleSlotWinner(2));
    send(&mut b, Message::SubtractA);
    assert_eq!(b.state.team_a, 1);
}

#[test]
fn swapping_trades_names_scores_and_winners() {
    let mut b = board();
    b.state.team_a_name = "Alpha".to_string();
    b.state.team_a_dir = "alpha".to_string();
    send(&mut b, Message::CycleSlotWinner(1));
    send(&mut b, Message::SwapTeams);
    assert_eq!(b.state.team_b_name, "Alpha");
    assert_eq!(b.state.team_a_name, "Team B");
    assert_eq!(b.state.team_b_dir, "alpha");
    assert_eq!(b.state.slot_winners[1], SlotWinner::TeamB);
    assert_eq!((b.state.team_a, b.state.team_b), (0, 1));
    send(&mut b, Message::SwapTeams);
    assert_eq!(b.state.team_a_name, "Alpha");
    assert_eq!(b.state.slot_winners[1], SlotWinner::TeamA);
    assert_eq!((b.state.team_a, b.state.team_b), (1, 0));
}

#[test]
fn reset_clears_every_winner() {
    let mut b = board();
    send(&mut b, Message::CycleSlotWinner(0));
    send(&mut b, Message::CycleSlotWinner(3));
    send(&mut b, Message::CycleSlotWinner(3));
    assert_eq!((b.state.team_a, b.state.team_b), (1, 1));
    send(&mut b, Message::ResetAll);
    assert_eq!(b.state.slot_winners, vec![SlotWinner::Undecided; 9]);
    assert_eq!((b.state.team_a, b.state.team_b), (0, 0));
}

#[test]
fn pick_ban_cells_toggle() {
    let mut b = board();
    send(&mut b, Message::ToggleModeLineStatus(1, 2, MapStatus::Banned));
    assert_eq!(b.state.mode_lines[1].maps[2].status, MapStatus::Banned);
    send(&mut b, Message::ToggleModeLineStatus(1, 2, MapStatus::Picked));
    assert_eq!(b.state.mode_lines[1].maps[2].status, MapStatus::Picked);
    send(&mut b, Message::ToggleModeLineStatus(1, 2, MapStatus::Picked));
    assert_eq!(b.state.mode_lines[1].maps[2].status, MapStatus::Unmarked);
    send(&mut b, Message::ToggleModeLineStatus(1, 2, MapStatus::Banned));
    send(&mut b, Message::ToggleModeLineStatus(1, 2, MapStatus::Unmarked));
    assert_eq!(b.state.mode_lines[1].maps[2].status, MapStatus::Unmarked);
    send(&mut b, Message::ToggleModeLineStatus(7, 2, MapStatus::Banned));
    send(&mut b, Message::ToggleModeLineStatus(1, 9, MapStatus::Banned));
    assert!(b.state.mode_lines.iter().all(|l| l.maps.iter().all(|e| e.status == MapStatus::Unmarked)));
}

#[test]
fn clearing_picks_and_bans_keeps_map_names() {
    let mut b = board();
    send(&mut b, Message::SelectModeLineMap(0, 0, "Museum".to_string()));
    send(&mut b, Message::ToggleModeLineStatus(0, 0, MapStatus::Picked));
    send(&mut b, Message::ToggleModeLineStatus(3, 7, MapStatus::Banned));
    send(&mut b, Message::ClearPicksBans);
    assert_eq!(b.state.mode_lines[0].maps[0].map.as_deref(), Some("Museum"));
    assert_eq!(b.state.mode_lines[0].maps[0].status, MapStatus::Unmarked);
    assert_eq!(b.state.mode_lines[3].maps[7].status, MapStatus::Unmarked);
}

#[test]
fn text_fields_are_stored() {
    let mut b = board();
    send(&mut b, Message::SetDescription("Finals".to_string()));
    send(&mut b, Message::SetCommentatorA("Ann".to_string()));
    send(&mut b, Message::SetCommentatorB("Bob".to_string()));
    send(&mut b, Message::SwitchTab(2));
    assert_eq!(b.state.description, "Finals");
    assert_eq!(b.state.commentator_a, "Ann");
    assert_eq!(b.state.commentator_b, "Bob");
    assert_eq!(b.selected_tab, 2);
}

#[test]
fn selected_slot_is_on_air() {
    let mut b = board();
    send(&mut b, Message::SelectMap(0, "Reef".to_string()));
    send(&mut b, Message::SelectMode(0, "Zones".to_string()));
    send(&mut b, Message::SelectMap(4, "Museum".to_string()));
    send(&mut b, Message::SelectMode(4, "Tower".to_string()));
    send(&mut b, Message::SelectMap(42, "Nowhere".to_string()));
    let p = scores_payload(&b.state);
    assert_eq!(p.map.as_deref(), Some("Reef"));
    assert_eq!(p.mode.as_deref(), Some("Zones"));
    send(&mut b, Message::ToggleUse(4, true));
    assert_eq!(b.state.selected_slot, Some(4));
    let p = scores_payload(&b.state);
    assert_eq!(p.map.as_deref(), Some("Museum"));
    assert_eq!(p.mode.as_deref(), Some("Tower"));
    send(&mut b, Message::ToggleUse(3, false));
    assert_eq!(b.state.selected_slot, Some(4));
    send(&mut b, Message::ToggleUse(4, false));
    assert_eq!(b.state.selected_slot, None);
    assert_eq!(scores_payload(&b.state).map.as_deref(), Some("Reef"));
}

#[test]
fn on_air_falls_back_per_field() {
    let mut b = board();
    send(&mut b, Message::SelectMode(1, "Clams".to_string()));
    send(&mut b, Message::SelectMap(2, "Canal".to_string()));
    send(&mut b, Message::SelectMap(5, "Hotel".to_string()));
    send(&mut b, Message::ToggleUse(5, true));
    let p = scores_payload(&b.state);
    assert_eq!(p.map.as_deref(), Some("Hotel"));
    assert_eq!(p.mode.as_deref(), Some("Clams"));
}

#[test]
fn empty_slots_put_nothing_on_air() {
    let b = board();
    let p = scores_payload(&b.state);
    assert_eq!(p.map, None);
    assert_eq!(p.mode, None);
    assert_eq!(p.description, "Competition - Stage X");
    assert_eq!(p.mode_lines.len(), 4);
}

#[test]
fn selecting_a_team_asks_for_its_names() {
    let mut b = board();
    match send(&mut b, Message::SelectTeamA("IKS Sina".to_string())) {
        Effect::LoadTeamNames(TeamSide::A, dir) => assert_eq!(dir, "IKS Sina"),
        _ => panic!("expected a name lookup"),
    }
    apply_team_names(
        &mut b,
        TeamSide::A,
        "IKS Sina".to_string(),
        Some("  Ink Souls Sina \n".to_string()),
        None,
    );
    assert_eq!(b.state.team_a_full, "Ink Souls Sina");
    assert_eq!(b.state.team_a_trunc, "IKS Sina");
    assert_eq!(b.state.team_a_name, "IKS Sina");
    assert_eq!(b.state.team_a_dir, "IKS Sina");
}

#[test]
fn selecting_no_team_clears_the_side() {
    let mut b = board();
    assert!(matches!(send(&mut b, Message::SelectTeamB(String::new())), Effect::Publish));
    assert_eq!(b.state.team_b_full, "");
    assert_eq!(b.state.team_b_trunc, "");
    assert_eq!(b.state.team_b_name, "");
    assert_eq!(b.state.team_b_dir, "");
    assert_eq!(b.state.team_a_name, "Team A");
}

#[test]
fn team_names_fall_back_to_the_directory() {
    assert_eq!(load_team_names("", Some("x".to_string()), None), None);
    assert_eq!(
        load_team_names(" Alpha ", None, None),
        Some(("Alpha".to_string(), "Alpha".to_string()))
    );
    assert_eq!(
        load_team_names("alpha", Some("Alpha Team\n".to_string()), Some("\tALP".to_string())),
        Some(("Alpha Team".to_string(), "ALP".to_string()))
    );
}

#[test]
fn new_team_names_are_checked() {
    assert_eq!(
        validate_team_names("   ", "A"),
        Err("Full name is required".to_string())
    );
    assert_eq!(
        validate_team_names("Alpha", " \u{3000}"),
        Err("Short name is required".to_string())
    );
    assert_eq!(
        validate_team_names("a/b", "ab"),
        Err("Full name cannot contain path separators".to_string())
    );
    assert_eq!(
        validate_team_names("a\\b", "ab"),
        Err("Full name cannot contain path separators".to_string())
    );
    assert_eq!(
        validate_team_names(" Alpha Team ", " ALP "),
        Ok(("Alpha Team".to_string(), "ALP".to_string()))
    );
}

#[test]
fn team_creation_form_reports_missing_inputs() {
    let mut b = board();
    send(&mut b, Message::SubmitCreateTeam);
    assert_eq!(b.create_team_feedback, "Full name is required");
    assert!(b.create_team_feedback_is_error);
    send(&mut b, Message::SetCreateTeamFull(" Alpha ".to_string()));
    assert_eq!(b.create_team_feedback, "");
    assert!(!b.create_team_feedback_is_error);
    send(&mut b, Message::SubmitCreateTeam);
    assert_eq!(b.create_team_feedback, "Short name is required");
    send(&mut b, Message::SetCreateTeamTrunc("ALP".to_string()));
    send(&mut b, Message::SubmitCreateTeam);
    assert_eq!(b.create_team_feedback, "A logo file is required");
    assert!(matches!(send(&mut b, Message::PickCreateTeamLogo), Effect::PickLogo));
    send(&mut b, Message::CreateTeamLogoPicked(Some(PathBuf::from("logo.png"))));
    assert_eq!(b.create_team_feedback, "");
    match send(&mut b, Message::SubmitCreateTeam) {
        Effect::CreateTeam(full, trunc) => {
            assert_eq!(full, "Alpha");
            assert_eq!(trunc, "ALP");
        }
        _ => panic!("expected a team creation"),
    }
}

#[test]
fn finished_team_creation_resets_the_form() {
    let mut b = board();
    b.create_team_full_input = "Alpha".to_string();
    b.create_team_logo_path = Some(PathBuf::from("logo.png"));
    finish_create_team(&mut b, "Alpha".to_string(), Err("Failed to save logo.png: disk".to_string()));
    assert_eq!(b.create_team_feedback, "Failed to save logo.png: disk");
    assert!(b.create_team_feedback_is_error);
    assert_eq!(b.create_team_full_input, "Alpha");
    finish_create_team(
        &mut b,
        "Alpha".to_string(),
        Ok(vec![String::new(), "Alpha".to_string()]),
    );
    assert_eq!(b.create_team_feedback, "Team \"Alpha\" created successfully");
    assert!(!b.create_team_feedback_is_error);
    assert_eq!(b.create_team_full_input, "");
    assert_eq!(b.create_team_logo_path, None);
    assert_eq!(b.available_teams, vec![String::new(), "Alpha".to_string()]);
}

#[test]
fn winner_labels_name_the_team() {
    let mut b = board();
    assert_eq!(slot_winner_label(&b, SlotWinner::Undecided), "Winner: -");
    assert_eq!(slot_winner_label(&b, SlotWinner::TeamA), "Winner: Team A");
    b.state.team_b_trunc = String::new();
    b.state.team_b_name = "Bravo".to_string();
    assert_eq!(slot_winner_label(&b, SlotWinner::TeamB), "Winner: Bravo");
    b.state.team_b_name = String::new();
    assert_eq!(slot_winner_label(&b, SlotWinner::TeamB), "Winner: Team B");
}

#[test]
fn team_pickers_show_listed_directories() {
    let teams = vec![String::new(), "Alpha".to_string(), "Bravo".to_string()];
    assert_eq!(listed_dir_selection(&teams, &"Bravo".to_string()), Some("Bravo".to_string()));
    assert_eq!(listed_dir_selection(&teams, &"Charlie".to_string()), None);
    assert_eq!(listed_dir_selection(&teams, &String::new()), None);
    assert_eq!(dir_selection(&"Charlie".to_string()), Some("Charlie".to_string()));
    assert_eq!(dir_selection(&String::new()), None);
}

#[test]
fn trimming_follows_std() {
    for s in ["", "  ", " a ", "\u{a0}x\u{2003}y\u{205f}", "\r\n\tz\u{85}", "é ", "\u{200b}q"] {
        assert_eq!(trim(s), s.trim());
        assert_eq!(trim(&trim(s)), trim(s));
    }
    for c in ['\u{1680}', '\u{2028}', ' ', 'a', '\u{200b}', '\u{feff}'] {
        assert_eq!(white_space(c), c.is_whitespace());
    }
    assert!(has_path_separator("a/b"));
    assert!(!has_path_separator("ab"));
}

#[test]
fn logo_dialog_leaves_the_state_alone() {
    let mut b = board();
    b.state.team_a = 7;
    assert!(matches!(send(&mut b, Message::PickCreateTeamLogo), Effect::PickLogo));
    assert_eq!(b.state.team_a, 7);
}

#[test]
fn swapping_keeps_winner_labels() {
    let mut b = board();
    b.state.team_a_trunc = "ALP".to_string();
    b.state.team_b_trunc = "BRV".to_string();
    send(&mut b, Message::CycleSlotWinner(0));
    send(&mut b, Message::CycleSlotWinner(1));
    send(&mut b, Message::CycleSlotWinner(1));
    let before: Vec<String> = b.state.slot_winners.iter().map(|w| slot_winner_label(&b, *w)).collect();
    assert_eq!(before[0], "Winner: ALP");
    assert_eq!(before[1], "Winner: BRV");
    send(&mut b, Message::SwapTeams);
    let after: Vec<String> = b.state.slot_winners.iter().map(|w| slot_winner_label(&b, *w)).collect();
    assert_eq!(before, after);
}

#[test]
fn pick_then_same_pick_restores_the_cell() {
    let mut b = board();
    send(&mut b, Message::ToggleModeLineStatus(2, 5, MapStatus::Picked));
    send(&mut b, Message::ToggleModeLineStatus(2, 5, MapStatus::Picked));
    assert_eq!(b.state.mode_lines[2].maps[5].status, MapStatus::Unmarked);
    send(&mut b, Message::ToggleModeLineStatus(2, 5, MapStatus::Banned));
    send(&mut b, Message::ToggleModeLineStatus(2, 5, MapStatus::Banned));
    send(&mut b, Message::ToggleModeLineStatus(2, 5, MapStatus::Banned));
    assert_eq!(b.state.mode_lines[2].maps[5].status, MapStatus::Banned);
}

#[test]
fn winner_list_follows_the_slot_count() {
    let mut s = TeamState::default();
    s.slot_winners = vec![SlotWinner::TeamB; 12];
    s.ensure_slot_winners_len();
    assert_eq!(s.slot_winners, vec![SlotWinner::TeamB; 9]);
    s.map_mode_slots.push((None, None));
    s.ensure_slot_winners_len();
    assert_eq!(s.slot_winners.len(), 10);
    assert_eq!(s.slot_winners[9], SlotWinner::Undecided);
    s.sync_scores_from_slot_winners();
    assert_eq!((s.team_a, s.team_b), (0, 9));
}
