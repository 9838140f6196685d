use timeloop::{
    AdvanceOutcome, InstantIndex, Intents, State, TimeMode, EDITING_COLOUR, INSTANT_COUNT,
    NEUTRAL_COLOUR, NORMAL_COLOUR, PARADOX_COLOUR,
};

fn confirm() -> Intents {
    let mut i = Intents::none();
    i.confirm = true;
    i
}

fn enter_edit() -> Intents {
    let mut i = Intents::none();
    i.enter_edit_mode = true;
    i
}

fn scrub_left_1() -> Intents {
    let mut i = Intents::none();
    i.scrub_left_1 = true;
    i
}

fn move_right() -> Intents {
    let mut i = Intents::none();
    i.move_right = true;
    i
}

fn candidate_of(s: &State) -> InstantIndex {
    match s.time_mode() {
        TimeMode::Manipulating(t) => t.get_value(),
        _ => panic!("not manipulating"),
    }
}

#[test]
fn example_scenario_rewind_without_paradox() {
    // the player starts at (5, 5)
    let mut s = State::new(5, 5);
    assert!(matches!(s.time_mode(), TimeMode::MainMenu));

    // confirm from the main menu: time starts flowing
    s.frame(confirm());
    assert!(matches!(s.time_mode(), TimeMode::Flowing));
    assert_eq!(s.current_index(), 0);

    // move right once; the implicit advance stamps the prior cell (5, 5)
    s.frame(move_right());
    assert_eq!(s.player().x.get(), 6);
    assert_eq!(s.player().y.get(), 5);
    assert_eq!(s.current_index(), 1);
    assert_eq!(s.last_outcome(), AdvanceOutcome::Success);

    // enter edit mode: candidate and anchor snapshot the current index
    s.frame(enter_edit());
    assert_eq!(candidate_of(&s), 1);

    // scrub left by one: candidate drops to 0
    s.frame(scrub_left_1());
    assert_eq!(candidate_of(&s), 0);

    // confirm: instant 0 holds (5, 5), the player is at (6, 5) -- no match
    s.frame(confirm());
    assert_eq!(s.current_index(), 0);
    assert!(matches!(s.time_mode(), TimeMode::Flowing));

    // and instant 0 indeed shows the single recorded self at (5, 5)
    let (splats, player_splat) = s.current_splats();
    assert_eq!(splats.len(), 1);
    assert_eq!(splats[0].x.get(), 5);
    assert_eq!(splats[0].y.get(), 5);
    assert_eq!(splats[0].colour, NORMAL_COLOUR);
    assert_eq!(player_splat.x.get(), 6);
    assert_eq!(player_splat.colour, NORMAL_COLOUR);
}

#[test]
fn advancing_through_every_instant_runs_out_exactly_once_at_the_end() {
    let mut s = State::new(0, 0);
    let last = (INSTANT_COUNT - 1) as InstantIndex;
    let mut failures = 0;
    for k in 0..INSTANT_COUNT {
        s.advance_time();
        if k < INSTANT_COUNT - 1 {
            assert_eq!(s.last_outcome(), AdvanceOutcome::Success);
        } else {
            assert_eq!(s.last_outcome(), AdvanceOutcome::OutOfInstants);
            failures += 1;
        }
    }
    assert_eq!(failures, 1);
    assert_eq!(s.current_index(), last);

    // refused indefinitely from here on, with nothing else changed
    s.advance_time();
    assert_eq!(s.last_outcome(), AdvanceOutcome::OutOfInstants);
    assert_eq!(s.current_index(), last);
}

#[test]
fn main_menu_reacts_to_confirm_alone() {
    let mut s = State::new(10, 10);

    let mut everything_else = Intents::none();
    everything_else.move_up = true;
    everything_else.move_down = true;
    everything_else.move_left = true;
    everything_else.move_right = true;
    everything_else.enter_edit_mode = true;
    everything_else.scrub_up_10 = true;
    everything_else.scrub_down_10 = true;
    everything_else.scrub_left_1 = true;
    everything_else.scrub_right_1 = true;
    everything_else.add_100 = true;
    everything_else.sub_100 = true;
    everything_else.reset_scrub = true;
    s.frame(everything_else);

    assert!(matches!(s.time_mode(), TimeMode::MainMenu));
    assert_eq!(s.current_index(), 0);
    assert_eq!(s.player().x.get(), 10);
    assert_eq!(s.player().y.get(), 10);

    s.frame(confirm());
    assert!(matches!(s.time_mode(), TimeMode::Flowing));
}

#[test]
fn entering_edit_mode_snapshots_the_current_index() {
    let mut s = State::new(0, 0);
    s.frame(confirm());
    for _ in 0..5 {
        s.frame(Intents::none());
    }
    assert_eq!(s.current_index(), 5);

    s.frame(enter_edit());
    assert_eq!(candidate_of(&s), 5);

    // the anchor was snapshotted too: scrub away, then reset back
    let mut scrub = Intents::none();
    scrub.add_100 = true;
    s.frame(scrub);
    assert_eq!(candidate_of(&s), 105);
    let mut reset = Intents::none();
    reset.reset_scrub = true;
    s.frame(reset);
    assert_eq!(candidate_of(&s), 5);
}

#[test]
fn confirming_onto_an_occupied_cell_collides() {
    let mut s = State::new(5, 5);
    s.frame(confirm());
    // stamp (5, 5) at instant 0 without moving
    s.frame(Intents::none());
    assert_eq!(s.current_index(), 1);

    s.frame(enter_edit());
    s.frame(scrub_left_1());
    s.frame(confirm());

    assert_eq!(s.current_index(), 0);
    assert!(matches!(s.time_mode(), TimeMode::Collision(_)));
}

#[test]
fn confirming_onto_a_free_cell_flows_on() {
    let mut s = State::new(5, 5);
    s.frame(confirm());
    // stamp (5, 5) at instant 0 and step aside in the same frame
    s.frame(move_right());

    s.frame(enter_edit());
    s.frame(scrub_left_1());
    s.frame(confirm());

    assert!(matches!(s.time_mode(), TimeMode::Flowing));
}

#[test]
fn collision_mode_is_terminal() {
    let mut s = State::new(5, 5);
    s.frame(confirm());
    s.frame(Intents::none());
    s.frame(enter_edit());
    s.frame(scrub_left_1());
    s.frame(confirm());
    assert!(matches!(s.time_mode(), TimeMode::Collision(_)));

    let before = s.current_index();
    s.frame(confirm());
    s.frame(move_right());
    s.frame(enter_edit());
    assert!(matches!(s.time_mode(), TimeMode::Collision(_)));
    assert_eq!(s.current_index(), before);
    assert_eq!(s.player().x.get(), 5);
}

#[test]
fn menu_view_is_empty_and_neutral_whatever_the_timeline_holds() {
    let mut s = State::new(30, 30);
    // fill a few instants while still in the menu: the advance operation
    // itself does not mind the mode
    s.advance_time();
    s.advance_time();
    s.advance_time();
    assert!(matches!(s.time_mode(), TimeMode::MainMenu));

    let (splats, player_splat) = s.current_splats();
    assert!(splats.is_empty());
    assert_eq!(player_splat.colour, NEUTRAL_COLOUR);
    assert!(s.check_collision().is_ok());
}

#[test]
fn collision_view_is_empty_and_neutral() {
    let mut s = State::new(5, 5);
    s.frame(confirm());
    s.frame(Intents::none());
    s.frame(enter_edit());
    s.frame(scrub_left_1());
    s.frame(confirm());
    assert!(matches!(s.time_mode(), TimeMode::Collision(_)));

    let (splats, player_splat) = s.current_splats();
    assert!(splats.is_empty());
    assert_eq!(player_splat.colour, NEUTRAL_COLOUR);
}

#[test]
fn player_splat_shows_paradox_red_while_scrubbing_onto_a_self() {
    let mut s = State::new(5, 5);
    s.frame(confirm());
    s.frame(Intents::none());
    s.frame(enter_edit());
    // viewing instant 1, which is empty: editing colour
    let (splats, player_splat) = s.current_splats();
    assert!(splats.is_empty());
    assert_eq!(player_splat.colour, EDITING_COLOUR);

    // scrub back to instant 0, which holds the player's own cell
    s.frame(scrub_left_1());
    let (splats, player_splat) = s.current_splats();
    assert_eq!(splats.len(), 1);
    assert_eq!(player_splat.colour, PARADOX_COLOUR);
}

#[test]
fn movement_intents_apply_with_up_down_left_right_priority() {
    let mut s = State::new(10, 10);
    s.frame(confirm());

    let mut up_and_down = Intents::none();
    up_and_down.move_up = true;
    up_and_down.move_down = true;
    up_and_down.move_left = true;
    s.frame(up_and_down);
    // only the first pressed direction in priority order applied
    assert_eq!(s.player().x.get(), 10);
    assert_eq!(s.player().y.get(), 9);

    let mut down_and_left = Intents::none();
    down_and_left.move_down = true;
    down_and_left.move_left = true;
    s.frame(down_and_left);
    assert_eq!(s.player().x.get(), 10);
    assert_eq!(s.player().y.get(), 10);

    let mut left_and_right = Intents::none();
    left_and_right.move_left = true;
    left_and_right.move_right = true;
    s.frame(left_and_right);
    assert_eq!(s.player().x.get(), 9);
    assert_eq!(s.player().y.get(), 10);
}

#[test]
fn each_flowing_frame_advances_once_even_without_movement() {
    let mut s = State::new(3, 4);
    s.frame(confirm());
    for k in 0..4 {
        assert_eq!(s.current_index(), k);
        s.frame(Intents::none());
        assert_eq!(s.last_outcome(), AdvanceOutcome::Success);
    }
    assert_eq!(s.current_index(), 4);
    // entering edit mode does not advance
    s.frame(enter_edit());
    assert_eq!(s.current_index(), 4);
}

#[test]
fn direct_moves_mutate_the_player_saturating() {
    let mut s = State::new(0, 0);
    s.move_left();
    s.move_up();
    assert_eq!(s.player().x.get(), 0);
    assert_eq!(s.player().y.get(), 0);
    s.move_right();
    s.move_down();
    assert_eq!(s.player().x.get(), 1);
    assert_eq!(s.player().y.get(), 1);
}

#[test]
fn new_state_clamps_the_raw_position_and_starts_in_the_menu() {
    let s = State::new(255, 255);
    assert_eq!(s.player().x.get(), 128);
    assert_eq!(s.player().y.get(), 64);
    assert!(matches!(s.time_mode(), TimeMode::MainMenu));
    assert_eq!(s.current_index(), 0);
    assert_eq!(s.last_outcome(), AdvanceOutcome::Success);

    let d = State::default();
    assert_eq!(d.player().x.get(), 0);
    assert_eq!(d.player().y.get(), 0);
    assert!(matches!(d.time_mode(), TimeMode::MainMenu));
}

#[test]
fn view_instant_reads_any_index_without_panicking() {
    let mut s = State::new(7, 8);
    s.frame(confirm());
    s.frame(Intents::none());
    let recorded = s.view_instant(0);
    assert_eq!(recorded.len(), 1);
    assert_eq!(recorded[0].x.get(), 7);
    assert_eq!(recorded[0].y.get(), 8);
    assert!(s.view_instant(1).is_empty());
    assert!(s.view_instant(65535).is_empty());
}

#[test]
fn fresh_time_input_anchors_at_the_current_index() {
    let mut s = State::new(0, 0);
    s.frame(confirm());
    s.frame(Intents::none());
    s.frame(Intents::none());
    let mut t = s.fresh_time_input();
    assert_eq!(t.get_value(), 2);
    t.saturating_add(10);
    t.reset();
    assert_eq!(t.get_value(), 2);
}
