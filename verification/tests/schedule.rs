use tank_game::menu::MenuState;
use tank_game::schedule::{frame_plan, schedule_order, ScheduleSet};

#[test]
fn a_frame_takes_the_sets_up_in_their_order() {
    assert_eq!(
        schedule_order(),
        vec![
            ScheduleSet::CheckMenu,
            ScheduleSet::Input,
            ScheduleSet::Physics,
            ScheduleSet::UpdateWorld,
            ScheduleSet::PauseMenu,
            ScheduleSet::Debug,
        ]
    );
}

#[test]
fn the_game_runs_while_the_menu_is_closed() {
    assert_eq!(
        frame_plan(MenuState::Closed),
        vec![
            ScheduleSet::CheckMenu,
            ScheduleSet::Input,
            ScheduleSet::Physics,
            ScheduleSet::UpdateWorld,
            ScheduleSet::Debug,
        ]
    );
}

#[test]
fn the_buttons_are_served_while_the_menu_is_open() {
    assert_eq!(
        frame_plan(MenuState::Open),
        vec![ScheduleSet::CheckMenu, ScheduleSet::PauseMenu, ScheduleSet::Debug]
    );
}

#[test]
fn every_frame_runs_the_game_or_the_menu_and_never_both() {
    let game = [ScheduleSet::Input, ScheduleSet::Physics, ScheduleSet::UpdateWorld];
    for state in [MenuState::Closed, MenuState::Open] {
        let plan = frame_plan(state);
        let runs_game = game.iter().all(|set| plan.contains(set));
        let runs_none = game.iter().all(|set| !plan.contains(set));
        let runs_menu = plan.contains(&ScheduleSet::PauseMenu);
        assert!(runs_game || runs_none);
        assert_ne!(runs_game, runs_menu);
        assert_eq!(runs_game, state == MenuState::Closed);
        assert_eq!(plan.first(), Some(&ScheduleSet::CheckMenu));
        assert_eq!(plan.last(), Some(&ScheduleSet::Debug));
    }
}

#[test]
fn each_set_is_asked_whether_it_runs() {
    assert!(ScheduleSet::CheckMenu.is_enabled(MenuState::Closed));
    assert!(ScheduleSet::CheckMenu.is_enabled(MenuState::Open));
    assert!(ScheduleSet::Debug.is_enabled(MenuState::Closed));
    assert!(ScheduleSet::Debug.is_enabled(MenuState::Open));
    assert!(ScheduleSet::Input.is_enabled(MenuState::Closed));
    assert!(!ScheduleSet::Input.is_enabled(MenuState::Open));
    assert!(ScheduleSet::Physics.is_enabled(MenuState::Closed));
    assert!(!ScheduleSet::Physics.is_enabled(MenuState::Open));
    assert!(ScheduleSet::UpdateWorld.is_enabled(MenuState::Closed));
    assert!(!ScheduleSet::UpdateWorld.is_enabled(MenuState::Open));
    assert!(!ScheduleSet::PauseMenu.is_enabled(MenuState::Closed));
    assert!(ScheduleSet::PauseMenu.is_enabled(MenuState::Open));
}
