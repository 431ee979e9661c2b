use bevy::input::keyboard::KeyCode;
use bevy::input::Input;
use tank_game::menu::{
    button_hower, check_menu, clear_menu, fortsetzen_button, quit_game_button, spawn_overlay,
    toggle_framerate_lock, toggle_menu, Control, Interaction, InteractionChange, Label, Limiter,
    Menu, MenuItem, MenuState, TextColor, Widget,
};

fn escape() -> Input<KeyCode> {
    let mut input = Input::<KeyCode>::default();
    input.press(KeyCode::Escape);
    input
}

fn open_menu() -> Menu {
    let mut menu = Menu::new();
    check_menu(&mut menu, &escape());
    menu
}

fn change(item: usize, interaction: Interaction) -> InteractionChange {
    InteractionChange { item, interaction }
}

fn text(label: Label, font_size: u32, color: TextColor, margin: u32, parent: Option<usize>, control: Option<Control>) -> MenuItem {
    MenuItem { widget: Widget::Text { label, font_size, color }, parent, control, margin }
}

fn button(control: Control) -> MenuItem {
    MenuItem { widget: Widget::Button { opacity: 800 }, parent: None, control: Some(control), margin: 15 }
}

fn label_of(menu: &Menu, item: usize) -> Label {
    match menu.items()[item].widget {
        Widget::Text { label, .. } => label,
        Widget::Button { .. } => panic!("no text at this place"),
    }
}

fn opacity_of(menu: &Menu, item: usize) -> u32 {
    match menu.items()[item].widget {
        Widget::Button { opacity } => opacity,
        Widget::Text { .. } => panic!("no button at this place"),
    }
}

#[test]
fn the_menu_begins_closed() {
    let menu = Menu::new();
    assert_eq!(menu.state(), MenuState::Closed);
    assert_eq!(menu.next_state(), None);
    assert!(menu.items().is_empty());
    assert_eq!(MenuState::default(), MenuState::Closed);
}

#[test]
fn the_overlay_is_made_of_nine_entities() {
    let items = spawn_overlay();
    assert_eq!(
        items,
        vec![
            text(Label::TankGame, 80, TextColor::Red, 30, None, None),
            text(Label::SpielPausiert, 50, TextColor::White, 15, None, None),
            text(Label::EscapeZumFortsetzen, 50, TextColor::White, 15, None, None),
            button(Control::FortsetzenButton),
            text(Label::Fortsetzen, 25, TextColor::White, 15, Some(3), None),
            button(Control::FPSButton),
            text(Label::FramerateLocked, 25, TextColor::White, 15, Some(5), Some(Control::FPSButton)),
            button(Control::QuitButton),
            text(Label::SpielBeenden, 25, TextColor::White, 15, Some(7), Some(Control::QuitButton)),
        ]
    );
}

#[test]
fn the_texts_are_spelled_as_they_are_shown() {
    assert_eq!(Label::TankGame.text(), "Tank Game");
    assert_eq!(Label::SpielPausiert.text(), "Spiel Pausiert");
    assert_eq!(Label::EscapeZumFortsetzen.text(), "Escape zum Fortsetzen");
    assert_eq!(Label::Fortsetzen.text(), "Fortsetzen");
    assert_eq!(Label::FramerateLocked.text(), "Framerate: Locked");
    assert_eq!(Label::FramerateUnlocked.text(), "Framerate: Unlocked");
    assert_eq!(Label::SpielBeenden.text(), "Spiel Beenden");
}

#[test]
fn the_key_opens_the_menu_and_closes_it_again() {
    let mut menu = Menu::new();
    toggle_menu(&mut menu, &escape());
    assert_eq!(menu.state(), MenuState::Open);
    assert_eq!(menu.items(), &spawn_overlay());
    assert_eq!(menu.items().len(), 9);
    toggle_menu(&mut menu, &escape());
    assert_eq!(menu.state(), MenuState::Closed);
    assert!(menu.items().is_empty());
    toggle_menu(&mut menu, &escape());
    assert_eq!(menu.state(), MenuState::Open);
    assert_eq!(menu.items(), &spawn_overlay());
}

#[test]
fn a_key_that_is_only_held_does_not_toggle_the_menu() {
    let mut input = escape();
    let mut menu = Menu::new();
    check_menu(&mut menu, &input);
    assert_eq!(menu.state(), MenuState::Open);
    input.clear();
    check_menu(&mut menu, &input);
    check_menu(&mut menu, &input);
    assert_eq!(menu.state(), MenuState::Open);
    assert_eq!(menu.items().len(), 9);
    input.release(KeyCode::Escape);
    input.clear();
    check_menu(&mut menu, &input);
    assert_eq!(menu.state(), MenuState::Open);
    input.press(KeyCode::Escape);
    check_menu(&mut menu, &input);
    assert_eq!(menu.state(), MenuState::Closed);
    assert_eq!(menu.items().len(), 0);
}

#[test]
fn other_keys_do_not_toggle_the_menu() {
    let mut input = Input::<KeyCode>::default();
    input.press(KeyCode::W);
    input.press(KeyCode::ShiftLeft);
    input.press(KeyCode::Return);
    let mut menu = Menu::new();
    check_menu(&mut menu, &input);
    assert_eq!(menu.state(), MenuState::Closed);
    assert!(menu.items().is_empty());
}

#[test]
fn reopening_makes_the_overlay_from_scratch() {
    let mut menu = open_menu();
    let mut limiter = Limiter::Auto;
    toggle_framerate_lock(&mut menu, &mut limiter, &vec![change(5, Interaction::Pressed)]);
    button_hower(&mut menu, &vec![change(3, Interaction::Idle)]);
    assert_ne!(menu.items(), &spawn_overlay());
    check_menu(&mut menu, &escape());
    assert!(menu.items().is_empty());
    check_menu(&mut menu, &escape());
    assert_eq!(menu.items(), &spawn_overlay());
}

#[test]
fn sweeping_leaves_an_open_menu_alone() {
    let mut menu = open_menu();
    clear_menu(&mut menu);
    assert_eq!(menu.items().len(), 9);
    let mut closed = Menu::new();
    clear_menu(&mut closed);
    assert!(closed.items().is_empty());
    assert_eq!(closed.state(), MenuState::Closed);
}

#[test]
fn the_resume_button_closes_the_menu_at_the_next_check() {
    let mut menu = open_menu();
    fortsetzen_button(&mut menu, &vec![change(3, Interaction::Pressed)]);
    assert_eq!(menu.state(), MenuState::Open);
    assert_eq!(menu.next_state(), Some(MenuState::Closed));
    assert_eq!(menu.items().len(), 9);
    check_menu(&mut menu, &Input::<KeyCode>::default());
    assert_eq!(menu.state(), MenuState::Closed);
    assert_eq!(menu.next_state(), None);
    assert!(menu.items().is_empty());
}

#[test]
fn the_resume_button_and_the_key_together_reopen_the_menu() {
    let mut menu = open_menu();
    fortsetzen_button(&mut menu, &vec![change(3, Interaction::Pressed)]);
    check_menu(&mut menu, &escape());
    assert_eq!(menu.state(), MenuState::Open);
    assert_eq!(menu.next_state(), None);
    assert_eq!(menu.items(), &spawn_overlay());
}

#[test]
fn only_a_press_of_the_resume_button_resumes() {
    let mut menu = open_menu();
    fortsetzen_button(
        &mut menu,
        &vec![
            change(3, Interaction::Hovered),
            change(3, Interaction::Idle),
            change(4, Interaction::Pressed),
            change(5, Interaction::Pressed),
            change(7, Interaction::Pressed),
            change(9, Interaction::Pressed),
        ],
    );
    assert_eq!(menu.next_state(), None);
    fortsetzen_button(&mut menu, &vec![change(0, Interaction::Pressed), change(3, Interaction::Pressed)]);
    assert_eq!(menu.next_state(), Some(MenuState::Closed));
    let mut closed = Menu::new();
    fortsetzen_button(&mut closed, &vec![change(3, Interaction::Pressed)]);
    assert_eq!(closed.next_state(), None);
}

#[test]
fn a_request_is_brought_about_by_the_next_check() {
    let mut menu = Menu::new();
    menu.request(MenuState::Open);
    assert_eq!(menu.state(), MenuState::Closed);
    menu.apply_next_state();
    assert_eq!(menu.state(), MenuState::Open);
    assert_eq!(menu.next_state(), None);
    assert_eq!(menu.items(), &spawn_overlay());
    menu.request(MenuState::Open);
    button_hower(&mut menu, &vec![change(7, Interaction::Idle)]);
    menu.apply_next_state();
    assert_eq!(opacity_of(&menu, 7), 500);
    menu.request(MenuState::Closed);
    menu.apply_next_state();
    assert_eq!(menu.state(), MenuState::Closed);
    assert!(menu.items().is_empty());
}

#[test]
fn the_quit_button_ends_the_game() {
    let menu = open_menu();
    assert!(quit_game_button(&menu, &vec![change(7, Interaction::Pressed)]));
    assert!(quit_game_button(
        &menu,
        &vec![change(3, Interaction::Hovered), change(7, Interaction::Pressed), change(7, Interaction::Idle)]
    ));
    assert!(!quit_game_button(&menu, &vec![change(7, Interaction::Hovered)]));
    assert!(!quit_game_button(&menu, &vec![change(8, Interaction::Pressed)]));
    assert!(!quit_game_button(&menu, &vec![change(3, Interaction::Pressed)]));
    assert!(!quit_game_button(&menu, &vec![]));
    assert!(!quit_game_button(&Menu::new(), &vec![change(7, Interaction::Pressed)]));
}

#[test]
fn the_framerate_button_flips_the_setting_and_says_so() {
    let mut menu = open_menu();
    let mut limiter = Limiter::Auto;
    toggle_framerate_lock(&mut menu, &mut limiter, &vec![change(5, Interaction::Pressed)]);
    assert_eq!(limiter, Limiter::Off);
    assert_eq!(label_of(&menu, 6), Label::FramerateUnlocked);
    assert_eq!(label_of(&menu, 6).text(), "Framerate: Unlocked");
    toggle_framerate_lock(&mut menu, &mut limiter, &vec![change(5, Interaction::Pressed)]);
    assert_eq!(limiter, Limiter::Auto);
    assert_eq!(label_of(&menu, 6).text(), "Framerate: Locked");
    assert_eq!(label_of(&menu, 4), Label::Fortsetzen);
    assert_eq!(label_of(&menu, 8), Label::SpielBeenden);
}

#[test]
fn a_rate_set_by_hand_becomes_a_locked_rate() {
    let mut menu = open_menu();
    let mut limiter = Limiter::Manual;
    toggle_framerate_lock(&mut menu, &mut limiter, &vec![change(5, Interaction::Pressed)]);
    assert_eq!(limiter, Limiter::Auto);
    assert_eq!(label_of(&menu, 6), Label::FramerateLocked);
}

#[test]
fn each_press_of_the_framerate_button_counts() {
    let mut menu = open_menu();
    let mut limiter = Limiter::Auto;
    let twice = vec![change(5, Interaction::Pressed), change(5, Interaction::Pressed)];
    toggle_framerate_lock(&mut menu, &mut limiter, &twice);
    assert_eq!(limiter, Limiter::Auto);
    assert_eq!(label_of(&menu, 6), Label::FramerateLocked);
    let thrice = vec![
        change(5, Interaction::Pressed),
        change(5, Interaction::Hovered),
        change(5, Interaction::Pressed),
        change(6, Interaction::Pressed),
        change(5, Interaction::Pressed),
    ];
    toggle_framerate_lock(&mut menu, &mut limiter, &thrice);
    assert_eq!(limiter, Limiter::Off);
    assert_eq!(label_of(&menu, 6), Label::FramerateUnlocked);
}

#[test]
fn other_buttons_leave_the_framerate_alone() {
    let mut menu = open_menu();
    let mut limiter = Limiter::Off;
    let others = vec![
        change(3, Interaction::Pressed),
        change(7, Interaction::Pressed),
        change(5, Interaction::Hovered),
        change(5, Interaction::Idle),
        change(100, Interaction::Pressed),
    ];
    toggle_framerate_lock(&mut menu, &mut limiter, &others);
    assert_eq!(limiter, Limiter::Off);
    assert_eq!(menu.items(), &spawn_overlay());
    let mut closed = Menu::new();
    toggle_framerate_lock(&mut closed, &mut limiter, &vec![change(5, Interaction::Pressed)]);
    assert_eq!(limiter, Limiter::Off);
    assert!(closed.items().is_empty());
}

#[test]
fn buttons_are_raised_under_the_pointer() {
    let mut menu = open_menu();
    assert_eq!(opacity_of(&menu, 3), 800);
    button_hower(&mut menu, &vec![change(3, Interaction::Idle)]);
    assert_eq!(opacity_of(&menu, 3), 500);
    assert_eq!(opacity_of(&menu, 5), 800);
    button_hower(&mut menu, &vec![change(3, Interaction::Pressed)]);
    assert_eq!(opacity_of(&menu, 3), 500);
    button_hower(&mut menu, &vec![change(3, Interaction::Hovered)]);
    assert_eq!(opacity_of(&menu, 3), 800);
    button_hower(
        &mut menu,
        &vec![change(5, Interaction::Idle), change(7, Interaction::Idle), change(5, Interaction::Hovered)],
    );
    assert_eq!(opacity_of(&menu, 5), 800);
    assert_eq!(opacity_of(&menu, 7), 500);
    assert_eq!(menu.state(), MenuState::Open);
    assert_eq!(menu.next_state(), None);
}

#[test]
fn texts_and_missing_entities_do_not_heed_the_pointer() {
    let mut menu = open_menu();
    button_hower(
        &mut menu,
        &vec![change(0, Interaction::Hovered), change(4, Interaction::Idle), change(9, Interaction::Idle)],
    );
    assert_eq!(menu.items(), &spawn_overlay());
    let mut closed = Menu::new();
    button_hower(&mut closed, &vec![change(0, Interaction::Idle)]);
    assert!(closed.items().is_empty());
}

#[test]
fn buttons_are_told_apart_by_their_control() {
    let items = spawn_overlay();
    assert!(items[3].button_of(Control::FortsetzenButton));
    assert!(!items[3].button_of(Control::QuitButton));
    assert!(items[5].button_of(Control::FPSButton));
    assert!(items[7].button_of(Control::QuitButton));
    assert!(!items[6].button_of(Control::FPSButton));
    assert!(!items[0].button_of(Control::FortsetzenButton));
}

#[test]
fn the_menu_can_be_checked_on_a_key_that_was_read_before() {
    let mut menu = Menu::new();
    menu.check(false);
    assert_eq!(menu.state(), MenuState::Closed);
    menu.check(true);
    assert_eq!(menu.state(), MenuState::Open);
    assert_eq!(menu.items(), &spawn_overlay());
    menu.toggle(false);
    assert_eq!(menu.state(), MenuState::Open);
    menu.clear();
    assert_eq!(menu.items().len(), 9);
    menu.toggle(true);
    assert_eq!(menu.state(), MenuState::Closed);
    assert!(menu.items().is_empty());
    menu.clear();
    assert!(menu.items().is_empty());
}

#[test]
fn the_menu_shows_nothing_while_closed_and_the_whole_overlay_while_open() {
    let mut menu = Menu::new();
    assert!(menu.is_well_formed());
    menu.check(true);
    assert!(menu.is_well_formed());
    let mut limiter = Limiter::Auto;
    toggle_framerate_lock(&mut menu, &mut limiter, &vec![change(5, Interaction::Pressed)]);
    button_hower(&mut menu, &vec![change(3, Interaction::Idle), change(7, Interaction::Hovered)]);
    fortsetzen_button(&mut menu, &vec![change(3, Interaction::Pressed)]);
    assert!(menu.is_well_formed());
    menu.check(false);
    assert!(menu.is_well_formed());
    assert_eq!(menu.state(), MenuState::Closed);
}

#[test]
fn entities_are_alike_that_differ_in_text_and_opacity_only() {
    let items = spawn_overlay();
    assert!(items[6].has_shape_of(&text(Label::FramerateUnlocked, 25, TextColor::White, 15, Some(5), Some(Control::FPSButton))));
    assert!(!items[6].has_shape_of(&text(Label::FramerateLocked, 26, TextColor::White, 15, Some(5), Some(Control::FPSButton))));
    assert!(!items[6].has_shape_of(&text(Label::FramerateLocked, 25, TextColor::Red, 15, Some(5), Some(Control::FPSButton))));
    assert!(!items[6].has_shape_of(&text(Label::FramerateLocked, 25, TextColor::White, 16, Some(5), Some(Control::FPSButton))));
    assert!(!items[6].has_shape_of(&text(Label::FramerateLocked, 25, TextColor::White, 15, Some(4), Some(Control::FPSButton))));
    assert!(!items[6].has_shape_of(&text(Label::FramerateLocked, 25, TextColor::White, 15, Some(5), None)));
    assert!(!items[6].has_shape_of(&items[5]));
    let dim = MenuItem { widget: Widget::Button { opacity: 500 }, ..items[5] };
    assert!(items[5].has_shape_of(&dim));
    assert!(!items[5].has_shape_of(&items[7]));
}
