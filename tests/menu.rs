use cygnus::menu::App;

#[test]
fn app_starts_running_with_the_sample_character() {
    let app = App::new();
    assert!(app.running);
    assert!(!app.nav_menu_state.is_open);
    let character = app.character.as_ref().unwrap();
    assert_eq!(character.get_level(), 12);
    assert_eq!(character.get_armor_class(), 21);
    assert_eq!(character.get_proficiency_bonus(), 4);
    app.tick();
}

#[test]
fn navigation_wraps_around() {
    let mut app = App::new();
    app.nav_up();
    assert_eq!(app.nav_menu_state.selected, 9);
    app.nav_down();
    assert_eq!(app.nav_menu_state.selected, 0);
    app.toggle_nav_menu();
    assert!(app.nav_menu_state.is_open);
    app.quit();
    assert!(!app.running);
}
