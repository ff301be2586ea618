use snake_wasm::game::Phase;
use snake_wasm::ui::{hit_test, pause_button, primary_button, Action};

#[test]
fn primary_action_matches_phase() {
    let center = primary_button().center();
    assert_eq!(hit_test(Phase::Ready, center), Some(Action::Restart));
    assert_eq!(hit_test(Phase::Paused, center), Some(Action::TogglePause));
    assert_eq!(hit_test(Phase::GameOver, center), Some(Action::Restart));
    assert_eq!(hit_test(Phase::Playing, center), None);
}

#[test]
fn pause_is_disabled_outside_a_round() {
    assert_eq!(hit_test(Phase::Ready, pause_button().center()), None);
    assert_eq!(hit_test(Phase::GameOver, pause_button().center()), None);
    assert_eq!(
        hit_test(Phase::Playing, pause_button().center()),
        Some(Action::TogglePause)
    );
}
