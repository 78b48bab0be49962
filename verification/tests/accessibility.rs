use master_time::accessibility::{
    AccessibilityPreferences, FocusTarget, KeyboardNavigation, NavigationKey, NavigationResult,
};

#[test]
fn preferences_default_to_off_and_can_be_changed_independently() {
    let mut preferences = AccessibilityPreferences::default();
    assert!(!preferences.high_contrast());
    assert!(!preferences.reduced_motion());

    preferences.set_high_contrast(true);
    assert!(preferences.high_contrast());
    assert!(!preferences.reduced_motion());
    preferences.toggle_reduced_motion();
    assert!(preferences.reduced_motion());
    preferences.toggle_high_contrast();
    assert!(!preferences.high_contrast());
}

#[test]
fn focus_order_is_tabs_then_actions() {
    let navigation = KeyboardNavigation::new(3, 2);
    assert_eq!(
        navigation.focus_order(),
        &[
            FocusTarget::Tab(0),
            FocusTarget::Tab(1),
            FocusTarget::Tab(2),
            FocusTarget::Action(0),
            FocusTarget::Action(1),
        ]
    );
    assert_eq!(navigation.focused(), Some(FocusTarget::Tab(0)));
    assert_eq!(navigation.active_tab(), Some(0));
}

#[test]
fn tab_navigation_wraps_in_both_directions() {
    let mut navigation = KeyboardNavigation::new(2, 1);
    assert_eq!(
        navigation.handle_key(NavigationKey::ShiftTab),
        NavigationResult::Focused(FocusTarget::Action(0))
    );
    assert_eq!(
        navigation.handle_key(NavigationKey::Tab),
        NavigationResult::Focused(FocusTarget::Tab(0))
    );
    assert_eq!(
        navigation.handle_key(NavigationKey::End),
        NavigationResult::Focused(FocusTarget::Action(0))
    );
    assert_eq!(
        navigation.handle_key(NavigationKey::Home),
        NavigationResult::Focused(FocusTarget::Tab(0))
    );
}

#[test]
fn activation_selects_tabs_and_reports_actions() {
    let mut navigation = KeyboardNavigation::new(2, 1);
    navigation.focus(FocusTarget::Tab(1));
    assert_eq!(
        navigation.handle_key(NavigationKey::Enter),
        NavigationResult::Activated(FocusTarget::Tab(1))
    );
    assert_eq!(navigation.active_tab(), Some(1));

    navigation.focus(FocusTarget::Action(0));
    assert_eq!(
        navigation.handle_key(NavigationKey::Space),
        NavigationResult::Activated(FocusTarget::Action(0))
    );
    assert_eq!(navigation.active_tab(), Some(1));
}

#[test]
fn empty_navigation_is_safe() {
    let mut navigation = KeyboardNavigation::new(0, 0);
    assert_eq!(navigation.focused(), None);
    assert_eq!(
        navigation.handle_key(NavigationKey::Tab),
        NavigationResult::Ignored
    );
    assert!(!navigation.focus(FocusTarget::Tab(0)));
}

#[test]
fn arrow_keys_follow_the_same_wrapping_order_and_clone_keeps_state() {
    let mut navigation = KeyboardNavigation::new(1, 2);
    assert_eq!(
        navigation.handle_key(NavigationKey::Up),
        NavigationResult::Focused(FocusTarget::Action(1))
    );
    assert_eq!(
        navigation.handle_key(NavigationKey::Right),
        NavigationResult::Focused(FocusTarget::Tab(0))
    );
    assert_eq!(
        navigation.handle_key(NavigationKey::Down),
        NavigationResult::Focused(FocusTarget::Action(0))
    );
    let copy = navigation.clone();
    assert_eq!(copy, navigation);
    assert_eq!(copy.focused(), Some(FocusTarget::Action(0)));
}
