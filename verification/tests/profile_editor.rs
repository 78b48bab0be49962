use master_time::profile_editor::{remove_active_profile, save_profile, ClockProfile, EditMode};

fn profile(name: &str, hostname: &str, ip: &str) -> ClockProfile {
    ClockProfile { name: name.to_string(), hostname: hostname.to_string(), ip: ip.to_string() }
}

fn two() -> Vec<ClockProfile> {
    vec![profile("Pool", "pool.ntp.org", ""), profile("Local", "", "192.0.2.1")]
}

#[test]
fn a_new_profile_is_trimmed_appended_and_made_active() {
    let mut profiles = two();
    let mut active = 0;
    assert!(save_profile(&mut profiles, &mut active, EditMode::New, "  Lab ", " lab.example ", ""));
    assert_eq!(profiles.len(), 3);
    assert_eq!(profiles[2], profile("Lab", "lab.example", ""));
    assert_eq!(active, 2);
}

#[test]
fn an_existing_profile_is_replaced_in_place() {
    let mut profiles = two();
    let mut active = 0;
    assert!(save_profile(&mut profiles, &mut active, EditMode::Existing(1), "Home", "", " 10.0.0.1"));
    assert_eq!(profiles[1], profile("Home", "", "10.0.0.1"));
    assert_eq!(profiles[0], profile("Pool", "pool.ntp.org", ""));
    assert_eq!(active, 0);
}

#[test]
fn incomplete_fields_are_not_saved() {
    let mut profiles = two();
    let mut active = 1;
    assert!(!save_profile(&mut profiles, &mut active, EditMode::New, "   ", "host", ""));
    assert!(!save_profile(&mut profiles, &mut active, EditMode::Existing(0), "Name", " ", "\t"));
    assert_eq!(profiles, two());
    assert_eq!(active, 1);
}

#[test]
fn removing_keeps_the_last_profile_and_the_active_position_in_range() {
    let mut profiles = two();
    let mut active = 1;
    remove_active_profile(&mut profiles, &mut active);
    assert_eq!(profiles, vec![profile("Pool", "pool.ntp.org", "")]);
    assert_eq!(active, 0);
    remove_active_profile(&mut profiles, &mut active);
    assert_eq!(profiles.len(), 1);
    assert_eq!(active, 0);

    let mut three = two();
    three.push(profile("Third", "third.example", ""));
    let mut active = 0;
    remove_active_profile(&mut three, &mut active);
    assert_eq!(three[0], profile("Local", "", "192.0.2.1"));
    assert_eq!(active, 0);
}
