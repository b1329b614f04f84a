use macropad_core::volume::adjusted_volume;
use macropad_core::volume::find_app_volume;
use macropad_core::volume::plan_volume_changes;
use macropad_core::volume::with_exe_suffix;
use macropad_core::volume::AppEntry;
use macropad_core::volume::Volume;

#[test]
fn direction_decodes_from_payload_byte() {
    assert_eq!(Volume::from_u8(0x01), Volume::Up);
    assert_eq!(Volume::from_u8(0x00), Volume::Down);
    assert_eq!(Volume::from_u8(0x07), Volume::Down);
}

#[test]
fn step_up_from_fifty() {
    assert_eq!(adjusted_volume(50, Volume::Up, false), 55);
}

#[test]
fn step_down_from_three_snaps_to_zero() {
    assert_eq!(adjusted_volume(3, Volume::Down, false), 0);
}

#[test]
fn step_up_from_ninety_eight_clamps_to_hundred() {
    assert_eq!(adjusted_volume(98, Volume::Up, false), 100);
}

#[test]
fn forced_up_jumps_to_hundred_regardless_of_start() {
    for start in [0u8, 3, 42, 98, 100] {
        assert_eq!(adjusted_volume(start, Volume::Up, true), 100);
    }
}

#[test]
fn forced_down_jumps_to_zero_regardless_of_start() {
    for start in [0u8, 3, 42, 98, 100] {
        assert_eq!(adjusted_volume(start, Volume::Down, true), 0);
    }
}

#[test]
fn step_down_below_step_snaps_to_zero() {
    assert_eq!(adjusted_volume(9, Volume::Down, false), 0);
    assert_eq!(adjusted_volume(5, Volume::Down, false), 0);
    assert_eq!(adjusted_volume(10, Volume::Down, false), 5);
}

#[test]
fn step_up_from_silence() {
    assert_eq!(adjusted_volume(0, Volume::Up, false), 5);
}

#[test]
fn exe_suffix_is_appended() {
    assert_eq!(with_exe_suffix(&String::from("spotify")), "spotify.exe");
    assert_eq!(with_exe_suffix(&String::from("")), ".exe");
}

#[test]
fn find_app_volume_folds_case() {
    let apps = vec![
        AppEntry { name: String::from("Firefox.exe"), volume: 30 },
        AppEntry { name: String::from("Spotify.exe"), volume: 42 },
    ];
    let found = find_app_volume(&apps, &String::from("spotify.exe"));
    assert_eq!(found, Some(42));
}

#[test]
fn find_app_volume_takes_the_first_match() {
    let apps = vec![
        AppEntry { name: String::from("spotify.exe"), volume: 10 },
        AppEntry { name: String::from("SPOTIFY.EXE"), volume: 90 },
    ];
    let found = find_app_volume(&apps, &String::from("spotify.exe"));
    assert_eq!(found, Some(10));
}

#[test]
fn find_app_volume_reports_absence() {
    let apps = vec![AppEntry { name: String::from("Firefox.exe"), volume: 30 }];
    assert_eq!(find_app_volume(&apps, &String::from("spotify.exe")), None);
    assert_eq!(find_app_volume(&vec![], &String::from("spotify.exe")), None);
}

#[test]
fn plan_adjusts_every_matching_session() {
    let apps = vec![
        AppEntry { name: String::from("Spotify.exe"), volume: 50 },
        AppEntry { name: String::from("Firefox.exe"), volume: 70 },
        AppEntry { name: String::from("SPOTIFY.exe"), volume: 3 },
    ];
    let plan = plan_volume_changes(&apps, &String::from("spotify.exe"), Volume::Down, false);
    assert_eq!(plan, vec![Some(45), None, Some(0)]);
}

#[test]
fn plan_forced_change() {
    let apps = vec![AppEntry { name: String::from("spotify.exe"), volume: 42 }];
    let plan = plan_volume_changes(&apps, &String::from("spotify.exe"), Volume::Up, true);
    assert_eq!(plan, vec![Some(100)]);
}
