use macropad_core::error::ErrorKind;
use macropad_core::error::HidError;
use macropad_core::settings::Settings;

#[test]
fn factory_settings_map_the_fixed_key_range() {
    let s = Settings::default();
    assert_eq!(s.proc_list.len(), 32);
    for key in 0x00C0u16..=0x00DF {
        assert!(s.proc_list.contains_key(&key));
    }
    assert!(!s.proc_list.contains_key(&0x00BF));
    assert!(!s.proc_list.contains_key(&0x00E0));
}

#[test]
fn factory_settings_map_the_first_key_to_spotify() {
    let s = Settings::default();
    assert_eq!(s.proc_list[&0x00C0], "spotify");
    for key in 0x00C1u16..=0x00DF {
        assert_eq!(s.proc_list[&key], "");
    }
}

#[test]
fn factory_settings_enable_telemetry_with_a_step_of_five() {
    let s = Settings::default();
    assert!(s.show_stats);
    assert_eq!(s.increment, 5);
}

#[test]
fn set_mapping_updates_a_mapped_key() {
    let mut s = Settings::default();
    s.set_mapping(0x00C3, String::from("firefox"));
    assert_eq!(s.proc_list[&0x00C3], "firefox");
    assert_eq!(s.proc_list.len(), 32);
    assert!(s.show_stats);
}

#[test]
fn set_mapping_ignores_an_unmapped_key() {
    let mut s = Settings::default();
    s.set_mapping(0x0040, String::from("firefox"));
    assert!(!s.proc_list.contains_key(&0x0040));
    assert_eq!(s.proc_list.len(), 32);
}

#[test]
fn new_error_is_a_transport_error() {
    let e = HidError::new(String::from("device gone"));
    assert_eq!(e.kind, ErrorKind::Transport);
    assert_eq!(e.message, "device gone");
}

#[test]
fn error_kinds_are_kept() {
    let e = HidError::with_kind(ErrorKind::Telemetry, String::from("no gpu"));
    assert_eq!(e.kind, ErrorKind::Telemetry);
    assert_eq!(e.message, "no gpu");
}
