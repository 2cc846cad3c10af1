use pitch_to_midi::audio::{
    describe_devices, select_config, select_device, AudioConfig, DeviceChoice,
};

fn config(name: &str, channel: usize) -> AudioConfig {
    AudioConfig { input_device: name.to_string(), input_channel: channel }
}

#[test]
fn device_list_marks_default() {
    let names = vec!["Built-in Mic".to_string(), "USB Interface".to_string()];
    let list = describe_devices(&names, &"USB Interface".to_string());
    assert_eq!(list.len(), 2);
    assert_eq!(list[0].name, "Built-in Mic");
    assert!(!list[0].default);
    assert_eq!(list[1].name, "USB Interface");
    assert!(list[1].default);
}

#[test]
fn device_list_empty() {
    assert!(describe_devices(&Vec::new(), &"x".to_string()).is_empty());
}

#[test]
fn default_token_picks_host_default() {
    let names = vec!["default".to_string()];
    assert_eq!(select_device(&config("default", 1), &names), DeviceChoice::HostDefault);
}

#[test]
fn named_device_is_first_match() {
    let names = vec!["a".to_string(), "b".to_string(), "b".to_string()];
    assert_eq!(select_device(&config("b", 1), &names), DeviceChoice::Listed(1));
    assert_eq!(select_device(&config("a", 1), &names), DeviceChoice::Listed(0));
    assert_eq!(select_device(&config("c", 1), &names), DeviceChoice::NotFound);
    assert_eq!(select_device(&config("Default", 1), &names), DeviceChoice::NotFound);
}

#[test]
fn config_index_is_one_based() {
    assert_eq!(select_config(&config("default", 1), 3), Some(0));
    assert_eq!(select_config(&config("default", 3), 3), Some(2));
    assert_eq!(select_config(&config("default", 4), 3), None);
    assert_eq!(select_config(&config("default", 0), 3), None);
    assert_eq!(select_config(&config("default", 1), 0), None);
}
