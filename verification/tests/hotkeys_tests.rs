use screen_grabbing::hotkeys::{CustomizeHotkey, Hotkeys};

#[test]
fn default_bindings_are_control_plus_the_six_keys() {
    let h = Hotkeys::new();
    let v = h.get_hotkeys();
    assert_eq!(v.len(), 6);
    let codes = ["KeyE", "KeyD", "KeyS", "KeyC", "KeyA", "KeyG"];
    for (i, b) in v.iter().enumerate() {
        assert_eq!(b.modifier().as_str(), "CONTROL");
        assert_eq!(b.code().as_str(), codes[i]);
    }
}

#[test]
fn update_hotkey_maps_alt_and_shift() {
    let mut h = Hotkeys::new();
    h.update_hotkey(&CustomizeHotkey::new(0, String::from("alt"), String::from("Q")));
    let v = h.get_hotkeys();
    assert_eq!(v[0].modifier().as_str(), "ALT");
    assert_eq!(v[0].code().as_str(), "KeyQ");
    h.update_hotkey(&CustomizeHotkey::new(1, String::from("shift"), String::from("W")));
    let v = h.get_hotkeys();
    assert_eq!(v[1].modifier().as_str(), "SHIFT");
    assert_eq!(v[1].code().as_str(), "KeyW");
}

#[test]
fn update_hotkey_maps_everything_else_to_control() {
    let mut h = Hotkeys::new();
    h.update_hotkey(&CustomizeHotkey::new(2, String::from("ctrl"), String::from("X")));
    assert_eq!(h.get_hotkeys()[2].modifier().as_str(), "CONTROL");
    h.update_hotkey(&CustomizeHotkey::new(3, String::from("mac_cmd"), String::from("Y")));
    assert_eq!(h.get_hotkeys()[3].modifier().as_str(), "CONTROL");
    h.update_hotkey(&CustomizeHotkey::new(4, String::from("command"), String::from("Z")));
    assert_eq!(h.get_hotkeys()[4].modifier().as_str(), "CONTROL");
    h.update_hotkey(&CustomizeHotkey::new(5, String::from("hyper"), String::from("B")));
    assert_eq!(h.get_hotkeys()[5].modifier().as_str(), "CONTROL");
    assert_eq!(h.get_hotkeys()[5].code().as_str(), "KeyB");
}

#[test]
fn update_hotkey_leaves_the_other_slots_alone() {
    let mut h = Hotkeys::new();
    h.update_hotkey(&CustomizeHotkey::new(1, String::from("alt"), String::from("V")));
    let v = h.get_hotkeys();
    assert_eq!(v[0].modifier().as_str(), "CONTROL");
    assert_eq!(v[0].code().as_str(), "KeyE");
    assert_eq!(v[2].code().as_str(), "KeyS");
    assert_eq!(v[5].code().as_str(), "KeyG");
}

#[test]
fn customize_hotkey_equality_compares_all_fields() {
    let a = CustomizeHotkey::new(1, String::from("alt"), String::from("Q"));
    let b = CustomizeHotkey::new(1, String::from("alt"), String::from("Q"));
    let c = CustomizeHotkey::new(2, String::from("alt"), String::from("Q"));
    let d = CustomizeHotkey::new(1, String::from("shift"), String::from("Q"));
    assert!(a == b);
    assert!(a != c);
    assert!(a != d);
}

#[test]
fn customize_hotkey_default_is_the_placeholder() {
    let d = CustomizeHotkey::default();
    assert_eq!(d.id(), usize::MAX);
    assert_eq!(d.modifier().as_str(), "modifier");
    assert_eq!(d.code().as_str(), "Key");
}
