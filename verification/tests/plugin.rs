use xplm_egui::plugin::{Message, PluginInfo, AIRPLANE_COUNT_CHANGED, DATAREFS_ADDED, PLANE_CRASHED};

#[test]
fn plugin_info_new_keeps_fields() {
    let info = PluginInfo::new(
        String::from("Rust Egui Plugin"),
        String::from("ch.example.egui"),
        String::from("A plugin"),
    );
    assert_eq!(info.name, "Rust Egui Plugin");
    assert_eq!(info.signature, "ch.example.egui");
    assert_eq!(info.description, "A plugin");
}

#[test]
fn message_from_known_codes() {
    assert_eq!(Message::from(PLANE_CRASHED), Message::PlaneCrashed);
    assert_eq!(Message::from(102), Message::PlaneLoaded);
    assert_eq!(Message::from(103), Message::AirportLoaded);
    assert_eq!(Message::from(104), Message::SceneryLoaded);
    assert_eq!(Message::from(AIRPLANE_COUNT_CHANGED), Message::AirplaneCountChanged);
    assert_eq!(Message::from(106), Message::PlaneUnloaded);
    assert_eq!(Message::from(107), Message::WillWritePrefs);
    assert_eq!(Message::from(108), Message::LiveryLoaded);
    assert_eq!(Message::from(109), Message::EnteredVr);
    assert_eq!(Message::from(110), Message::ExitingVr);
    assert_eq!(Message::from(111), Message::ReleasePlanes);
    assert_eq!(Message::from(112), Message::FmodBankLoaded);
    assert_eq!(Message::from(113), Message::FmodBankUnloading);
    assert_eq!(Message::from(DATAREFS_ADDED), Message::DatarefsAdded);
}

#[test]
fn message_from_other_codes_is_custom() {
    assert_eq!(Message::from(100), Message::Custom(100));
    assert_eq!(Message::from(115), Message::Custom(115));
    assert_eq!(Message::from(-7), Message::Custom(-7));
    assert_eq!(Message::from(0x8000_0000u32 as i32), Message::Custom(i32::MIN));
}

#[test]
fn message_code_round_trips() {
    for code in [-1, 0, 100, 101, 105, 114, 115, 1_000_000] {
        assert_eq!(Message::from(code).code(), code);
    }
    for m in [Message::PlaneCrashed, Message::DatarefsAdded, Message::Custom(42)] {
        assert_eq!(Message::from(m.code()), m);
    }
    // A custom message that carries a code X-Plane defines reads back as X-Plane's message.
    assert_eq!(Message::from(Message::Custom(101).code()), Message::PlaneCrashed);
}
