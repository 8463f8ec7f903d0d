use emitter_and_signal::domain::Domain;

#[test]
fn parses_the_snake_case_spellings() {
    assert_eq!(Domain::parse("light"), Some(Domain::Light));
    assert_eq!(Domain::parse("binary_sensor"), Some(Domain::BinarySensor));
    assert_eq!(Domain::parse("device_tracker"), Some(Domain::DeviceTracker));
    assert_eq!(Domain::parse("zone"), Some(Domain::Zone));
}

#[test]
fn rejects_anything_else() {
    assert_eq!(Domain::parse("Light"), None);
    assert_eq!(Domain::parse("lights"), None);
    assert_eq!(Domain::parse(""), None);
    assert_eq!(Domain::parse("media player"), None);
}

#[test]
fn spelling_and_parsing_round_trip() {
    let all = [
        Domain::Automation,
        Domain::BinarySensor,
        Domain::Button,
        Domain::Camera,
        Domain::Climate,
        Domain::Conversation,
        Domain::Cover,
        Domain::DeviceTracker,
        Domain::Group,
        Domain::InputDatetime,
        Domain::InputNumber,
        Domain::InputSelect,
        Domain::InputText,
        Domain::Light,
        Domain::Lock,
        Domain::MediaPlayer,
        Domain::Notify,
        Domain::Person,
        Domain::Remote,
        Domain::Scene,
        Domain::Select,
        Domain::Sensor,
        Domain::Sun,
        Domain::Switch,
        Domain::Tag,
        Domain::Update,
        Domain::Weather,
        Domain::Zone,
    ];
    for d in all {
        assert_eq!(Domain::parse(d.as_str()), Some(d));
    }
}
