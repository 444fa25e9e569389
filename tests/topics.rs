use moodlight::{
    default_blaster, default_home_assistant_topic, default_mqtt_port, default_mqtt_topic, default_step_duration,
    route_topic, Config, HomeAssistantLightConfig, HomeAssistantNumberConfig, HomeAssistantSelectConfig, Session,
    Topic,
};

fn config() -> Config {
    Config {
        name: String::from("Living Room"),
        mqtt_topic: default_mqtt_topic(),
        broker_username: String::from("user"),
        broker_password: String::from("pass"),
        broker_host: String::from("broker.local"),
        broker_port: default_mqtt_port(),
        blaster: default_blaster(),
        pin_r: 17,
        pin_g: 22,
        pin_b: 24,
        step_duration_ms: default_step_duration(),
        home_assistant_topic: default_home_assistant_topic(),
    }
}

#[test]
fn defaults() {
    assert_eq!(default_mqtt_topic(), "moodlight");
    assert_eq!(default_mqtt_port(), 1883);
    assert_eq!(default_blaster(), "/dev/pi-blaster");
    assert_eq!(default_step_duration(), 20);
    assert_eq!(default_home_assistant_topic(), "homeassistant");
}

#[test]
fn own_topics() {
    let c = config();
    assert_eq!(c.own_topic(), "moodlight/Living Room");
    assert_eq!(c.command_topic(), "moodlight/Living Room/set");
    assert_eq!(c.state_topic(), "moodlight/Living Room/state");
}

#[test]
fn unique_id_is_lowercase_with_underscores() {
    let c = config();
    assert_eq!(c.unique_id(), "moodlight_living_room");
    let mut d = config();
    d.name = String::from("A B-C_d 9");
    assert_eq!(d.unique_id(), "moodlight_a_b-c_d_9");
}

#[test]
fn discovery_topics() {
    let c = config();
    assert_eq!(c.home_assistant_light_topic(), "homeassistant/light/moodlight_living_room/config");
    assert_eq!(c.home_assistant_select_topic(), "homeassistant/select/moodlight_living_room/config");
    assert_eq!(c.home_assistant_number_topic(), "homeassistant/number/moodlight_living_room/config");
}

#[test]
fn subscriptions() {
    let c = config();
    assert_eq!(c.subscription_topics(false), vec![String::from("moodlight/Living Room/set")]);
    assert_eq!(
        c.subscription_topics(true),
        vec![String::from("moodlight/Living Room/set"), String::from("moodlight/Living Room/state")]
    );
}

#[test]
fn light_discovery_config() {
    let l = HomeAssistantLightConfig::new(&config());
    assert_eq!(l.name, None);
    assert_eq!(l.unique_id, "moodlight_living_room_light");
    assert_eq!(l.command_topic, "moodlight/Living Room/set");
    assert_eq!(l.state_topic, "moodlight/Living Room/state");
    assert_eq!(l.device.name, "Living Room moodlight");
    assert_eq!(l.device.identifiers, "moodlight_living_room");
    assert_eq!(l.schema, "json");
    assert!(l.color_mode && l.brightness);
    assert_eq!(l.supported_color_modes, vec![String::from("hs")]);
}

#[test]
fn select_discovery_config() {
    let s = HomeAssistantSelectConfig::new(&config());
    assert_eq!(s.name, "Mode");
    assert_eq!(s.unique_id, "moodlight_living_room_mode_select");
    assert_eq!(s.options, vec![String::from("Static"), String::from("Rainbow")]);
    assert_eq!(s.command_template, "{\"mode\": \"{{ value }}\"}");
    assert_eq!(s.value_template, "{{ value_json.mode }}");
    assert_eq!(s.device.identifiers, "moodlight_living_room");
}

#[test]
fn number_discovery_config() {
    let n = HomeAssistantNumberConfig::new(&config());
    assert_eq!(n.name, "Rainbow speed");
    assert_eq!(n.unique_id, "moodlight_living_room_rainbow_speed");
    assert_eq!((n.min, n.max), (0, 100));
    assert_eq!(n.mode, "slider");
    assert_eq!(n.command_template, "{\"rainbow_speed\": {{ value }}}");
    assert_eq!(n.value_template, "{{ value_json.rainbow_speed }}");
}

#[test]
fn topics_are_routed() {
    assert_eq!(route_topic("a/set", "a/set", "a/state"), Topic::Command);
    assert_eq!(route_topic("a/state", "a/set", "a/state"), Topic::Snapshot);
    assert_eq!(route_topic("a/other", "a/set", "a/state"), Topic::Unknown);
}

#[test]
fn session_announces_once_and_drops_state_topic() {
    let mut s = Session::new();
    let a = s.on_connected();
    assert!(a.send_discovery && a.include_state_topic);
    let b = s.on_connected();
    assert!(!b.send_discovery && b.include_state_topic);
    s.on_snapshot();
    let c = s.on_connected();
    assert!(!c.send_discovery && !c.include_state_topic);
}
