use vstd::prelude::*;

use crate::config::{is_unique_id, Config};

verus! {

/// The device that the hub groups this fixture's components under.
#[derive(Debug)]
pub struct HomeAssistantDevice {
    pub name: String,
    pub identifiers: String,
}

/// Discovery announcement of the light component.
#[derive(Debug)]
pub struct HomeAssistantLightConfig {
    pub name: Option<String>,
    pub unique_id: String,
    pub command_topic: String,
    pub state_topic: String,
    pub device: HomeAssistantDevice,
    pub schema: String,
    pub color_mode: bool,
    pub brightness: bool,
    pub supported_color_modes: Vec<String>,
}

/// Discovery announcement of the mode selector component.
#[derive(Debug)]
pub struct HomeAssistantSelectConfig {
    pub name: String,
    pub unique_id: String,
    pub command_topic: String,
    pub state_topic: String,
    pub device: HomeAssistantDevice,
    pub options: Vec<String>,
    pub command_template: String,
    pub value_template: String,
}

/// Discovery announcement of the rainbow speed component; `min` and `max` are
/// whole settings.
#[derive(Debug)]
pub struct HomeAssistantNumberConfig {
    pub name: String,
    pub unique_id: String,
    pub command_topic: String,
    pub state_topic: String,
    pub device: HomeAssistantDevice,
    pub min: u32,
    pub max: u32,
    pub mode: String,
    pub command_template: String,
    pub value_template: String,
}

impl HomeAssistantDevice {
    /// Whether `self` is the device of `config`, with identifier `id`.
    pub open spec fn describes(self, config: Config, id: Seq<char>) -> bool {
        &&& is_unique_id(id, config.name@)
        &&& self.name@ == config.name@ + " moodlight"@
        &&& self.identifiers@ == id
    }

    fn new(config: &Config, id: &String) -> (r: HomeAssistantDevice)
        requires
            is_unique_id(id@, config.name@),
        ensures
            r.describes(*config, id@),
    {
        HomeAssistantDevice { name: config.name.clone().concat(" moodlight"), identifiers: id.clone() }
    }
}

impl HomeAssistantLightConfig {
    pub fn new(config: &Config) -> (r: HomeAssistantLightConfig)
        ensures
            r.name is None,
            r.device.describes(*config, r.device.identifiers@),
            r.unique_id@ == r.device.identifiers@ + "_light"@,
            r.command_topic@ == config.command_topic_spec(),
            r.state_topic@ == config.state_topic_spec(),
            r.schema@ == "json"@,
            r.color_mode && r.brightness,
            r.supported_color_modes@.len() == 1,
            r.supported_color_modes@[0]@ == "hs"@,
    {
        let id = config.unique_id();
        HomeAssistantLightConfig {
            name: None,
            unique_id: id.clone().concat("_light"),
            command_topic: config.command_topic(),
            state_topic: config.state_topic(),
            device: HomeAssistantDevice::new(config, &id),
            schema: String::from_str("json"),
            color_mode: true,
            brightness: true,
            supported_color_modes: vec![String::from_str("hs")],
        }
    }
}

impl HomeAssistantSelectConfig {
    pub fn new(config: &Config) -> (r: HomeAssistantSelectConfig)
        ensures
            r.name@ == "Mode"@,
            r.device.describes(*config, r.device.identifiers@),
            r.unique_id@ == r.device.identifiers@ + "_mode_select"@,
            r.command_topic@ == config.command_topic_spec(),
            r.state_topic@ == config.state_topic_spec(),
            r.options@.len() == 2,
            r.options@[0]@ == "Static"@,
            r.options@[1]@ == "Rainbow"@,
            r.command_template@ == "{\"mode\": \"{{ value }}\"}"@,
            r.value_template@ == "{{ value_json.mode }}"@,
    {
        let id = config.unique_id();
        HomeAssistantSelectConfig {
            name: String::from_str("Mode"),
            unique_id: id.clone().concat("_mode_select"),
            command_topic: config.command_topic(),
            state_topic: config.state_topic(),
            device: HomeAssistantDevice::new(config, &id),
            options: vec![String::from_str("Static"), String::from_str("Rainbow")],
            command_template: String::from_str("{\"mode\": \"{{ value }}\"}"),
            value_template: String::from_str("{{ value_json.mode }}"),
        }
    }
}

impl HomeAssistantNumberConfig {
    pub fn new(config: &Config) -> (r: HomeAssistantNumberConfig)
        ensures
            r.name@ == "Rainbow speed"@,
            r.device.describes(*config, r.device.identifiers@),
            r.unique_id@ == r.device.identifiers@ + "_rainbow_speed"@,
            r.command_topic@ == config.command_topic_spec(),
            r.state_topic@ == config.state_topic_spec(),
            r.min == 0,
            r.max == 100,
            r.mode@ == "slider"@,
            r.command_template@ == "{\"rainbow_speed\": {{ value }}}"@,
            r.value_template@ == "{{ value_json.rainbow_speed }}"@,
    {
        let id = config.unique_id();
        HomeAssistantNumberConfig {
            name: String::from_str("Rainbow speed"),
            unique_id: id.clone().concat("_rainbow_speed"),
            command_topic: config.command_topic(),
            state_topic: config.state_topic(),
            device: HomeAssistantDevice::new(config, &id),
            min: 0,
            max: 100,
            mode: String::from_str("slider"),
            command_template: String::from_str("{\"rainbow_speed\": {{ value }}}"),
            value_template: String::from_str("{{ value_json.rainbow_speed }}"),
        }
    }
}

} // verus!
