use vstd::prelude::*;

verus! {

/// Settings of one fixture and its broker connection.
///
/// `step_duration_ms` is the rainbow tick and ramp frame interval.
#[derive(Debug)]
pub struct Config {
    pub name: String,
    pub mqtt_topic: String,
    pub broker_username: String,
    pub broker_password: String,
    pub broker_host: String,
    pub broker_port: u16,
    pub blaster: String,
    pub pin_r: u8,
    pub pin_g: u8,
    pub pin_b: u8,
    pub step_duration_ms: u32,
    pub home_assistant_topic: String,
}

/// Topic prefix used when none is configured.
pub fn default_mqtt_topic() -> (r: String)
    ensures
        r@ == "moodlight"@,
{
    String::from_str("moodlight")
}

/// Broker port used when none is configured.
pub fn default_mqtt_port() -> (r: u16)
    ensures
        r == 1883,
{
    1883
}

/// Path of the driver's input used when none is configured.
pub fn default_blaster() -> (r: String)
    ensures
        r@ == "/dev/pi-blaster"@,
{
    String::from_str("/dev/pi-blaster")
}

/// Tick interval used when none is configured.
pub fn default_step_duration() -> (r: u32)
    ensures
        r == 20,
{
    20
}

/// Discovery topic prefix of the home-automation hub used when none is configured.
pub fn default_home_assistant_topic() -> (r: String)
    ensures
        r@ == "homeassistant"@,
{
    String::from_str("homeassistant")
}

/// Whether `d` is `c` lowered by ASCII rules: `A`..`Z` become `a`..`z`, every
/// other character stays.
pub open spec fn ascii_lowered(c: char, d: char) -> bool {
    if 'A' <= c && c <= 'Z' {
        d as u32 == c as u32 + 32
    } else {
        d == c
    }
}

/// Whether `d` is `c` as it stands in an identifier: lowered by ASCII rules,
/// with a space turned into an underscore.
pub open spec fn id_char(c: char, d: char) -> bool {
    if c == ' ' {
        d == '_'
    } else {
        ascii_lowered(c, d)
    }
}

/// Whether `r` is the identifier made from the fixture name `name`: the prefix
/// `moodlight_`, then each character of the name as [`id_char`] says.
pub open spec fn is_unique_id(r: Seq<char>, name: Seq<char>) -> bool {
    let p = "moodlight_"@;
    &&& r.len() == p.len() + name.len()
    &&& r.subrange(0, p.len() as int) == p
    &&& forall|i: int| 0 <= i < name.len() ==> id_char(name[i], #[trigger] r[p.len() + i])
}

/// Relies on str::to_ascii_lowercase: `A`..`Z` mapped to `a`..`z`, every other
/// character kept.
#[verifier::external_body]
fn to_ascii_lowercase(s: &str) -> (r: String)
    ensures
        r@.len() == s@.len(),
        forall|i: int| 0 <= i < s@.len() ==> ascii_lowered(s@[i], #[trigger] r@[i]),
{
    s.to_ascii_lowercase()
}

/// Relies on str::replace with the pattern `' '` and the replacement `"_"`:
/// every space replaced by an underscore, every other character kept.
#[verifier::external_body]
fn replace_spaces(s: &str) -> (r: String)
    ensures
        r@.len() == s@.len(),
        forall|i: int|
            0 <= i < s@.len() ==> #[trigger] r@[i] == (if s@[i] == ' ' {
                '_'
            } else {
                s@[i]
            }),
{
    s.replace(' ', "_")
}

impl Config {
    pub open spec fn own_topic_spec(self) -> Seq<char> {
        self.mqtt_topic@ + "/"@ + self.name@
    }

    /// The topic under which this fixture's topics live.
    pub fn own_topic(&self) -> (r: String)
        ensures
            r@ == self.own_topic_spec(),
    {
        self.mqtt_topic.clone().concat("/").concat(self.name.as_str())
    }

    pub open spec fn command_topic_spec(self) -> Seq<char> {
        self.own_topic_spec() + "/set"@
    }

    /// The topic that control messages arrive on.
    pub fn command_topic(&self) -> (r: String)
        ensures
            r@ == self.command_topic_spec(),
    {
        self.own_topic().concat("/set")
    }

    pub open spec fn state_topic_spec(self) -> Seq<char> {
        self.own_topic_spec() + "/state"@
    }

    /// The topic that state snapshots are published and retained on.
    pub fn state_topic(&self) -> (r: String)
        ensures
            r@ == self.state_topic_spec(),
    {
        self.own_topic().concat("/state")
    }

    /// The identifier of this fixture: `moodlight_` and its name in lower case,
    /// spaces turned into underscores.
    pub fn unique_id(&self) -> (r: String)
        ensures
            is_unique_id(r@, self.name@),
    {
        let lower = to_ascii_lowercase(self.name.as_str());
        let id = replace_spaces(lower.as_str());
        let r = String::from_str("moodlight_").concat(id.as_str());
        let ghost p = "moodlight_"@;
        assert(r@.subrange(0, p.len() as int) =~= p);
        assert forall|i: int| 0 <= i < self.name@.len() implies id_char(
            self.name@[i],
            #[trigger] r@[p.len() + i],
        ) by {
            assert(r@[p.len() + i] == id@[i]);
            assert(ascii_lowered(self.name@[i], lower@[i]));
        }
        r
    }

    /// The discovery topic of a component kind (`light`, `select`, `number`)
    /// whose identifier is `id`.
    pub open spec fn discovery_topic(self, kind: Seq<char>, id: Seq<char>) -> Seq<char> {
        self.home_assistant_topic@ + "/"@ + kind + "/"@ + id + "/config"@
    }

    fn discovery_topic_for(&self, kind: &str) -> (r: String)
        ensures
            exists|id: Seq<char>|
                is_unique_id(id, self.name@) && r@ == self.discovery_topic(kind@, id),
    {
        let id = self.unique_id();
        self.home_assistant_topic.clone().concat("/").concat(kind).concat("/").concat(id.as_str()).concat(
            "/config",
        )
    }

    /// The discovery topic of the light component.
    pub fn home_assistant_light_topic(&self) -> (r: String)
        ensures
            exists|id: Seq<char>|
                is_unique_id(id, self.name@) && r@ == self.discovery_topic("light"@, id),
    {
        self.discovery_topic_for("light")
    }

    /// The discovery topic of the mode selector component.
    pub fn home_assistant_select_topic(&self) -> (r: String)
        ensures
            exists|id: Seq<char>|
                is_unique_id(id, self.name@) && r@ == self.discovery_topic("select"@, id),
    {
        self.discovery_topic_for("select")
    }

    /// The discovery topic of the rainbow speed component.
    pub fn home_assistant_number_topic(&self) -> (r: String)
        ensures
            exists|id: Seq<char>|
                is_unique_id(id, self.name@) && r@ == self.discovery_topic("number"@, id),
    {
        self.discovery_topic_for("number")
    }

    /// The topics to subscribe to: the command topic, and the state topic too
    /// while the first snapshot is still awaited.
    pub fn subscription_topics(&self, include_state_topic: bool) -> (r: Vec<String>)
        ensures
            include_state_topic ==> r@.len() == 2 && r@[1]@ == self.state_topic_spec(),
            !include_state_topic ==> r@.len() == 1,
            r@[0]@ == self.command_topic_spec(),
    {
        let mut topics: Vec<String> = Vec::new();
        topics.push(self.command_topic());
        if include_state_topic {
            topics.push(self.state_topic());
        }
        topics
    }
}

} // verus!
