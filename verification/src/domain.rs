//! The home-automation platform's domains: the fixed vocabulary that
//! forms the first half of an entity identifier, with its snake_case
//! wire spelling.

use vstd::prelude::*;

verus! {

/// A domain of the platform.
#[derive(Debug, Clone, Copy, PartialEq, Eq, Hash, Structural)]
pub enum Domain {
    Automation,
    BinarySensor,
    Button,
    Camera,
    Climate,
    Conversation,
    Cover,
    DeviceTracker,
    Group,
    InputDatetime,
    InputNumber,
    InputSelect,
    InputText,
    Light,
    Lock,
    MediaPlayer,
    Notify,
    Person,
    Remote,
    Scene,
    Select,
    Sensor,
    Sun,
    Switch,
    Tag,
    Update,
    Weather,
    Zone,
}

/// Each domain's snake_case spelling on the wire.
pub open spec fn domain_name(d: Domain) -> Seq<char> {
    match d {
        Domain::Automation => "automation"@,
        Domain::BinarySensor => "binary_sensor"@,
        Domain::Button => "button"@,
        Domain::Camera => "camera"@,
        Domain::Climate => "climate"@,
        Domain::Conversation => "conversation"@,
        Domain::Cover => "cover"@,
        Domain::DeviceTracker => "device_tracker"@,
        Domain::Group => "group"@,
        Domain::InputDatetime => "input_datetime"@,
        Domain::InputNumber => "input_number"@,
        Domain::InputSelect => "input_select"@,
        Domain::InputText => "input_text"@,
        Domain::Light => "light"@,
        Domain::Lock => "lock"@,
        Domain::MediaPlayer => "media_player"@,
        Domain::Notify => "notify"@,
        Domain::Person => "person"@,
        Domain::Remote => "remote"@,
        Domain::Scene => "scene"@,
        Domain::Select => "select"@,
        Domain::Sensor => "sensor"@,
        Domain::Sun => "sun"@,
        Domain::Switch => "switch"@,
        Domain::Tag => "tag"@,
        Domain::Update => "update"@,
        Domain::Weather => "weather"@,
        Domain::Zone => "zone"@,
    }
}

/// The domain a string spells, if any: the spellings are tried in a
/// fixed order, and a string that spells none of them is no domain.
pub open spec fn domain_from(s: Seq<char>) -> Option<Domain> {
    if s == "automation"@ {
        Some(Domain::Automation)
    } else if s == "binary_sensor"@ {
        Some(Domain::BinarySensor)
    } else if s == "button"@ {
        Some(Domain::Button)
    } else if s == "camera"@ {
        Some(Domain::Camera)
    } else if s == "climate"@ {
        Some(Domain::Climate)
    } else if s == "conversation"@ {
        Some(Domain::Conversation)
    } else if s == "cover"@ {
        Some(Domain::Cover)
    } else if s == "device_tracker"@ {
        Some(Domain::DeviceTracker)
    } else if s == "group"@ {
        Some(Domain::Group)
    } else if s == "input_datetime"@ {
        Some(Domain::InputDatetime)
    } else if s == "input_number"@ {
        Some(Domain::InputNumber)
    } else if s == "input_select"@ {
        Some(Domain::InputSelect)
    } else if s == "input_text"@ {
        Some(Domain::InputText)
    } else if s == "light"@ {
        Some(Domain::Light)
    } else if s == "lock"@ {
        Some(Domain::Lock)
    } else if s == "media_player"@ {
        Some(Domain::MediaPlayer)
    } else if s == "notify"@ {
        Some(Domain::Notify)
    } else if s == "person"@ {
        Some(Domain::Person)
    } else if s == "remote"@ {
        Some(Domain::Remote)
    } else if s == "scene"@ {
        Some(Domain::Scene)
    } else if s == "select"@ {
        Some(Domain::Select)
    } else if s == "sensor"@ {
        Some(Domain::Sensor)
    } else if s == "sun"@ {
        Some(Domain::Sun)
    } else if s == "switch"@ {
        Some(Domain::Switch)
    } else if s == "tag"@ {
        Some(Domain::Tag)
    } else if s == "update"@ {
        Some(Domain::Update)
    } else if s == "weather"@ {
        Some(Domain::Weather)
    } else if s == "zone"@ {
        Some(Domain::Zone)
    } else {
        None
    }
}

/// Character-for-character string comparison.
fn eq_str(a: &str, b: &str) -> (r: bool)
    ensures
        r <==> a@ == b@,
{
    let n = a.unicode_len();
    let m = b.unicode_len();
    if n != m {
        return false;
    }
    let mut i: usize = 0;
    while i < n
        invariant
            n == a@.len(),
            n == b@.len(),
            i <= n,
            forall|j: int| 0 <= j < i ==> a@[j] == b@[j],
        decreases n - i,
    {
        if a.get_char(i) != b.get_char(i) {
            return false;
        }
        i = i + 1;
    }
    proof {
        assert(a@ =~= b@);
    }
    true
}

impl Domain {
    /// The domain's snake_case spelling.
    pub fn as_str(&self) -> (r: &str)
        ensures
            r@ == domain_name(*self),
    {
        match self {
            Domain::Automation => "automation",
            Domain::BinarySensor => "binary_sensor",
            Domain::Button => "button",
            Domain::Camera => "camera",
            Domain::Climate => "climate",
            Domain::Conversation => "conversation",
            Domain::Cover => "cover",
            Domain::DeviceTracker => "device_tracker",
            Domain::Group => "group",
            Domain::InputDatetime => "input_datetime",
            Domain::InputNumber => "input_number",
            Domain::InputSelect => "input_select",
            Domain::InputText => "input_text",
            Domain::Light => "light",
            Domain::Lock => "lock",
            Domain::MediaPlayer => "media_player",
            Domain::Notify => "notify",
            Domain::Person => "person",
            Domain::Remote => "remote",
            Domain::Scene => "scene",
            Domain::Select => "select",
            Domain::Sensor => "sensor",
            Domain::Sun => "sun",
            Domain::Switch => "switch",
            Domain::Tag => "tag",
            Domain::Update => "update",
            Domain::Weather => "weather",
            Domain::Zone => "zone",
        }
    }

    /// Reads a domain from its spelling: accepts exactly the strings
    /// some domain is spelt as.
    pub fn parse(s: &str) -> (r: Option<Domain>)
        ensures
            r == domain_from(s@),
    {
        if eq_str(s, "automation") {
            Some(Domain::Automation)
        } else if eq_str(s, "binary_sensor") {
            Some(Domain::BinarySensor)
        } else if eq_str(s, "button") {
            Some(Domain::Button)
        } else if eq_str(s, "camera") {
            Some(Domain::Camera)
        } else if eq_str(s, "climate") {
            Some(Domain::Climate)
        } else if eq_str(s, "conversation") {
            Some(Domain::Conversation)
        } else if eq_str(s, "cover") {
            Some(Domain::Cover)
        } else if eq_str(s, "device_tracker") {
            Some(Domain::DeviceTracker)
        } else if eq_str(s, "group") {
            Some(Domain::Group)
        } else if eq_str(s, "input_datetime") {
            Some(Domain::InputDatetime)
        } else if eq_str(s, "input_number") {
            Some(Domain::InputNumber)
        } else if eq_str(s, "input_select") {
            Some(Domain::InputSelect)
        } else if eq_str(s, "input_text") {
            Some(Domain::InputText)
        } else if eq_str(s, "light") {
            Some(Domain::Light)
        } else if eq_str(s, "lock") {
            Some(Domain::Lock)
        } else if eq_str(s, "media_player") {
            Some(Domain::MediaPlayer)
        } else if eq_str(s, "notify") {
            Some(Domain::Notify)
        } else if eq_str(s, "person") {
            Some(Domain::Person)
        } else if eq_str(s, "remote") {
            Some(Domain::Remote)
        } else if eq_str(s, "scene") {
            Some(Domain::Scene)
        } else if eq_str(s, "select") {
            Some(Domain::Select)
        } else if eq_str(s, "sensor") {
            Some(Domain::Sensor)
        } else if eq_str(s, "sun") {
            Some(Domain::Sun)
        } else if eq_str(s, "switch") {
            Some(Domain::Switch)
        } else if eq_str(s, "tag") {
            Some(Domain::Tag)
        } else if eq_str(s, "update") {
            Some(Domain::Update)
        } else if eq_str(s, "weather") {
            Some(Domain::Weather)
        } else if eq_str(s, "zone") {
            Some(Domain::Zone)
        } else {
            None
        }
    }
}

} // verus!
