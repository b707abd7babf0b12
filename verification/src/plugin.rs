//! Plugin information and inter-plugin messages.
use vstd::prelude::*;

verus! {

/// Information about a plugin.
#[derive(Debug, Clone, PartialEq, Eq)]
pub struct PluginInfo {
    /// The plugin name
    pub name: String,
    /// The plugin's signature, in reverse DNS format
    pub signature: String,
    /// A description of the plugin
    pub description: String,
}

impl PluginInfo {
    pub fn new(name: String, signature: String, description: String) -> (info: Self)
        ensures
            info.name@ == name@,
            info.signature@ == signature@,
            info.description@ == description@,
    {
        PluginInfo { name, signature, description }
    }
}

pub const PLANE_CRASHED: i32 = 101;

pub const PLANE_LOADED: i32 = 102;

pub const AIRPORT_LOADED: i32 = 103;

pub const SCENERY_LOADED: i32 = 104;

pub const AIRPLANE_COUNT_CHANGED: i32 = 105;

pub const PLANE_UNLOADED: i32 = 106;

pub const WILL_WRITE_PREFS: i32 = 107;

pub const LIVERY_LOADED: i32 = 108;

pub const ENTERED_VR: i32 = 109;

pub const EXITING_VR: i32 = 110;

pub const RELEASE_PLANES: i32 = 111;

pub const FMOD_BANK_LOADED: i32 = 112;

pub const FMOD_BANK_UNLOADING: i32 = 113;

pub const DATAREFS_ADDED: i32 = 114;

/// A message that X-Plane or another plugin sends to this plugin.
#[derive(Debug, Clone, Copy, PartialEq, Eq, Hash, Structural)]
pub enum Message {
    PlaneCrashed,
    PlaneLoaded,
    AirportLoaded,
    SceneryLoaded,
    AirplaneCountChanged,
    PlaneUnloaded,
    WillWritePrefs,
    LiveryLoaded,
    EnteredVr,
    ExitingVr,
    ReleasePlanes,
    FmodBankLoaded,
    FmodBankUnloading,
    DatarefsAdded,
    /// A message with a code that X-Plane does not define, such as one between plugins
    Custom(i32),
}

/// The message code of each message.
pub open spec fn message_code(m: Message) -> i32 {
    match m {
        Message::PlaneCrashed => PLANE_CRASHED,
        Message::PlaneLoaded => PLANE_LOADED,
        Message::AirportLoaded => AIRPORT_LOADED,
        Message::SceneryLoaded => SCENERY_LOADED,
        Message::AirplaneCountChanged => AIRPLANE_COUNT_CHANGED,
        Message::PlaneUnloaded => PLANE_UNLOADED,
        Message::WillWritePrefs => WILL_WRITE_PREFS,
        Message::LiveryLoaded => LIVERY_LOADED,
        Message::EnteredVr => ENTERED_VR,
        Message::ExitingVr => EXITING_VR,
        Message::ReleasePlanes => RELEASE_PLANES,
        Message::FmodBankLoaded => FMOD_BANK_LOADED,
        Message::FmodBankUnloading => FMOD_BANK_UNLOADING,
        Message::DatarefsAdded => DATAREFS_ADDED,
        Message::Custom(c) => c,
    }
}

/// The message that a code stands for: each code X-Plane defines is its message, any
/// other code is a custom message carrying it.
pub open spec fn message_from_code(code: i32) -> Message {
    if code == PLANE_CRASHED {
        Message::PlaneCrashed
    } else if code == PLANE_LOADED {
        Message::PlaneLoaded
    } else if code == AIRPORT_LOADED {
        Message::AirportLoaded
    } else if code == SCENERY_LOADED {
        Message::SceneryLoaded
    } else if code == AIRPLANE_COUNT_CHANGED {
        Message::AirplaneCountChanged
    } else if code == PLANE_UNLOADED {
        Message::PlaneUnloaded
    } else if code == WILL_WRITE_PREFS {
        Message::WillWritePrefs
    } else if code == LIVERY_LOADED {
        Message::LiveryLoaded
    } else if code == ENTERED_VR {
        Message::EnteredVr
    } else if code == EXITING_VR {
        Message::ExitingVr
    } else if code == RELEASE_PLANES {
        Message::ReleasePlanes
    } else if code == FMOD_BANK_LOADED {
        Message::FmodBankLoaded
    } else if code == FMOD_BANK_UNLOADING {
        Message::FmodBankUnloading
    } else if code == DATAREFS_ADDED {
        Message::DatarefsAdded
    } else {
        Message::Custom(code)
    }
}

/// The codes that X-Plane defines for its messages.
pub open spec fn is_xplane_message_code(code: i32) -> bool {
    PLANE_CRASHED <= code <= DATAREFS_ADDED
}

impl Message {
    /// The code of this message.
    pub fn code(self) -> (c: i32)
        ensures
            c == message_code(self),
    {
        match self {
            Message::PlaneCrashed => PLANE_CRASHED,
            Message::PlaneLoaded => PLANE_LOADED,
            Message::AirportLoaded => AIRPORT_LOADED,
            Message::SceneryLoaded => SCENERY_LOADED,
            Message::AirplaneCountChanged => AIRPLANE_COUNT_CHANGED,
            Message::PlaneUnloaded => PLANE_UNLOADED,
            Message::WillWritePrefs => WILL_WRITE_PREFS,
            Message::LiveryLoaded => LIVERY_LOADED,
            Message::EnteredVr => ENTERED_VR,
            Message::ExitingVr => EXITING_VR,
            Message::ReleasePlanes => RELEASE_PLANES,
            Message::FmodBankLoaded => FMOD_BANK_LOADED,
            Message::FmodBankUnloading => FMOD_BANK_UNLOADING,
            Message::DatarefsAdded => DATAREFS_ADDED,
            Message::Custom(c) => c,
        }
    }
}

impl From<i32> for Message {
    fn from(code: i32) -> (m: Self) {
        if code == PLANE_CRASHED {
            Message::PlaneCrashed
        } else if code == PLANE_LOADED {
            Message::PlaneLoaded
        } else if code == AIRPORT_LOADED {
            Message::AirportLoaded
        } else if code == SCENERY_LOADED {
            Message::SceneryLoaded
        } else if code == AIRPLANE_COUNT_CHANGED {
            Message::AirplaneCountChanged
        } else if code == PLANE_UNLOADED {
            Message::PlaneUnloaded
        } else if code == WILL_WRITE_PREFS {
            Message::WillWritePrefs
        } else if code == LIVERY_LOADED {
            Message::LiveryLoaded
        } else if code == ENTERED_VR {
            Message::EnteredVr
        } else if code == EXITING_VR {
            Message::ExitingVr
        } else if code == RELEASE_PLANES {
            Message::ReleasePlanes
        } else if code == FMOD_BANK_LOADED {
            Message::FmodBankLoaded
        } else if code == FMOD_BANK_UNLOADING {
            Message::FmodBankUnloading
        } else if code == DATAREFS_ADDED {
            Message::DatarefsAdded
        } else {
            Message::Custom(code)
        }
    }
}

impl vstd::std_specs::convert::FromSpecImpl<i32> for Message {
    open spec fn obeys_from_spec() -> bool {
        true
    }

    open spec fn from_spec(code: i32) -> Message {
        message_from_code(code)
    }
}

/// Reading a code as a message and taking its code back gives the same code.
pub proof fn lemma_message_code_round_trip(code: i32)
    ensures
        message_code(message_from_code(code)) == code,
        message_from_code(code) is Custom <==> !is_xplane_message_code(code),
{
}

/// Taking a message's code and reading it back gives the same message, except for a custom
/// message that carries a code X-Plane defines: that code reads as X-Plane's message.
pub proof fn lemma_message_round_trip(m: Message)
    ensures
        !(m matches Message::Custom(c) && is_xplane_message_code(c)) ==> message_from_code(
            message_code(m),
        ) == m,
{
}

} // verus!
