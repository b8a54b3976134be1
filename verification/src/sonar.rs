//! Plain data model of the external audio-routing service and of the
//! control-plane client that discovers its endpoint.
//!
//! The routing service is reached over HTTPS/JSON by a collaborator
//! outside the library; what flows through the core's event router is
//! modeled here as plain values. Volumes, fractional on the wire, are
//! carried as integer percentages.

use vstd::prelude::*;

verus! {

/// The direction of an audio device: playback or capture.
#[derive(Clone, Copy, PartialEq, Eq, Structural, Debug)]
pub enum DeviceDataFlow {
    Render,
    Capture,
}

/// A logical audio role the routing service redirects: the classic
/// channels plus the microphone.
#[derive(Clone, Copy, PartialEq, Eq, Structural, Debug)]
pub enum RedirectionId {
    Game,
    Chat,
    Media,
    Aux,
    Mic,
}

/// An audio endpoint as the routing service lists it.
#[derive(Clone, PartialEq, Eq, Debug)]
pub struct AudioDevice {
    pub id: Option<String>,
    pub friendly_name: Option<String>,
    pub data_flow: Option<DeviceDataFlow>,
}

/// A "classic" redirection: a logical role mapped to a physical device ID.
#[derive(Clone, PartialEq, Eq, Debug)]
pub struct ClassicRedirection {
    pub id: Option<RedirectionId>,
    pub device_id: Option<String>,
}

/// The volume settings of one redirected role.
#[derive(Clone, Copy, PartialEq, Eq, Structural, Debug)]
pub struct RedirectionVolumes {
    /// Volume as an integer percentage, 0 to 100.
    pub volume_percent: u8,
    pub muted: bool,
}

/// Per-role volume settings as the routing service reports them.
#[derive(Clone, PartialEq, Eq, Debug)]
pub struct VolumeInfo {
    pub devices: Vec<(RedirectionId, RedirectionVolumes)>,
}

impl ClassicRedirection {
    /// The data-flow direction of this redirection's role: the microphone
    /// captures, every other role renders. Only defined for a redirection
    /// whose role is known.
    pub fn get_dataflow(&self) -> (f: DeviceDataFlow)
        requires
            self.id is Some,
        ensures
            f == (if self.id == Some(RedirectionId::Mic) {
                DeviceDataFlow::Capture
            } else {
                DeviceDataFlow::Render
            }),
    {
        match self.id {
            Some(RedirectionId::Mic) => DeviceDataFlow::Capture,
            _ => DeviceDataFlow::Render,
        }
    }

    /// Whether this redirection currently targets the given device: both
    /// IDs must be known and equal.
    pub fn matches_device(&self, other: &AudioDevice) -> (r: bool)
        ensures
            r == (self.device_id matches Some(d) && other.id matches Some(o) && d@ == o@),
    {
        match (&self.device_id, &other.id) {
            (Some(d), Some(o)) => *d == *o,
            _ => false,
        }
    }
}

/// A sub-application of the local control-plane service, with the base URL
/// its API is served from.
#[derive(Clone, PartialEq, Eq, Debug)]
pub struct SubApp {
    pub name: String,
    pub is_enabled: bool,
    pub is_ready: bool,
    pub is_running: bool,
    pub web_server_address: String,
}

/// The first listed sub-application with the given name, and its base URL.
pub open spec fn spec_subapp_url(apps: Seq<SubApp>, name: Seq<char>) -> Option<Seq<char>>
    decreases apps.len(),
{
    if apps.len() == 0 {
        None
    } else if apps[0].name@ == name {
        Some(apps[0].web_server_address@)
    } else {
        spec_subapp_url(apps.drop_first(), name)
    }
}

/// Client of the local control-plane service that hosts the routing
/// service as a sub-application. Which endpoint to talk to is an injected
/// configuration value; fetching the sub-application list over HTTPS
/// happens outside the library, which then picks the URL out of it.
#[derive(Clone, PartialEq, Eq, Debug)]
pub struct SteelSeriesEngineClient {
    pub gg_encrypted_address: String,
}

impl SteelSeriesEngineClient {
    pub fn new(gg_encrypted_address: String) -> (c: SteelSeriesEngineClient)
        ensures
            c.gg_encrypted_address == gg_encrypted_address,
    {
        SteelSeriesEngineClient { gg_encrypted_address }
    }

    /// The base URL of the named sub-application, from a fetched
    /// sub-application list: `Some` iff an entry with that name is listed,
    /// and then the URL of the first such entry.
    pub fn get_subapp_url(&self, sub_apps: &Vec<SubApp>, app_name: &String) -> (r: Option<String>)
        ensures
            (match r {
                Some(url) => spec_subapp_url(sub_apps@, app_name@) == Some(url@),
                None => spec_subapp_url(sub_apps@, app_name@) is None,
            }),
    {
        let mut i: usize = 0;
        assert(sub_apps@.skip(0) =~= sub_apps@);
        while i < sub_apps.len()
            invariant
                i <= sub_apps@.len(),
                spec_subapp_url(sub_apps@.skip(i as int), app_name@) == spec_subapp_url(
                    sub_apps@,
                    app_name@,
                ),
            decreases sub_apps@.len() - i,
        {
            proof {
                assert(sub_apps@.skip(i as int)[0] == sub_apps@[i as int]);
            }
            if sub_apps[i].name == *app_name {
                proof {
                    assert(spec_subapp_url(sub_apps@.skip(i as int), app_name@) == Some(
                        sub_apps@[i as int].web_server_address@,
                    ));
                }
                return Some(sub_apps[i].web_server_address.clone());
            }
            proof {
                assert(sub_apps@.skip(i as int).drop_first() =~= sub_apps@.skip(i as int + 1));
                assert(spec_subapp_url(sub_apps@.skip(i as int), app_name@) == spec_subapp_url(
                    sub_apps@.skip(i as int + 1),
                    app_name@,
                ));
            }
            i = i + 1;
        }
        assert(sub_apps@.skip(sub_apps@.len() as int).len() == 0);
        None
    }
}

} // verus!
