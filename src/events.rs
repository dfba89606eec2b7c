use vstd::prelude::*;
use crate::correlation::{CorrelationTable, PendingRequest};

verus! {

/// Settings pushed from the host page. Volumes are in thousandths
/// (1000 is full volume).
#[derive(Clone, Copy, Debug, PartialEq, Eq, Structural)]
pub struct SharedSettings {
    pub music_enabled: bool,
    pub bgm_volume: u32,
    pub sfx_volume: u32,
}

impl SharedSettings {
    /// Music off, background music at 0.6, effects at 0.8.
    pub fn new() -> (r: SharedSettings)
        ensures
            r == (SharedSettings { music_enabled: false, bgm_volume: 600, sfx_volume: 800 }),
    {
        SharedSettings { music_enabled: false, bgm_volume: 600, sfx_volume: 800 }
    }
}

impl Default for SharedSettings {
    fn default() -> (r: SharedSettings)
        ensures
            r == (SharedSettings { music_enabled: false, bgm_volume: 600, sfx_volume: 800 }),
    {
        SharedSettings::new()
    }
}

/// Events the simulation sends to the host page. Volumes are in thousandths.
#[derive(Debug)]
pub enum BevyToJsEvent {
    PlayAudio { request_id: String, sound_id: String, volume: u32 },
    BluetoothScan { request_id: String, device_filter: String },
    TestEvent { request_id: String, message: String },
}

/// Events the host page sends to the simulation. Durations are in
/// milliseconds; the gesture timestamp is the host clock in microseconds.
#[derive(Debug)]
pub enum JsToBevyEvent {
    AudioCompleted { request_id: String, success: bool, error_message: Option<String>, duration_ms: Option<u32> },
    BluetoothScanCompleted { request_id: String, success: bool, devices_found: Vec<String>, error_message: Option<String> },
    TestEventResponse { request_id: String, response_data: String },
    UserGesture { request_id: String, timestamp_us: u64 },
    SettingsUpdated { request_id: String, settings: SharedSettings },
}

/// What is kept of a sound request sent through the bridge.
#[derive(Debug)]
pub struct AudioRequest {
    pub sound_id: String,
    pub volume: u32,
}

/// What is kept of a scan request sent through the bridge.
#[derive(Debug)]
pub struct BluetoothRequest {
    pub device_filter: String,
}

/// Requests sent through the bridge that await the host's answer.
pub struct PendingRequests {
    pub audio_requests: CorrelationTable<AudioRequest>,
    pub bluetooth_requests: CorrelationTable<BluetoothRequest>,
}

/// Settings as taken over from the host: music stays off for now.
pub open spec fn adopted_settings(s: SharedSettings) -> SharedSettings {
    SharedSettings { music_enabled: false, ..s }
}

impl PendingRequests {
    pub open spec fn wf(&self) -> bool {
        self.audio_requests.wf() && self.bluetooth_requests.wf()
    }

    /// Nothing in flight.
    pub fn new() -> (r: PendingRequests)
        ensures
            r.wf(),
            r.audio_requests@ == Map::<Seq<char>, PendingRequest<AudioRequest>>::empty(),
            r.bluetooth_requests@ == Map::<Seq<char>, PendingRequest<BluetoothRequest>>::empty(),
    {
        PendingRequests { audio_requests: CorrelationTable::new(), bluetooth_requests: CorrelationTable::new() }
    }

    /// Files an outgoing event dispatched at `now`: a sound request among the
    /// sound requests, a scan request among the scan requests; a test event
    /// is not tracked.
    pub fn track_outbound(&mut self, event: &BevyToJsEvent, now: u64)
        requires
            old(self).wf(),
        ensures
            final(self).wf(),
            match *event {
                BevyToJsEvent::PlayAudio { request_id, sound_id, volume } => {
                    &&& final(self).bluetooth_requests == old(self).bluetooth_requests
                    &&& final(self).audio_requests@ == old(self).audio_requests@.insert(
                        request_id@,
                        PendingRequest {
                            request_id,
                            payload: AudioRequest { sound_id, volume },
                            submitted_at: now,
                            retry_count: 0,
                        },
                    )
                },
                BevyToJsEvent::BluetoothScan { request_id, device_filter } => {
                    &&& final(self).audio_requests == old(self).audio_requests
                    &&& final(self).bluetooth_requests@ == old(self).bluetooth_requests@.insert(
                        request_id@,
                        PendingRequest {
                            request_id,
                            payload: BluetoothRequest { device_filter },
                            submitted_at: now,
                            retry_count: 0,
                        },
                    )
                },
                BevyToJsEvent::TestEvent { .. } => *final(self) == *old(self),
            },
    {
        match event {
            BevyToJsEvent::PlayAudio { request_id, sound_id, volume } => {
                self.audio_requests.insert(
                    request_id.clone(),
                    AudioRequest { sound_id: sound_id.clone(), volume: *volume },
                    now,
                );
            },
            BevyToJsEvent::BluetoothScan { request_id, device_filter } => {
                self.bluetooth_requests.insert(
                    request_id.clone(),
                    BluetoothRequest { device_filter: device_filter.clone() },
                    now,
                );
            },
            BevyToJsEvent::TestEvent { .. } => {},
        }
    }

    /// Processes an event of the host: a completion takes out the matching
    /// request (an unknown identifier changes nothing); new settings are
    /// adopted with music kept off. Returns whether the event reports a user
    /// gesture.
    pub fn handle_inbound(&mut self, event: JsToBevyEvent, settings: &mut SharedSettings) -> (r: bool)
        requires
            old(self).wf(),
        ensures
            final(self).wf(),
            r == (event is UserGesture),
            match event {
                JsToBevyEvent::AudioCompleted { request_id, .. } => {
                    &&& final(self).audio_requests@ == old(self).audio_requests@.remove(request_id@)
                    &&& final(self).bluetooth_requests == old(self).bluetooth_requests
                    &&& *final(settings) == *old(settings)
                },
                JsToBevyEvent::BluetoothScanCompleted { request_id, .. } => {
                    &&& final(self).bluetooth_requests@ == old(self).bluetooth_requests@.remove(request_id@)
                    &&& final(self).audio_requests == old(self).audio_requests
                    &&& *final(settings) == *old(settings)
                },
                JsToBevyEvent::SettingsUpdated { settings: s, .. } => {
                    &&& *final(self) == *old(self)
                    &&& *final(settings) == adopted_settings(s)
                },
                _ => *final(self) == *old(self) && *final(settings) == *old(settings),
            },
    {
        match event {
            JsToBevyEvent::AudioCompleted { request_id, .. } => {
                let _ = self.audio_requests.remove(&request_id);
                false
            },
            JsToBevyEvent::BluetoothScanCompleted { request_id, .. } => {
                let _ = self.bluetooth_requests.remove(&request_id);
                false
            },
            JsToBevyEvent::TestEventResponse { .. } => false,
            JsToBevyEvent::UserGesture { .. } => true,
            JsToBevyEvent::SettingsUpdated { settings: s, .. } => {
                *settings = SharedSettings { music_enabled: false, ..s };
                false
            },
        }
    }
}

} // verus!
