use vstd::prelude::*;
use crate::audio::{AudioManager, AudioRequest, AudioResponse, gesture_seen};
use crate::bluetooth::{BluetoothLEManager, BluetoothLERequest, BluetoothLEResponse, request_post};
use crate::camera::{CameraPreviewControl, CameraPreviewRequest, preview_after_request};
use crate::codec::{
    WireMessage, DecodeError, decode_inbound, decode_audio_response, encode_audio_request, encode_outbound,
    inbound_wf, inbound_decodes, audio_response_wf, audio_response_decodes, audio_request_fields, outbound_fields,
};
use crate::correlation::PendingRequest;
use crate::events::{BevyToJsEvent, JsToBevyEvent, PendingRequests, SharedSettings, adopted_settings};
use crate::queue::EventQueue;

verus! {

/// The kinds of message the host page submits.
#[derive(Clone, Copy, Debug, PartialEq, Eq, Structural)]
pub enum InboundCategory {
    /// An event of the generic bridge channel.
    BridgeEvent,
    /// An answer to a sound request.
    AudioResponse,
}

/// The bridge between the host runtime and the tick loop: one mailbox per
/// message category, the requests in flight, and the services whose state
/// the bridge drives. It is created once and handed to both sides.
pub struct EventBridge {
    pub incoming_js_events: EventQueue<JsToBevyEvent>,
    pub incoming_audio_responses: EventQueue<AudioResponse>,
    pub outgoing_events: EventQueue<BevyToJsEvent>,
    pub audio_requests: EventQueue<AudioRequest>,
    pub bluetooth_requests: EventQueue<BluetoothLERequest>,
    pub bluetooth_responses: EventQueue<BluetoothLEResponse>,
    pub camera_preview_requests: EventQueue<CameraPreviewRequest>,
    pub pending: PendingRequests,
    pub settings: SharedSettings,
    pub audio: AudioManager,
    pub bluetooth: BluetoothLEManager,
    pub camera_preview: CameraPreviewControl,
}

/// The preview control after the requests of `q` were applied to `c`.
pub open spec fn preview_after(q: Seq<CameraPreviewRequest>, c: CameraPreviewControl) -> CameraPreviewControl
    decreases q.len(),
{
    if q.len() == 0 {
        c
    } else {
        preview_after_request(preview_after(q.drop_last(), c), q.last())
    }
}

/// Whether some event of `q` reports a user gesture.
pub open spec fn has_gesture(q: Seq<JsToBevyEvent>) -> bool {
    exists|i: int| 0 <= i < q.len() && (#[trigger] q[i]) is UserGesture
}

/// The settings after the events of `q` were processed, starting from `s`.
pub open spec fn settings_after(q: Seq<JsToBevyEvent>, s: SharedSettings) -> SharedSettings
    decreases q.len(),
{
    if q.len() == 0 {
        s
    } else {
        match q.last() {
            JsToBevyEvent::SettingsUpdated { settings, .. } => adopted_settings(settings),
            _ => settings_after(q.drop_last(), s),
        }
    }
}

/// The identifiers of the sound completions among `q`.
pub open spec fn completed_sounds(q: Seq<JsToBevyEvent>) -> Set<Seq<char>> {
    Set::new(|k: Seq<char>| exists|i: int| 0 <= i < q.len() && match #[trigger] q[i] {
        JsToBevyEvent::AudioCompleted { request_id, .. } => request_id@ == k,
        _ => false,
    })
}

/// The identifiers of the scan completions among `q`.
pub open spec fn completed_scans(q: Seq<JsToBevyEvent>) -> Set<Seq<char>> {
    Set::new(|k: Seq<char>| exists|i: int| 0 <= i < q.len() && match #[trigger] q[i] {
        JsToBevyEvent::BluetoothScanCompleted { request_id, .. } => request_id@ == k,
        _ => false,
    })
}

/// The identifiers answered by the responses of `q`.
pub open spec fn answered(q: Seq<AudioResponse>) -> Set<Seq<char>> {
    Set::new(|k: Seq<char>| exists|i: int| 0 <= i < q.len() && response_id(#[trigger] q[i]) == k)
}

pub open spec fn response_id(r: AudioResponse) -> Seq<char> {
    match r {
        AudioResponse::PlayCompleted { request_id, .. } => request_id@,
        AudioResponse::Stopped { request_id, .. } => request_id@,
        AudioResponse::VolumeChanged { request_id, .. } => request_id@,
        AudioResponse::TestCompleted { request_id, .. } => request_id@,
    }
}

/// The sound requests in flight after the requests of `q` were dispatched
/// at `now`, one by one, starting from `m`.
pub open spec fn after_dispatches(
    m: Map<Seq<char>, PendingRequest<AudioRequest>>,
    q: Seq<AudioRequest>,
    now: u64,
) -> Map<Seq<char>, PendingRequest<AudioRequest>>
    decreases q.len(),
{
    if q.len() == 0 {
        m
    } else {
        let r = q.last();
        after_dispatches(m, q.drop_last(), now).insert(
            r.id_of()@,
            PendingRequest { request_id: r.id_of(), payload: r, submitted_at: now, retry_count: 0 },
        )
    }
}

/// The bridge's sound requests in flight after the events of `q` were sent
/// at `now`, starting from `m`: each sound event is filed, others are not.
pub open spec fn sounds_after_sending(
    m: Map<Seq<char>, PendingRequest<crate::events::AudioRequest>>,
    q: Seq<BevyToJsEvent>,
    now: u64,
) -> Map<Seq<char>, PendingRequest<crate::events::AudioRequest>>
    decreases q.len(),
{
    if q.len() == 0 {
        m
    } else {
        let prev = sounds_after_sending(m, q.drop_last(), now);
        match q.last() {
            BevyToJsEvent::PlayAudio { request_id, sound_id, volume } => prev.insert(
                request_id@,
                PendingRequest {
                    request_id,
                    payload: crate::events::AudioRequest { sound_id, volume },
                    submitted_at: now,
                    retry_count: 0,
                },
            ),
            _ => prev,
        }
    }
}

/// The bridge's scan requests in flight after the events of `q` were sent
/// at `now`, starting from `m`: each scan event is filed, others are not.
pub open spec fn scans_after_sending(
    m: Map<Seq<char>, PendingRequest<crate::events::BluetoothRequest>>,
    q: Seq<BevyToJsEvent>,
    now: u64,
) -> Map<Seq<char>, PendingRequest<crate::events::BluetoothRequest>>
    decreases q.len(),
{
    if q.len() == 0 {
        m
    } else {
        let prev = scans_after_sending(m, q.drop_last(), now);
        match q.last() {
            BevyToJsEvent::BluetoothScan { request_id, device_filter } => prev.insert(
                request_id@,
                PendingRequest {
                    request_id,
                    payload: crate::events::BluetoothRequest { device_filter },
                    submitted_at: now,
                    retry_count: 0,
                },
            ),
            _ => prev,
        }
    }
}

/// What one tick hands to the host: wire messages for the generic channel
/// and for the sound channel, in the order in which they were produced.
pub struct TickOutput {
    pub events: Vec<WireMessage>,
    pub audio_requests: Vec<WireMessage>,
}

impl EventBridge {
    pub open spec fn wf(&self) -> bool {
        &&& self.pending.wf()
        &&& self.audio.wf()
        &&& self.bluetooth.wf()
    }

    /// A bridge with empty mailboxes and fresh services.
    pub fn new() -> (r: EventBridge)
        ensures
            r.wf(),
            r.incoming_js_events@.len() == 0,
            r.incoming_audio_responses@.len() == 0,
            r.outgoing_events@.len() == 0,
            r.audio_requests@.len() == 0,
            r.bluetooth_requests@.len() == 0,
            r.bluetooth_responses@.len() == 0,
            r.camera_preview_requests@.len() == 0,
            !gesture_seen(r.audio),
            r.settings == (SharedSettings { music_enabled: false, bgm_volume: 600, sfx_volume: 800 }),
    {
        EventBridge {
            incoming_js_events: EventQueue::new(),
            incoming_audio_responses: EventQueue::new(),
            outgoing_events: EventQueue::new(),
            audio_requests: EventQueue::new(),
            bluetooth_requests: EventQueue::new(),
            bluetooth_responses: EventQueue::new(),
            camera_preview_requests: EventQueue::new(),
            pending: PendingRequests::new(),
            settings: SharedSettings::new(),
            audio: AudioManager::new(),
            bluetooth: BluetoothLEManager::new(),
            camera_preview: CameraPreviewControl::new(),
        }
    }

    /// Accepts a message of the host: it is decoded and queued for the next
    /// tick. A malformed message is refused and changes nothing.
    pub fn submit_inbound(&mut self, category: InboundCategory, msg: &WireMessage) -> (r: Result<(), DecodeError>)
        ensures
            category == InboundCategory::BridgeEvent ==> {
                &&& r is Ok == inbound_wf(msg@)
                &&& final(self).incoming_audio_responses == old(self).incoming_audio_responses
                &&& if r is Ok {
                    &&& final(self).incoming_js_events@.len() == old(self).incoming_js_events@.len() + 1
                    &&& final(self).incoming_js_events@.drop_last() == old(self).incoming_js_events@
                    &&& inbound_decodes(msg@, final(self).incoming_js_events@.last())
                } else {
                    final(self).incoming_js_events == old(self).incoming_js_events
                }
            },
            category == InboundCategory::AudioResponse ==> {
                &&& r is Ok == audio_response_wf(msg@)
                &&& final(self).incoming_js_events == old(self).incoming_js_events
                &&& if r is Ok {
                    &&& final(self).incoming_audio_responses@.len() == old(self).incoming_audio_responses@.len() + 1
                    &&& final(self).incoming_audio_responses@.drop_last() == old(self).incoming_audio_responses@
                    &&& audio_response_decodes(msg@, final(self).incoming_audio_responses@.last())
                } else {
                    final(self).incoming_audio_responses == old(self).incoming_audio_responses
                }
            },
            final(self).outgoing_events == old(self).outgoing_events,
            final(self).audio_requests == old(self).audio_requests,
            final(self).bluetooth_requests == old(self).bluetooth_requests,
            final(self).bluetooth_responses == old(self).bluetooth_responses,
            final(self).pending == old(self).pending,
            final(self).settings == old(self).settings,
            final(self).audio == old(self).audio,
            final(self).bluetooth == old(self).bluetooth,
    {
        match category {
            InboundCategory::BridgeEvent => {
                let e = decode_inbound(msg)?;
                self.incoming_js_events.enqueue(e);
                assert(self.incoming_js_events@.drop_last() =~= old(self).incoming_js_events@);
                Ok(())
            },
            InboundCategory::AudioResponse => {
                let e = decode_audio_response(msg)?;
                self.incoming_audio_responses.enqueue(e);
                assert(self.incoming_audio_responses@.drop_last() =~= old(self).incoming_audio_responses@);
                Ok(())
            },
        }
    }

    /// Delivers the waiting events of the host, oldest first: completions
    /// take out their requests, settings are adopted, a gesture opens the
    /// sound gate.
    pub fn process_js_events(&mut self)
        requires
            old(self).wf(),
        ensures
            final(self).wf(),
            final(self).incoming_js_events@.len() == 0,
            gesture_seen(final(self).audio) == (gesture_seen(old(self).audio) || has_gesture(old(self).incoming_js_events@)),
            final(self).settings == settings_after(old(self).incoming_js_events@, old(self).settings),
            final(self).pending.audio_requests@ == old(self).pending.audio_requests@.remove_keys(
                completed_sounds(old(self).incoming_js_events@)),
            final(self).pending.bluetooth_requests@ == old(self).pending.bluetooth_requests@.remove_keys(
                completed_scans(old(self).incoming_js_events@)),
            final(self).audio.pending_requests == old(self).audio.pending_requests,
            final(self).incoming_audio_responses == old(self).incoming_audio_responses,
            final(self).camera_preview == old(self).camera_preview,
            final(self).camera_preview_requests == old(self).camera_preview_requests,
            final(self).audio_requests == old(self).audio_requests,
            final(self).outgoing_events == old(self).outgoing_events,
            final(self).bluetooth_requests == old(self).bluetooth_requests,
            final(self).bluetooth == old(self).bluetooth,
            final(self).bluetooth_responses == old(self).bluetooth_responses,
    {
        let ghost q = self.incoming_js_events@;
        let mut items = self.incoming_js_events.drain();
        let n = items.len();
        let mut i: usize = 0;
        assert(items@.subrange(0, n as int) =~= q);
        while i < n
            invariant
                self.wf(),
                n == q.len(),
                i <= n,
                items@ == q.subrange(i as int, n as int),
                self.incoming_js_events@.len() == 0,
                gesture_seen(self.audio) == (gesture_seen(old(self).audio) || has_gesture(q.subrange(0, i as int))),
                self.settings == settings_after(q.subrange(0, i as int), old(self).settings),
                self.pending.audio_requests@ == old(self).pending.audio_requests@.remove_keys(
                    completed_sounds(q.subrange(0, i as int))),
                self.pending.bluetooth_requests@ == old(self).pending.bluetooth_requests@.remove_keys(
                    completed_scans(q.subrange(0, i as int))),
                self.audio.pending_requests == old(self).audio.pending_requests,
                self.incoming_audio_responses == old(self).incoming_audio_responses,
                self.camera_preview == old(self).camera_preview,
                self.camera_preview_requests == old(self).camera_preview_requests,
                self.audio_requests == old(self).audio_requests,
                self.outgoing_events == old(self).outgoing_events,
                self.bluetooth_requests == old(self).bluetooth_requests,
                self.bluetooth == old(self).bluetooth,
                self.bluetooth_responses == old(self).bluetooth_responses,
            decreases n - i,
        {
            let ghost prefix = q.subrange(0, i as int);
            let ghost next = q.subrange(0, i + 1);
            let e = items.remove(0);
            assert(e == q[i as int]);
            assert(next.drop_last() =~= prefix);
            assert(next.last() == e);
            let gesture = self.pending.handle_inbound(e, &mut self.settings);
            if gesture {
                self.audio.enable_audio_gesture();
            }
            proof {
                assert(has_gesture(next) == (has_gesture(prefix) || e is UserGesture)) by {
                    if has_gesture(next) && !(e is UserGesture) {
                        let k = choose|k: int| 0 <= k < next.len() && (#[trigger] next[k]) is UserGesture;
                        assert(k < i);
                        assert(prefix[k] == next[k]);
                    }
                    if has_gesture(prefix) {
                        let k = choose|k: int| 0 <= k < prefix.len() && (#[trigger] prefix[k]) is UserGesture;
                        assert(next[k] == prefix[k]);
                    }
                    if e is UserGesture {
                        assert(next[i as int] == e);
                    }
                }
                lemma_completed_step(prefix, next);
            }
            i = i + 1;
            assert(items@ =~= q.subrange(i as int, n as int));
        }
        assert(q.subrange(0, n as int) =~= q);
    }
}

impl EventBridge {
    /// Delivers the waiting answers to sound requests, oldest first; each
    /// takes out the request it answers.
    pub fn process_audio_responses(&mut self)
        requires
            old(self).wf(),
        ensures
            final(self).wf(),
            final(self).incoming_audio_responses@.len() == 0,
            gesture_seen(final(self).audio) == gesture_seen(old(self).audio),
            final(self).audio.pending_requests@ == old(self).audio.pending_requests@.remove_keys(
                answered(old(self).incoming_audio_responses@)),
            final(self).pending == old(self).pending,
            final(self).settings == old(self).settings,
            final(self).incoming_js_events == old(self).incoming_js_events,
            final(self).camera_preview == old(self).camera_preview,
            final(self).camera_preview_requests == old(self).camera_preview_requests,
            final(self).audio_requests == old(self).audio_requests,
            final(self).outgoing_events == old(self).outgoing_events,
            final(self).bluetooth_requests == old(self).bluetooth_requests,
            final(self).bluetooth == old(self).bluetooth,
            final(self).bluetooth_responses == old(self).bluetooth_responses,
    {
        let ghost q = self.incoming_audio_responses@;
        let mut items = self.incoming_audio_responses.drain();
        let n = items.len();
        let mut i: usize = 0;
        assert(items@.subrange(0, n as int) =~= q);
        assert(old(self).audio.pending_requests@.remove_keys(answered(q.subrange(0, 0)))
            =~= old(self).audio.pending_requests@);
        while i < n
            invariant
                self.wf(),
                n == q.len(),
                i <= n,
                items@ == q.subrange(i as int, n as int),
                self.incoming_audio_responses@.len() == 0,
                gesture_seen(self.audio) == gesture_seen(old(self).audio),
                self.audio.pending_requests@ == old(self).audio.pending_requests@.remove_keys(
                    answered(q.subrange(0, i as int))),
                self.pending == old(self).pending,
                self.settings == old(self).settings,
                self.incoming_js_events == old(self).incoming_js_events,
                self.camera_preview == old(self).camera_preview,
                self.camera_preview_requests == old(self).camera_preview_requests,
                self.audio_requests == old(self).audio_requests,
                self.outgoing_events == old(self).outgoing_events,
                self.bluetooth_requests == old(self).bluetooth_requests,
                self.bluetooth == old(self).bluetooth,
                self.bluetooth_responses == old(self).bluetooth_responses,
            decreases n - i,
        {
            let ghost prefix = q.subrange(0, i as int);
            let ghost next = q.subrange(0, i + 1);
            let e = items.remove(0);
            assert(e == q[i as int]);
            let ghost id = response_id(e);
            self.audio.handle_response(e);
            proof {
                assert forall|k: Seq<char>| answered(next).contains(k) <==> (answered(prefix) + set![id]).contains(k) by {
                    if answered(next).contains(k) {
                        let j = choose|j: int| 0 <= j < next.len() && response_id(#[trigger] next[j]) == k;
                        if j < i {
                            assert(next[j] == prefix[j]);
                            assert(answered(prefix).contains(k));
                        }
                    }
                    if answered(prefix).contains(k) {
                        let j = choose|j: int| 0 <= j < prefix.len() && response_id(#[trigger] prefix[j]) == k;
                        assert(next[j] == prefix[j]);
                    }
                    if k == id {
                        assert(next[i as int] == e);
                    }
                }
                assert(answered(next) =~= answered(prefix) + set![id]);
                assert(self.audio.pending_requests@ =~= old(self).audio.pending_requests@.remove_keys(answered(next)));
            }
            i = i + 1;
            assert(items@ =~= q.subrange(i as int, n as int));
        }
        assert(q.subrange(0, n as int) =~= q);
    }

    /// Dispatches the waiting sound requests, oldest first, and returns their
    /// wire forms for the host. With the gesture lock locked every one of them is
    /// refused: nothing is sent and no entry is made.
    pub fn process_audio_requests(&mut self, now: u64) -> (r: Vec<WireMessage>)
        requires
            old(self).wf(),
        ensures
            final(self).wf(),
            final(self).audio_requests@.len() == 0,
            gesture_seen(final(self).audio) == gesture_seen(old(self).audio),
            gesture_seen(old(self).audio) ==> {
                &&& r@.len() == old(self).audio_requests@.len()
                &&& forall|i: int| 0 <= i < r@.len() ==> (#[trigger] r@[i])@ == audio_request_fields(old(self).audio_requests@[i])
                &&& final(self).audio.pending_requests@ == after_dispatches(
                    old(self).audio.pending_requests@, old(self).audio_requests@, now)
            },
            !gesture_seen(old(self).audio) ==> {
                &&& r@.len() == 0
                &&& final(self).audio.pending_requests == old(self).audio.pending_requests
            },
            final(self).audio.errors == old(self).audio.errors,
            final(self).audio.playing_sounds == old(self).audio.playing_sounds,
            final(self).pending == old(self).pending,
            final(self).settings == old(self).settings,
            final(self).incoming_js_events == old(self).incoming_js_events,
            final(self).camera_preview == old(self).camera_preview,
            final(self).camera_preview_requests == old(self).camera_preview_requests,
            final(self).incoming_audio_responses == old(self).incoming_audio_responses,
            final(self).outgoing_events == old(self).outgoing_events,
            final(self).bluetooth_requests == old(self).bluetooth_requests,
            final(self).bluetooth == old(self).bluetooth,
            final(self).bluetooth_responses == old(self).bluetooth_responses,
    {
        let ghost q = self.audio_requests@;
        let ghost open = gesture_seen(self.audio);
        let mut items = self.audio_requests.drain();
        let n = items.len();
        let mut out: Vec<WireMessage> = Vec::new();
        let mut i: usize = 0;
        assert(items@.subrange(0, n as int) =~= q);
        while i < n
            invariant
                self.wf(),
                n == q.len(),
                i <= n,
                items@ == q.subrange(i as int, n as int),
                self.audio_requests@.len() == 0,
                open == gesture_seen(old(self).audio),
                gesture_seen(self.audio) == open,
                open ==> out@.len() == i,
                open ==> forall|k: int| 0 <= k < i ==> (#[trigger] out@[k])@ == audio_request_fields(q[k]),
                open ==> self.audio.pending_requests@ == after_dispatches(
                    old(self).audio.pending_requests@, q.subrange(0, i as int), now),
                self.audio.errors == old(self).audio.errors,
                self.audio.playing_sounds == old(self).audio.playing_sounds,
                !open ==> out@.len() == 0,
                !open ==> self.audio.pending_requests == old(self).audio.pending_requests,
                self.pending == old(self).pending,
                self.settings == old(self).settings,
                self.incoming_js_events == old(self).incoming_js_events,
                self.camera_preview == old(self).camera_preview,
                self.camera_preview_requests == old(self).camera_preview_requests,
                self.incoming_audio_responses == old(self).incoming_audio_responses,
                self.outgoing_events == old(self).outgoing_events,
                self.bluetooth_requests == old(self).bluetooth_requests,
                self.bluetooth == old(self).bluetooth,
                self.bluetooth_responses == old(self).bluetooth_responses,
            decreases n - i,
        {
            let e = items.remove(0);
            assert(e == q[i as int]);
            assert(q.subrange(0, i + 1).drop_last() =~= q.subrange(0, i as int));
            let wire = encode_audio_request(&e);
            match self.audio.dispatch(e, now) {
                Ok(()) => {
                    out.push(wire);
                },
                Err(_) => {},
            }
            i = i + 1;
            assert(items@ =~= q.subrange(i as int, n as int));
        }
        out
    }

    /// Sends the waiting events of the simulation, oldest first: each is
    /// filed among the requests in flight and returned in wire form.
    pub fn process_outgoing_events(&mut self, now: u64) -> (r: Vec<WireMessage>)
        requires
            old(self).wf(),
        ensures
            final(self).wf(),
            final(self).outgoing_events@.len() == 0,
            r@.len() == old(self).outgoing_events@.len(),
            forall|i: int| 0 <= i < r@.len() ==> (#[trigger] r@[i])@ == outbound_fields(old(self).outgoing_events@[i]),
            final(self).pending.audio_requests@ == sounds_after_sending(
                old(self).pending.audio_requests@, old(self).outgoing_events@, now),
            final(self).pending.bluetooth_requests@ == scans_after_sending(
                old(self).pending.bluetooth_requests@, old(self).outgoing_events@, now),
            gesture_seen(final(self).audio) == gesture_seen(old(self).audio),
            final(self).audio == old(self).audio,
            final(self).settings == old(self).settings,
            final(self).incoming_js_events == old(self).incoming_js_events,
            final(self).camera_preview == old(self).camera_preview,
            final(self).camera_preview_requests == old(self).camera_preview_requests,
            final(self).incoming_audio_responses == old(self).incoming_audio_responses,
            final(self).audio_requests == old(self).audio_requests,
            final(self).bluetooth_requests == old(self).bluetooth_requests,
            final(self).bluetooth == old(self).bluetooth,
            final(self).bluetooth_responses == old(self).bluetooth_responses,
    {
        let ghost q = self.outgoing_events@;
        let mut items = self.outgoing_events.drain();
        let n = items.len();
        let mut out: Vec<WireMessage> = Vec::new();
        let mut i: usize = 0;
        while i < n
            invariant
                self.wf(),
                n == q.len(),
                i <= n,
                items@ == q,
                self.pending.wf(),
                self.outgoing_events@.len() == 0,
                out@.len() == i,
                forall|k: int| 0 <= k < i ==> (#[trigger] out@[k])@ == outbound_fields(q[k]),
                self.pending.audio_requests@ == sounds_after_sending(
                    old(self).pending.audio_requests@, q.subrange(0, i as int), now),
                self.pending.bluetooth_requests@ == scans_after_sending(
                    old(self).pending.bluetooth_requests@, q.subrange(0, i as int), now),
                self.audio == old(self).audio,
                self.settings == old(self).settings,
                self.incoming_js_events == old(self).incoming_js_events,
                self.camera_preview == old(self).camera_preview,
                self.camera_preview_requests == old(self).camera_preview_requests,
                self.incoming_audio_responses == old(self).incoming_audio_responses,
                self.audio_requests == old(self).audio_requests,
                self.bluetooth_requests == old(self).bluetooth_requests,
                self.bluetooth == old(self).bluetooth,
                self.bluetooth_responses == old(self).bluetooth_responses,
            decreases n - i,
        {
            assert(q.subrange(0, i + 1).drop_last() =~= q.subrange(0, i as int));
            assert(q.subrange(0, i + 1).last() == q[i as int]);
            self.pending.track_outbound(&items[i], now);
            out.push(encode_outbound(&items[i]));
            i = i + 1;
        }
        assert(q.subrange(0, n as int) =~= q);
        out
    }

    /// Hands the waiting Bluetooth requests, oldest first, to the Bluetooth
    /// service and queues what it reports, in order: the service goes
    /// through one step per request, and the reports of each step follow
    /// those of the step before.
    pub fn process_bluetooth_requests(&mut self, now: u64)
        requires
            old(self).wf(),
        ensures
            final(self).wf(),
            final(self).bluetooth_requests@.len() == 0,
            exists|states: Seq<BluetoothLEManager>, outs: Seq<Seq<BluetoothLEResponse>>|
                bluetooth_run(old(self).bluetooth_requests@, now, states, outs)
                && states[0] == old(self).bluetooth
                && states.last() == final(self).bluetooth
                && final(self).bluetooth_responses@ == old(self).bluetooth_responses@ + concat_all(outs),
            final(self).audio == old(self).audio,
            final(self).pending == old(self).pending,
            final(self).settings == old(self).settings,
            final(self).incoming_js_events == old(self).incoming_js_events,
            final(self).camera_preview == old(self).camera_preview,
            final(self).camera_preview_requests == old(self).camera_preview_requests,
            final(self).incoming_audio_responses == old(self).incoming_audio_responses,
            final(self).audio_requests == old(self).audio_requests,
            final(self).outgoing_events == old(self).outgoing_events,
    {
        let ghost q = self.bluetooth_requests@;
        let ghost before = self.bluetooth_responses@;
        let mut items = self.bluetooth_requests.drain();
        let n = items.len();
        let ghost mut states: Seq<BluetoothLEManager> = seq![self.bluetooth];
        let ghost mut outs: Seq<Seq<BluetoothLEResponse>> = Seq::empty();
        let mut i: usize = 0;
        assert(items@.subrange(0, n as int) =~= q);
        proof {
            assert(bluetooth_run(q.subrange(0, 0), now, states, outs));
            assert(before + concat_all(outs) =~= before);
        }
        while i < n
            invariant
                self.wf(),
                n == q.len(),
                i <= n,
                items@ == q.subrange(i as int, n as int),
                self.bluetooth_requests@.len() == 0,
                bluetooth_run(q.subrange(0, i as int), now, states, outs),
                states[0] == old(self).bluetooth,
                states.last() == self.bluetooth,
                self.bluetooth_responses@ == before + concat_all(outs),
                before == old(self).bluetooth_responses@,
                self.audio == old(self).audio,
                self.pending == old(self).pending,
                self.settings == old(self).settings,
                self.incoming_js_events == old(self).incoming_js_events,
                self.camera_preview == old(self).camera_preview,
                self.camera_preview_requests == old(self).camera_preview_requests,
                self.incoming_audio_responses == old(self).incoming_audio_responses,
                self.audio_requests == old(self).audio_requests,
                self.outgoing_events == old(self).outgoing_events,
            decreases n - i,
        {
            let request = items.remove(0);
            assert(request == q[i as int]);
            let ghost prev_state = self.bluetooth;
            let ghost prev_queue = self.bluetooth_responses@;
            let mut responses = self.bluetooth.handle_request(request, now);
            let ghost out = responses@;
            let ghost after = self.bluetooth;
            assert(request_post(prev_state, after, q[i as int], now, out));
            let mut k: usize = 0;
            let total = responses.len();
            while responses.len() > 0
                invariant
                    self.wf(),
                    self.bluetooth == after,
                    self.bluetooth_requests@.len() == 0,
                    total == out.len(),
                    k <= total,
                    responses@ == out.subrange(k as int, total as int),
                    self.bluetooth_responses@ == prev_queue + out.subrange(0, k as int),
                    self.audio == old(self).audio,
                    self.pending == old(self).pending,
                    self.settings == old(self).settings,
                    self.incoming_js_events == old(self).incoming_js_events,
                    self.camera_preview == old(self).camera_preview,
                    self.camera_preview_requests == old(self).camera_preview_requests,
                    self.incoming_audio_responses == old(self).incoming_audio_responses,
                    self.audio_requests == old(self).audio_requests,
                    self.outgoing_events == old(self).outgoing_events,
                decreases responses@.len(),
            {
                let response = responses.remove(0);
                self.bluetooth_responses.enqueue(response);
                k = k + 1;
                assert(self.bluetooth_responses@ =~= prev_queue + out.subrange(0, k as int));
                assert(responses@ =~= out.subrange(k as int, total as int));
            }
            proof {
                assert(out.subrange(0, k as int) =~= out);
                let ghost old_states = states;
                let ghost old_outs = outs;
                states = states.push(self.bluetooth);
                outs = outs.push(out);
                lemma_run_step(q, i as int, now, old_states, old_outs, self.bluetooth, out);
                assert(outs.drop_last() =~= old_outs);
                assert(concat_all(outs) == concat_all(old_outs) + out);
                assert(self.bluetooth_responses@ =~= before + concat_all(outs));
            }
            i = i + 1;
            assert(items@ =~= q.subrange(i as int, n as int));
        }
        assert(q.subrange(0, n as int) =~= q);
    }

    /// One tick: deliver the host's events, then the answers to sound
    /// requests, then dispatch sound requests, send the simulation's events,
    /// and run the Bluetooth requests. A gesture delivered in this tick
    /// already opens the gesture lock for the sound requests of the same tick.
    pub fn tick(&mut self, now: u64) -> (r: TickOutput)
        requires
            old(self).wf(),
        ensures
            final(self).wf(),
            final(self).incoming_js_events@.len() == 0,
            final(self).incoming_audio_responses@.len() == 0,
            final(self).audio_requests@.len() == 0,
            final(self).outgoing_events@.len() == 0,
            final(self).bluetooth_requests@.len() == 0,
            final(self).camera_preview_requests@.len() == 0,
            final(self).camera_preview == preview_after(old(self).camera_preview_requests@, old(self).camera_preview),
            gesture_seen(final(self).audio) == (gesture_seen(old(self).audio) || has_gesture(old(self).incoming_js_events@)),
            final(self).settings == settings_after(old(self).incoming_js_events@, old(self).settings),
            r.events@.len() == old(self).outgoing_events@.len(),
            final(self).pending.audio_requests@ == sounds_after_sending(
                old(self).pending.audio_requests@.remove_keys(completed_sounds(old(self).incoming_js_events@)),
                old(self).outgoing_events@, now),
            final(self).pending.bluetooth_requests@ == scans_after_sending(
                old(self).pending.bluetooth_requests@.remove_keys(completed_scans(old(self).incoming_js_events@)),
                old(self).outgoing_events@, now),
            final(self).audio.pending_requests@ == if gesture_seen(final(self).audio) {
                after_dispatches(
                    old(self).audio.pending_requests@.remove_keys(answered(old(self).incoming_audio_responses@)),
                    old(self).audio_requests@, now)
            } else {
                old(self).audio.pending_requests@.remove_keys(answered(old(self).incoming_audio_responses@))
            },
            forall|i: int| 0 <= i < r.events@.len() ==> (#[trigger] r.events@[i])@ == outbound_fields(old(self).outgoing_events@[i]),
            gesture_seen(final(self).audio) ==> {
                &&& r.audio_requests@.len() == old(self).audio_requests@.len()
                &&& forall|i: int| 0 <= i < r.audio_requests@.len() ==>
                    (#[trigger] r.audio_requests@[i])@ == audio_request_fields(old(self).audio_requests@[i])
            },
            !gesture_seen(final(self).audio) ==> r.audio_requests@.len() == 0,
            exists|states: Seq<BluetoothLEManager>, outs: Seq<Seq<BluetoothLEResponse>>|
                bluetooth_run(old(self).bluetooth_requests@, now, states, outs)
                && states[0] == old(self).bluetooth
                && states.last() == final(self).bluetooth
                && final(self).bluetooth_responses@ == old(self).bluetooth_responses@ + concat_all(outs),
    {
        self.process_js_events();
        self.process_audio_responses();
        let audio_requests = self.process_audio_requests(now);
        let events = self.process_outgoing_events(now);
        self.process_bluetooth_requests(now);
        self.process_camera_preview_requests();
        TickOutput { events, audio_requests }
    }
}

impl EventBridge {
    /// Applies the waiting camera preview requests, oldest first.
    pub fn process_camera_preview_requests(&mut self)
        ensures
            final(self).camera_preview_requests@.len() == 0,
            final(self).camera_preview == preview_after(old(self).camera_preview_requests@, old(self).camera_preview),
            final(self).incoming_js_events == old(self).incoming_js_events,
            final(self).incoming_audio_responses == old(self).incoming_audio_responses,
            final(self).outgoing_events == old(self).outgoing_events,
            final(self).audio_requests == old(self).audio_requests,
            final(self).bluetooth_requests == old(self).bluetooth_requests,
            final(self).bluetooth_responses == old(self).bluetooth_responses,
            final(self).pending == old(self).pending,
            final(self).settings == old(self).settings,
            final(self).audio == old(self).audio,
            final(self).bluetooth == old(self).bluetooth,
    {
        let ghost q = self.camera_preview_requests@;
        let mut items = self.camera_preview_requests.drain();
        let n = items.len();
        let mut i: usize = 0;
        assert(items@.subrange(0, n as int) =~= q);
        while i < n
            invariant
                n == q.len(),
                i <= n,
                items@ == q.subrange(i as int, n as int),
                self.camera_preview_requests@.len() == 0,
                self.camera_preview == preview_after(q.subrange(0, i as int), old(self).camera_preview),
                self.incoming_js_events == old(self).incoming_js_events,
                self.incoming_audio_responses == old(self).incoming_audio_responses,
                self.outgoing_events == old(self).outgoing_events,
                self.audio_requests == old(self).audio_requests,
                self.bluetooth_requests == old(self).bluetooth_requests,
                self.bluetooth_responses == old(self).bluetooth_responses,
                self.pending == old(self).pending,
                self.settings == old(self).settings,
                self.audio == old(self).audio,
                self.bluetooth == old(self).bluetooth,
            decreases n - i,
        {
            let ghost next = q.subrange(0, i + 1);
            let e = items.remove(0);
            assert(e == q[i as int]);
            assert(next.drop_last() =~= q.subrange(0, i as int));
            self.camera_preview.apply(e);
            i = i + 1;
            assert(items@ =~= q.subrange(i as int, n as int));
        }
        assert(q.subrange(0, n as int) =~= q);
    }
}

/// The responses of `outs`, one list after the other.
pub open spec fn concat_all(outs: Seq<Seq<BluetoothLEResponse>>) -> Seq<BluetoothLEResponse>
    decreases outs.len(),
{
    if outs.len() == 0 {
        Seq::empty()
    } else {
        concat_all(outs.drop_last()) + outs.last()
    }
}

/// The Bluetooth service went through `states`, handling `q[i]` at `now` in
/// the step from `states[i]` to `states[i + 1]` and reporting `outs[i]`.
pub open spec fn bluetooth_run(
    q: Seq<BluetoothLERequest>,
    now: u64,
    states: Seq<BluetoothLEManager>,
    outs: Seq<Seq<BluetoothLEResponse>>,
) -> bool {
    &&& states.len() == q.len() + 1
    &&& outs.len() == q.len()
    &&& forall|i: int| 0 <= i < q.len() ==> request_post(states[i], states[i + 1], #[trigger] q[i], now, outs[i])
}

proof fn lemma_run_step(
    q: Seq<BluetoothLERequest>,
    i: int,
    now: u64,
    states: Seq<BluetoothLEManager>,
    outs: Seq<Seq<BluetoothLEResponse>>,
    next: BluetoothLEManager,
    out: Seq<BluetoothLEResponse>,
)
    requires
        0 <= i < q.len(),
        bluetooth_run(q.subrange(0, i), now, states, outs),
        request_post(states.last(), next, q[i], now, out),
    ensures
        bluetooth_run(q.subrange(0, i + 1), now, states.push(next), outs.push(out)),
{
    let p = q.subrange(0, i);
    let p2 = q.subrange(0, i + 1);
    let s2 = states.push(next);
    let o2 = outs.push(out);
    assert forall|j: int| 0 <= j < p2.len() implies request_post(s2[j], s2[j + 1], #[trigger] p2[j], now, o2[j]) by {
        if j < i {
            assert(p2[j] == p[j]);
            assert(request_post(states[j], states[j + 1], p[j], now, outs[j]));
        } else {
            assert(p2[j] == q[i]);
        }
    }
}

proof fn lemma_completed_step(prefix: Seq<JsToBevyEvent>, next: Seq<JsToBevyEvent>)
    requires
        next.len() == prefix.len() + 1,
        next.drop_last() == prefix,
    ensures
        completed_sounds(next) == completed_sounds(prefix) + match next.last() {
            JsToBevyEvent::AudioCompleted { request_id, .. } => set![request_id@],
            _ => Set::<Seq<char>>::empty(),
        },
        completed_scans(next) == completed_scans(prefix) + match next.last() {
            JsToBevyEvent::BluetoothScanCompleted { request_id, .. } => set![request_id@],
            _ => Set::<Seq<char>>::empty(),
        },
{
    let n = prefix.len() as int;
    assert forall|i: int| 0 <= i < n implies next[i] == prefix[i] by {
        assert(prefix[i] == next.drop_last()[i]);
    }
    let extra_s = match next.last() {
        JsToBevyEvent::AudioCompleted { request_id, .. } => set![request_id@],
        _ => Set::<Seq<char>>::empty(),
    };
    assert forall|k: Seq<char>| completed_sounds(next).contains(k) <==> (completed_sounds(prefix) + extra_s).contains(k) by {
        if completed_sounds(next).contains(k) {
            let i = choose|i: int| 0 <= i < next.len() && match #[trigger] next[i] {
                JsToBevyEvent::AudioCompleted { request_id, .. } => request_id@ == k,
                _ => false,
            };
            if i < n {
                assert(next[i] == prefix[i]);
                assert(completed_sounds(prefix).contains(k));
            }
        }
        if completed_sounds(prefix).contains(k) {
            let i = choose|i: int| 0 <= i < prefix.len() && match #[trigger] prefix[i] {
                JsToBevyEvent::AudioCompleted { request_id, .. } => request_id@ == k,
                _ => false,
            };
            assert(next[i] == prefix[i]);
        }
        if extra_s.contains(k) {
            assert(next[n] == next.last());
        }
    }
    assert(completed_sounds(next) =~= completed_sounds(prefix) + extra_s);
    let extra_b = match next.last() {
        JsToBevyEvent::BluetoothScanCompleted { request_id, .. } => set![request_id@],
        _ => Set::<Seq<char>>::empty(),
    };
    assert forall|k: Seq<char>| completed_scans(next).contains(k) <==> (completed_scans(prefix) + extra_b).contains(k) by {
        if completed_scans(next).contains(k) {
            let i = choose|i: int| 0 <= i < next.len() && match #[trigger] next[i] {
                JsToBevyEvent::BluetoothScanCompleted { request_id, .. } => request_id@ == k,
                _ => false,
            };
            if i < n {
                assert(next[i] == prefix[i]);
                assert(completed_scans(prefix).contains(k));
            }
        }
        if completed_scans(prefix).contains(k) {
            let i = choose|i: int| 0 <= i < prefix.len() && match #[trigger] prefix[i] {
                JsToBevyEvent::BluetoothScanCompleted { request_id, .. } => request_id@ == k,
                _ => false,
            };
            assert(next[i] == prefix[i]);
        }
        if extra_b.contains(k) {
            assert(next[n] == next.last());
        }
    }
    assert(completed_scans(next) =~= completed_scans(prefix) + extra_b);
}

} // verus!
