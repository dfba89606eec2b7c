use vstd::prelude::*;
use crate::backoff::{BackoffPolicy, ErrorRecord};
use crate::correlation::{CorrelationTable, PendingRequest};
use crate::events::SharedSettings;
use crate::gate::GestureGate;
use crate::keyed::KeyedList;
use crate::text::{append_decimal, decimal_of};

verus! {

/// The game situation a sound belongs to.
#[derive(Clone, Copy, Debug, PartialEq, Eq, Structural)]
pub enum AudioContext {
    Enter,
    Exit,
    UI,
    Critter,
    Ambient,
    Test,
}

/// Audio requests from the simulation to the host. Volumes are in
/// thousandths (1000 is full volume).
#[derive(Debug)]
pub enum AudioRequest {
    Play { request_id: String, sound_id: String, context: AudioContext, volume: u32, loop_audio: bool },
    /// `sound_id: None` stops every sound.
    Stop { request_id: String, sound_id: Option<String> },
    SetVolume { request_id: String, volume: u32 },
    Test { request_id: String, test_type: String },
}

/// Answers of the host to audio requests. Durations are in milliseconds,
/// volumes in thousandths.
#[derive(Debug)]
pub enum AudioResponse {
    PlayCompleted { request_id: String, success: bool, duration_ms: Option<u32>, error_message: Option<String> },
    Stopped { request_id: String, success: bool },
    VolumeChanged { request_id: String, new_volume: u32 },
    TestCompleted { request_id: String, result: String },
}

#[derive(Clone, Copy, Debug, PartialEq, Eq, Structural)]
pub enum AudioFormat {
    Mp3,
    Ogg,
    Wav,
    /// Left to the platform.
    Auto,
}

/// Failures of the audio service.
#[derive(Debug)]
pub enum AudioError {
    FileNotFound(String),
    PlaybackFailed(String),
    UnsupportedFormat(String),
    /// No user gesture has been seen yet.
    PermissionDenied,
    NetworkError(String),
}

/// A registered sound.
#[derive(Debug)]
pub struct AudioFileInfo {
    pub file_path: String,
    pub context: AudioContext,
    /// Thousandths.
    pub default_volume: u32,
    pub format: AudioFormat,
}

/// A sound that is playing.
#[derive(Debug)]
pub struct PlayingSound {
    pub sound_id: String,
    pub context: AudioContext,
    pub volume: u32,
    pub started_at: u64,
    pub is_looping: bool,
}

impl AudioRequest {
    pub open spec fn id_of(&self) -> String {
        match *self {
            AudioRequest::Play { request_id, .. } => request_id,
            AudioRequest::Stop { request_id, .. } => request_id,
            AudioRequest::SetVolume { request_id, .. } => request_id,
            AudioRequest::Test { request_id, .. } => request_id,
        }
    }

    /// The request's identifier.
    pub fn request_id(&self) -> (r: &String)
        ensures
            *r == self.id_of(),
    {
        match self {
            AudioRequest::Play { request_id, .. } => request_id,
            AudioRequest::Stop { request_id, .. } => request_id,
            AudioRequest::SetVolume { request_id, .. } => request_id,
            AudioRequest::Test { request_id, .. } => request_id,
        }
    }

    /// The sound a play request names.
    pub fn sound_id(&self) -> (r: Option<&String>)
        ensures
            match *self {
                AudioRequest::Play { sound_id, .. } => r == Some(&sound_id),
                _ => r.is_none(),
            },
    {
        match self {
            AudioRequest::Play { sound_id, .. } => Some(sound_id),
            _ => None,
        }
    }
}

/// The identifier of an audio request made at host time `now`.
pub open spec fn audio_request_id(now: u64) -> Seq<char> {
    "audio-"@ + decimal_of(now as nat)
}

/// The volume actually requested: `volume * global / 1000`, rounded down.
pub open spec fn effective_volume(volume: u32, global: u32) -> int {
    (volume as int * global as int) / 1000
}

/// State of the audio service: registered sounds, requests in flight, the
/// gesture gate, the global volume and the failure record.
pub struct AudioManager {
    pub playing_sounds: KeyedList<PlayingSound>,
    pub pending_requests: CorrelationTable<AudioRequest>,
    /// Thousandths, at most 1000.
    pub global_volume: u32,
    pub sound_registry: KeyedList<AudioFileInfo>,
    pub errors: ErrorRecord<AudioError>,
    /// Opened by the first user gesture; never closed by the manager.
    pub gate: GestureGate,
}

/// Whether the gesture lock of `m` is open.
pub open spec fn gesture_seen(m: AudioManager) -> bool {
    m.gate@
}

impl AudioManager {
    pub open spec fn wf(&self) -> bool {
        &&& self.playing_sounds.wf()
        &&& self.pending_requests.wf()
        &&& self.sound_registry.wf()
        &&& self.errors.wf()
        &&& self.global_volume <= 1000
    }

    /// Generates the identifier of a request made at host time `now`:
    /// `audio-` followed by `now` in decimal.
    pub fn generate_request_id(now: u64) -> (r: String)
        ensures
            r@ == audio_request_id(now),
    {
        let mut s = String::from_str("audio-");
        append_decimal(&mut s, now);
        s
    }

    /// Whether a user gesture has opened the gesture lock.
    pub fn gesture_enabled(&self) -> (r: bool)
        ensures
            r == gesture_seen(*self),
    {
        self.gate.is_open()
    }

    /// Opens the gesture lock after a user gesture.
    pub fn enable_audio_gesture(&mut self)
        requires
            old(self).wf(),
        ensures
            final(self).wf(),
            gesture_seen(*final(self)),
            final(self).pending_requests == old(self).pending_requests,
            final(self).sound_registry == old(self).sound_registry,
            final(self).errors == old(self).errors,
            final(self).global_volume == old(self).global_volume,
            final(self).playing_sounds == old(self).playing_sounds,
    {
        self.gate.open();
    }

    /// Records a failure of the audio service.
    pub fn handle_error(&mut self, error: AudioError)
        requires
            old(self).wf(),
        ensures
            final(self).wf(),
            gesture_seen(*final(self)) == gesture_seen(*old(self)),
            final(self).errors.policy == old(self).errors.policy,
            final(self).errors.last_error == Some(error),
            final(self).errors.error_count == if old(self).errors.error_count < u32::MAX {
                old(self).errors.error_count + 1
            } else {
                old(self).errors.error_count as int
            },
            final(self).pending_requests == old(self).pending_requests,
            final(self).sound_registry == old(self).sound_registry,
            final(self).global_volume == old(self).global_volume,
            final(self).playing_sounds == old(self).playing_sounds,
    {
        self.errors.record_error(error);
    }

    /// Hands a request to the host side. With the gesture lock locked it is
    /// refused with `PermissionDenied`: no entry is made and the failure
    /// record is left alone, since only failed answers count as failures.
    /// Otherwise it is filed under its identifier, dispatched at `now`.
    pub fn dispatch(&mut self, request: AudioRequest, now: u64) -> (r: Result<(), AudioError>)
        requires
            old(self).wf(),
        ensures
            final(self).wf(),
            gesture_seen(*final(self)) == gesture_seen(*old(self)),
            final(self).sound_registry == old(self).sound_registry,
            final(self).global_volume == old(self).global_volume,
            gesture_seen(*old(self)) ==> {
                &&& r is Ok
                &&& final(self).pending_requests@ == old(self).pending_requests@.insert(
                    request.id_of()@,
                    PendingRequest { request_id: request.id_of(), payload: request, submitted_at: now, retry_count: 0 },
                )
                &&& final(self).errors == old(self).errors
            },
            !gesture_seen(*old(self)) ==> {
                &&& r matches Err(AudioError::PermissionDenied)
                &&& final(self).pending_requests == old(self).pending_requests
            },
            final(self).errors == old(self).errors,
            final(self).playing_sounds == old(self).playing_sounds,
    {
        if !self.gate.is_open() {
            return Err(AudioError::PermissionDenied);
        }
        let id = request.request_id().clone();
        self.pending_requests.insert(id, request, now);
        Ok(())
    }
}

/// `e` is the entry of a play request for `sound_id`, registered as `info`,
/// at the requested or default volume scaled by `global`, made at `now`.
pub open spec fn play_entry(
    e: PendingRequest<AudioRequest>,
    id: Seq<char>,
    sound_id: Seq<char>,
    info: AudioFileInfo,
    volume: Option<u32>,
    global: u32,
    now: u64,
) -> bool {
    let v = match volume {
        Some(v) => v,
        None => info.default_volume,
    };
    &&& e.request_id@ == id
    &&& e.submitted_at == now
    &&& e.retry_count == 0
    &&& match e.payload {
        AudioRequest::Play { request_id, sound_id: s, context, volume, loop_audio } =>
            request_id@ == id && s@ == sound_id && context == info.context
                && volume == effective_volume(v, global) && !loop_audio,
        _ => false,
    }
}

/// The failure that a play completion reports: its message, or
/// `Unknown error` without one.
pub open spec fn playback_failure(message: Option<String>, e: AudioError) -> bool {
    match e {
        AudioError::PlaybackFailed(m) => match message {
            Some(t) => m@ == t@,
            None => m@ == "Unknown error"@,
        },
        _ => false,
    }
}

fn sound_info(path: &str, context: AudioContext, default_volume: u32, format: AudioFormat) -> (r: AudioFileInfo)
    ensures
        r.file_path@ == path@,
        r.context == context,
        r.default_volume == default_volume,
        r.format == format,
{
    AudioFileInfo { file_path: String::from_str(path), context, default_volume, format }
}

impl AudioManager {
    /// A manager with the standard game sounds registered (`enter_area`,
    /// `exit_area`, `yipee`, `button_click`), full global volume, the gesture lock
    /// locked, nothing in flight and no failure. The audio service has no
    /// backoff numbers of its own; its failure record uses the same defaults
    /// as the Bluetooth service.
    pub fn new() -> (r: AudioManager)
        ensures
            r.wf(),
            !gesture_seen(r),
            r.global_volume == 1000,
            r.pending_requests@ == Map::<Seq<char>, PendingRequest<AudioRequest>>::empty(),
            r.errors.error_count == 0,
            r.errors.last_error.is_none(),
            r.errors.policy == BackoffPolicy::bluetooth_spec(),
            r.sound_registry@.dom() == set!["enter_area"@, "exit_area"@, "yipee"@, "button_click"@],
            r.sound_registry@["enter_area"@].file_path@ == "assets/audio/ui/enter_chime.mp3"@,
            r.sound_registry@["enter_area"@].context == AudioContext::Enter,
            r.sound_registry@["enter_area"@].default_volume == 800,
            r.sound_registry@["enter_area"@].format == AudioFormat::Mp3,
            r.sound_registry@["exit_area"@].file_path@ == "assets/audio/ui/exit_chime.mp3"@,
            r.sound_registry@["exit_area"@].context == AudioContext::Exit,
            r.sound_registry@["exit_area"@].default_volume == 700,
            r.sound_registry@["exit_area"@].format == AudioFormat::Mp3,
            r.sound_registry@["yipee"@].file_path@ == "assets/audio/positive/yipee.ogg"@,
            r.sound_registry@["yipee"@].context == AudioContext::Test,
            r.sound_registry@["yipee"@].default_volume == 800,
            r.sound_registry@["yipee"@].format == AudioFormat::Auto,
            r.sound_registry@["button_click"@].file_path@ == "assets/audio/ui/click.mp3"@,
            r.sound_registry@["button_click"@].context == AudioContext::UI,
            r.sound_registry@["button_click"@].default_volume == 600,
            r.sound_registry@["button_click"@].format == AudioFormat::Mp3,
    {
        let mut sound_registry: KeyedList<AudioFileInfo> = KeyedList::new();
        sound_registry.insert(String::from_str("enter_area"),
            sound_info("assets/audio/ui/enter_chime.mp3", AudioContext::Enter, 800, AudioFormat::Mp3));
        sound_registry.insert(String::from_str("exit_area"),
            sound_info("assets/audio/ui/exit_chime.mp3", AudioContext::Exit, 700, AudioFormat::Mp3));
        sound_registry.insert(String::from_str("yipee"),
            sound_info("assets/audio/positive/yipee.ogg", AudioContext::Test, 800, AudioFormat::Auto));
        sound_registry.insert(String::from_str("button_click"),
            sound_info("assets/audio/ui/click.mp3", AudioContext::UI, 600, AudioFormat::Mp3));
        proof {
            reveal_strlit("enter_area");
            reveal_strlit("exit_area");
            reveal_strlit("yipee");
            reveal_strlit("button_click");
            assert("enter_area"@.len() == 10);
            assert("exit_area"@.len() == 9);
            assert("yipee"@.len() == 5);
            assert("button_click"@.len() == 12);
            assert("enter_area"@ != "exit_area"@);
            assert("enter_area"@ != "yipee"@);
            assert("enter_area"@ != "button_click"@);
            assert("exit_area"@ != "yipee"@);
            assert("exit_area"@ != "button_click"@);
            assert("yipee"@ != "button_click"@);
            assert(sound_registry@.dom() =~= set!["enter_area"@, "exit_area"@, "yipee"@, "button_click"@]);
        }
        AudioManager {
            playing_sounds: KeyedList::new(),
            pending_requests: CorrelationTable::new(),
            global_volume: 1000,
            sound_registry,
            errors: ErrorRecord::new(BackoffPolicy::bluetooth()),
            gate: GestureGate::new(),
        }
    }

    /// Requests a registered sound at `volume` (its default volume when
    /// `None`), scaled by the global volume, under a fresh identifier made
    /// from `now`; returns that identifier. An unknown sound is refused with
    /// `FileNotFound`, which is recorded as the last failure; a locked
    /// gesture lock refuses with `PermissionDenied` and records nothing.
    /// Neither makes an entry.
    pub fn play_sound(&mut self, sound_id: &String, volume: Option<u32>, now: u64) -> (r: Result<String, AudioError>)
        requires
            old(self).wf(),
        ensures
            final(self).wf(),
            gesture_seen(*final(self)) == gesture_seen(*old(self)),
            final(self).sound_registry == old(self).sound_registry,
            final(self).global_volume == old(self).global_volume,
            !old(self).sound_registry@.contains_key(sound_id@) ==> {
                &&& (match r {
                    Err(AudioError::FileNotFound(s)) => s@ == sound_id@,
                    _ => false,
                })
                &&& final(self).pending_requests == old(self).pending_requests
                &&& (match final(self).errors.last_error {
                    Some(AudioError::FileNotFound(s)) => s@ == sound_id@,
                    _ => false,
                })
                &&& final(self).errors.error_count == if old(self).errors.error_count < u32::MAX {
                    old(self).errors.error_count + 1
                } else {
                    old(self).errors.error_count as int
                }
            },
            old(self).sound_registry@.contains_key(sound_id@) && !gesture_seen(*old(self)) ==> {
                &&& r matches Err(AudioError::PermissionDenied)
                &&& final(self).pending_requests == old(self).pending_requests
                &&& final(self).errors == old(self).errors
            },
            final(self).errors.policy == old(self).errors.policy,
            final(self).playing_sounds == old(self).playing_sounds,
            old(self).sound_registry@.contains_key(sound_id@) && gesture_seen(*old(self)) ==> {
                &&& (match r {
                    Ok(id) => id@ == audio_request_id(now),
                    Err(_) => false,
                })
                &&& exists|e: PendingRequest<AudioRequest>|
                    final(self).pending_requests@ == old(self).pending_requests@.insert(audio_request_id(now), e)
                    && play_entry(e, audio_request_id(now), sound_id@, old(self).sound_registry@[sound_id@],
                        volume, old(self).global_volume, now)
                &&& final(self).errors == old(self).errors
            },
    {
        let request_id = Self::generate_request_id(now);
        let (context, default_volume) = match self.sound_registry.get(sound_id) {
            Some(info) => (info.context, info.default_volume),
            None => {
                self.handle_error(AudioError::FileNotFound(sound_id.clone()));
                return Err(AudioError::FileNotFound(sound_id.clone()));
            },
        };
        let v = match volume {
            Some(v) => v,
            None => default_volume,
        };
        proof {
            let g = self.global_volume as int;
            assert((v as int) * g <= (v as int) * 1000) by (nonlinear_arith)
                requires g <= 1000, v >= 0;
        }
        let scaled = (v as u64 * self.global_volume as u64) / 1000;
        let request = AudioRequest::Play {
            request_id: request_id.clone(),
            sound_id: sound_id.clone(),
            context,
            volume: scaled as u32,
            loop_audio: false,
        };
        let ghost req = request;
        match self.dispatch(request, now) {
            Ok(()) => {
                proof {
                    let e = PendingRequest { request_id: req.id_of(), payload: req, submitted_at: now, retry_count: 0 };
                    assert(play_entry(e, audio_request_id(now), sound_id@, old(self).sound_registry@[sound_id@],
                        volume, old(self).global_volume, now));
                }
                Ok(request_id)
            },
            Err(e) => Err(e),
        }
    }

    /// Requests the sound for entering an area at its default volume.
    pub fn play_enter_sound(&mut self, now: u64) -> (r: Result<String, AudioError>)
        requires
            old(self).wf(),
        ensures
            final(self).wf(),
            gesture_seen(*final(self)) == gesture_seen(*old(self)),
            old(self).sound_registry@.contains_key("enter_area"@) && gesture_seen(*old(self)) ==> {
                &&& (match r {
                    Ok(id) => id@ == audio_request_id(now),
                    Err(_) => false,
                })
                &&& exists|e: PendingRequest<AudioRequest>|
                    final(self).pending_requests@ == old(self).pending_requests@.insert(audio_request_id(now), e)
                    && play_entry(e, audio_request_id(now), "enter_area"@, old(self).sound_registry@["enter_area"@],
                        None, old(self).global_volume, now)
            },
            !gesture_seen(*old(self)) ==> r is Err && final(self).pending_requests == old(self).pending_requests,
    {
        let id = String::from_str("enter_area");
        self.play_sound(&id, None, now)
    }

    /// Requests the sound for leaving an area at its default volume.
    pub fn play_exit_sound(&mut self, now: u64) -> (r: Result<String, AudioError>)
        requires
            old(self).wf(),
        ensures
            final(self).wf(),
            gesture_seen(*final(self)) == gesture_seen(*old(self)),
            old(self).sound_registry@.contains_key("exit_area"@) && gesture_seen(*old(self)) ==> {
                &&& (match r {
                    Ok(id) => id@ == audio_request_id(now),
                    Err(_) => false,
                })
                &&& exists|e: PendingRequest<AudioRequest>|
                    final(self).pending_requests@ == old(self).pending_requests@.insert(audio_request_id(now), e)
                    && play_entry(e, audio_request_id(now), "exit_area"@, old(self).sound_registry@["exit_area"@],
                        None, old(self).global_volume, now)
            },
            !gesture_seen(*old(self)) ==> r is Err && final(self).pending_requests == old(self).pending_requests,
    {
        let id = String::from_str("exit_area");
        self.play_sound(&id, None, now)
    }

    /// Requests the test sound `yipee` at volume 0.8.
    pub fn test_audio(&mut self, now: u64) -> (r: Result<String, AudioError>)
        requires
            old(self).wf(),
        ensures
            final(self).wf(),
            gesture_seen(*final(self)) == gesture_seen(*old(self)),
            old(self).sound_registry@.contains_key("yipee"@) && gesture_seen(*old(self)) ==> {
                &&& (match r {
                    Ok(id) => id@ == audio_request_id(now),
                    Err(_) => false,
                })
                &&& exists|e: PendingRequest<AudioRequest>|
                    final(self).pending_requests@ == old(self).pending_requests@.insert(audio_request_id(now), e)
                    && play_entry(e, audio_request_id(now), "yipee"@, old(self).sound_registry@["yipee"@],
                        Some(800u32), old(self).global_volume, now)
            },
            !gesture_seen(*old(self)) ==> r is Err && final(self).pending_requests == old(self).pending_requests,
    {
        let id = String::from_str("yipee");
        self.play_sound(&id, Some(800), now)
    }

    /// Processes an answer of the host. The entry with its identifier, if
    /// any, is taken out; an unknown identifier changes no entry. A play
    /// completion for a known request ends the run of failures when it
    /// succeeded and records a `PlaybackFailed` when it did not. A volume
    /// change sets the global volume, at most 1000.
    pub fn handle_response(&mut self, response: AudioResponse)
        requires
            old(self).wf(),
        ensures
            final(self).wf(),
            gesture_seen(*final(self)) == gesture_seen(*old(self)),
            final(self).sound_registry == old(self).sound_registry,
            final(self).errors.policy == old(self).errors.policy,
            final(self).playing_sounds == old(self).playing_sounds,
            match response {
                AudioResponse::PlayCompleted { request_id, success, error_message, .. } => {
                    &&& final(self).pending_requests@ == old(self).pending_requests@.remove(request_id@)
                    &&& final(self).global_volume == old(self).global_volume
                    &&& if !old(self).pending_requests@.contains_key(request_id@) {
                        final(self).errors == old(self).errors
                    } else if success {
                        final(self).errors.error_count == 0
                    } else {
                        &&& final(self).errors.last_error matches Some(e) && playback_failure(error_message, e)
                        &&& final(self).errors.error_count == if old(self).errors.error_count < u32::MAX {
                            old(self).errors.error_count + 1
                        } else {
                            old(self).errors.error_count as int
                        }
                    }
                },
                AudioResponse::Stopped { request_id, .. } => {
                    &&& final(self).pending_requests@ == old(self).pending_requests@.remove(request_id@)
                    &&& final(self).global_volume == old(self).global_volume
                    &&& final(self).errors == old(self).errors
                },
                AudioResponse::VolumeChanged { request_id, new_volume } => {
                    &&& final(self).pending_requests@ == old(self).pending_requests@.remove(request_id@)
                    &&& final(self).global_volume == if new_volume <= 1000 { new_volume } else { 1000 }
                    &&& final(self).errors == old(self).errors
                },
                AudioResponse::TestCompleted { request_id, .. } => {
                    &&& final(self).pending_requests@ == old(self).pending_requests@.remove(request_id@)
                    &&& final(self).global_volume == old(self).global_volume
                    &&& final(self).errors == old(self).errors
                },
            },
    {
        match response {
            AudioResponse::PlayCompleted { request_id, success, error_message, .. } => {
                if let Some(_) = self.pending_requests.remove(&request_id) {
                    if success {
                        self.errors.record_success();
                    } else {
                        let message = match error_message {
                            Some(m) => m,
                            None => String::from_str("Unknown error"),
                        };
                        self.errors.record_error(AudioError::PlaybackFailed(message));
                    }
                }
            },
            AudioResponse::Stopped { request_id, .. } => {
                let _ = self.pending_requests.remove(&request_id);
            },
            AudioResponse::VolumeChanged { request_id, new_volume } => {
                let _ = self.pending_requests.remove(&request_id);
                self.global_volume = if new_volume <= 1000 { new_volume } else { 1000 };
            },
            AudioResponse::TestCompleted { request_id, .. } => {
                let _ = self.pending_requests.remove(&request_id);
            },
        }
    }

    /// Takes the effect volume of the host's settings as the global volume,
    /// at most 1000.
    pub fn apply_shared_settings(&mut self, settings: &SharedSettings)
        requires
            old(self).wf(),
        ensures
            final(self).wf(),
            gesture_seen(*final(self)) == gesture_seen(*old(self)),
            final(self).global_volume == if settings.sfx_volume <= 1000 { settings.sfx_volume } else { 1000 },
            final(self).pending_requests == old(self).pending_requests,
            final(self).errors == old(self).errors,
            final(self).sound_registry == old(self).sound_registry,
            final(self).playing_sounds == old(self).playing_sounds,
    {
        self.global_volume = if settings.sfx_volume <= 1000 { settings.sfx_volume } else { 1000 };
    }
}

/// `r` asks to play `sound_id` once, in `context`, at `volume`, under the
/// identifier made from `now`.
pub open spec fn play_request(r: AudioRequest, now: u64, sound_id: Seq<char>, context: AudioContext, volume: u32) -> bool {
    match r {
        AudioRequest::Play { request_id, sound_id: s, context: c, volume: v, loop_audio } =>
            request_id@ == audio_request_id(now) && s@ == sound_id && c == context && v == volume && !loop_audio,
        _ => false,
    }
}

/// The request for the sound of entering an area, at volume 0.8.
pub fn play_enter_sound(now: u64) -> (r: AudioRequest)
    ensures
        play_request(r, now, "enter_area"@, AudioContext::Enter, 800),
{
    AudioRequest::Play {
        request_id: AudioManager::generate_request_id(now),
        sound_id: String::from_str("enter_area"),
        context: AudioContext::Enter,
        volume: 800,
        loop_audio: false,
    }
}

/// The request for the sound of leaving an area, at volume 0.7.
pub fn play_exit_sound(now: u64) -> (r: AudioRequest)
    ensures
        play_request(r, now, "exit_area"@, AudioContext::Exit, 700),
{
    AudioRequest::Play {
        request_id: AudioManager::generate_request_id(now),
        sound_id: String::from_str("exit_area"),
        context: AudioContext::Exit,
        volume: 700,
        loop_audio: false,
    }
}

/// The request for the test sound `yipee`, at volume 0.8.
pub fn test_audio_system(now: u64) -> (r: AudioRequest)
    ensures
        play_request(r, now, "yipee"@, AudioContext::Test, 800),
{
    AudioRequest::Play {
        request_id: AudioManager::generate_request_id(now),
        sound_id: String::from_str("yipee"),
        context: AudioContext::Test,
        volume: 800,
        loop_audio: false,
    }
}

/// A sound request from the host page: `sound_id` in the test context at
/// `volume` (0.8 when not given), played once, under the identifier made
/// from `now`.
pub fn play_audio_native(sound_id: &str, volume: Option<u32>, now: u64) -> (r: AudioRequest)
    ensures
        play_request(r, now, sound_id@, AudioContext::Test, match volume {
            Some(v) => v,
            None => 800u32,
        }),
{
    let v = match volume {
        Some(v) => v,
        None => 800,
    };
    AudioRequest::Play {
        request_id: AudioManager::generate_request_id(now),
        sound_id: String::from_str(sound_id),
        context: AudioContext::Test,
        volume: v,
        loop_audio: false,
    }
}

} // verus!
