use vstd::prelude::*;
use crate::backoff::{
    BackoffPolicy, ErrorRecord, backoff_after, retry_advised, min_int, lemma_backoff_monotone,
    lemma_backoff_grows_until_cap,
};
use vstd::arithmetic::power2::{pow2, lemma2_to64};
use crate::device::{BluetoothLEDeviceType, DeviceId, DeviceInfo, SensorType, VirtualCommand, VirtualDevice, answer_of, info_copy};
use crate::keyed::KeyedList;
use crate::text::{contains_text, text_contains};

verus! {

/// Connection state of one device.
#[derive(Debug)]
pub enum BluetoothLEConnectionState {
    Disconnected,
    Connecting,
    Connected,
    Pairing,
    Paired,
    Error(String),
}

/// Failures of the Bluetooth service.
#[derive(Debug)]
pub enum BluetoothLEError {
    AdapterNotFound,
    DeviceNotFound { device_id: String },
    ConnectionFailed { reason: String },
    PairingFailed { reason: String },
    ServiceDiscoveryFailed,
    CommandTimeout { command: String },
    PlatformError { message: String },
}

/// Restricts which devices a scan reports.
#[derive(Debug)]
pub struct BluetoothLEDeviceFilter {
    pub device_types: Option<Vec<BluetoothLEDeviceType>>,
    pub min_rssi: Option<i16>,
    pub service_uuids: Option<Vec<String>>,
    pub manufacturer_ids: Option<Vec<u16>>,
    pub name_patterns: Option<Vec<String>>,
}

#[derive(Debug)]
pub enum TrainingMode {
    Positive,
    Correction,
    Alert,
    Silent,
}

/// Feeding times ("HH:MM") and portions in grams.
#[derive(Debug)]
pub struct FeedingSchedule {
    pub times: Vec<String>,
    pub portions: Vec<u32>,
}

#[derive(Debug)]
pub enum CollarCommand {
    Vibrate { intensity: u8, duration_ms: u32 },
    PlaySound { sound_id: u8, volume: u8 },
    SetTrainingMode { mode: TrainingMode },
    GetLocation,
    GetHealthMetrics,
}

#[derive(Debug)]
pub enum FeedingCommand {
    DispenseFood { amount_grams: u32 },
    GetFoodLevel,
    SetFeedingSchedule { schedule: FeedingSchedule },
    GetFeedingHistory,
}

#[derive(Debug)]
pub enum TrackerCommand {
    GetActivityData { start_time: u64, end_time: u64 },
    StartActivityTracking,
    StopActivityTracking,
    GetSensorData { sensor: SensorType },
    CalibrateDevice,
}

/// Commands of the device firmware protocol.
#[derive(Debug)]
pub enum ZephyrCommand {
    GetDeviceInfo,
    GetBatteryLevel,
    SetLEDState { r: u8, g: u8, b: u8 },
    Reboot,
    CollarCommands { command: CollarCommand },
    FeedingCommands { command: FeedingCommand },
    TrackerCommands { command: TrackerCommand },
    RawCommand { service_uuid: String, characteristic_uuid: String, data: Vec<u8> },
}

/// Answers of the device firmware protocol. Coordinates are in
/// ten-millionths of a degree, sensor values in thousandths of their unit.
#[derive(Debug)]
pub enum ZephyrResponse {
    DeviceInfo { firmware_version: String, hardware_version: String, serial_number: String },
    BatteryLevel { percentage: u8, voltage_mv: u16 },
    LocationData { latitude_e7: i64, longitude_e7: i64, accuracy_cm: u32 },
    SensorData { sensor: SensorType, values: Vec<i32>, timestamp: u64 },
    FoodLevel { current_grams: u32, capacity_grams: u32 },
    Success,
    Error { code: u16, message: String },
}

/// Requests from the simulation to the Bluetooth service.
pub enum BluetoothLERequest {
    StartScan { duration_ms: Option<u32>, device_filter: Option<BluetoothLEDeviceFilter> },
    StopScan,
    Connect { device_id: DeviceId },
    Disconnect { device_id: DeviceId },
    Pair { device_id: DeviceId, pin: Option<String> },
    SendCommand { device_id: DeviceId, command: ZephyrCommand, timeout_ms: Option<u32> },
    EnableVirtualNetwork,
    DisableVirtualNetwork,
    RegisterVirtualDevice { device: VirtualDevice },
    RemoveVirtualDevice { device_id: DeviceId },
    SimulateDeviceCommand { device_id: DeviceId, command: String },
}

/// What the Bluetooth service reports back.
pub enum BluetoothLEResponse {
    ScanStarted,
    ScanStopped,
    DeviceDiscovered { device: DeviceInfo },
    Connected { device_id: DeviceId },
    Disconnected { device_id: DeviceId, reason: Option<String> },
    Paired { device_id: DeviceId },
    PairingFailed { device_id: DeviceId, error: String },
    CommandResponse { device_id: DeviceId, command: ZephyrCommand, response: ZephyrResponse, latency_ms: u32 },
    CommandFailed { device_id: DeviceId, command: ZephyrCommand, error: String },
    VirtualNetworkEnabled,
    VirtualNetworkDisabled,
    VirtualDeviceRegistered { device_id: DeviceId },
    VirtualCommandExecuted { device_id: DeviceId, command: String, response: String },
    Error { error: BluetoothLEError },
}

/// The text a simulated device matches its handler patterns against: the
/// command's name, preceded by its group's name for grouped commands.
pub open spec fn command_text_of(c: ZephyrCommand) -> Seq<char> {
    match c {
        ZephyrCommand::GetDeviceInfo => "GetDeviceInfo"@,
        ZephyrCommand::GetBatteryLevel => "GetBatteryLevel"@,
        ZephyrCommand::SetLEDState { .. } => "SetLEDState"@,
        ZephyrCommand::Reboot => "Reboot"@,
        ZephyrCommand::CollarCommands { command } => "CollarCommands "@ + match command {
            CollarCommand::Vibrate { .. } => "Vibrate"@,
            CollarCommand::PlaySound { .. } => "PlaySound"@,
            CollarCommand::SetTrainingMode { .. } => "SetTrainingMode"@,
            CollarCommand::GetLocation => "GetLocation"@,
            CollarCommand::GetHealthMetrics => "GetHealthMetrics"@,
        },
        ZephyrCommand::FeedingCommands { command } => "FeedingCommands "@ + match command {
            FeedingCommand::DispenseFood { .. } => "DispenseFood"@,
            FeedingCommand::GetFoodLevel => "GetFoodLevel"@,
            FeedingCommand::SetFeedingSchedule { .. } => "SetFeedingSchedule"@,
            FeedingCommand::GetFeedingHistory => "GetFeedingHistory"@,
        },
        ZephyrCommand::TrackerCommands { command } => "TrackerCommands "@ + match command {
            TrackerCommand::GetActivityData { .. } => "GetActivityData"@,
            TrackerCommand::StartActivityTracking => "StartActivityTracking"@,
            TrackerCommand::StopActivityTracking => "StopActivityTracking"@,
            TrackerCommand::GetSensorData { .. } => "GetSensorData"@,
            TrackerCommand::CalibrateDevice => "CalibrateDevice"@,
        },
        ZephyrCommand::RawCommand { .. } => "RawCommand"@,
    }
}

impl ZephyrCommand {
    /// See `command_text_of`.
    pub fn command_text(&self) -> (r: String)
        ensures
            r@ == command_text_of(*self),
    {
        match self {
            ZephyrCommand::GetDeviceInfo => String::from_str("GetDeviceInfo"),
            ZephyrCommand::GetBatteryLevel => String::from_str("GetBatteryLevel"),
            ZephyrCommand::SetLEDState { .. } => String::from_str("SetLEDState"),
            ZephyrCommand::Reboot => String::from_str("Reboot"),
            ZephyrCommand::CollarCommands { command } => {
                let mut s = String::from_str("CollarCommands ");
                match command {
                    CollarCommand::Vibrate { .. } => s.append("Vibrate"),
                    CollarCommand::PlaySound { .. } => s.append("PlaySound"),
                    CollarCommand::SetTrainingMode { .. } => s.append("SetTrainingMode"),
                    CollarCommand::GetLocation => s.append("GetLocation"),
                    CollarCommand::GetHealthMetrics => s.append("GetHealthMetrics"),
                }
                s
            },
            ZephyrCommand::FeedingCommands { command } => {
                let mut s = String::from_str("FeedingCommands ");
                match command {
                    FeedingCommand::DispenseFood { .. } => s.append("DispenseFood"),
                    FeedingCommand::GetFoodLevel => s.append("GetFoodLevel"),
                    FeedingCommand::SetFeedingSchedule { .. } => s.append("SetFeedingSchedule"),
                    FeedingCommand::GetFeedingHistory => s.append("GetFeedingHistory"),
                }
                s
            },
            ZephyrCommand::TrackerCommands { command } => {
                let mut s = String::from_str("TrackerCommands ");
                match command {
                    TrackerCommand::GetActivityData { .. } => s.append("GetActivityData"),
                    TrackerCommand::StartActivityTracking => s.append("StartActivityTracking"),
                    TrackerCommand::StopActivityTracking => s.append("StopActivityTracking"),
                    TrackerCommand::GetSensorData { .. } => s.append("GetSensorData"),
                    TrackerCommand::CalibrateDevice => s.append("CalibrateDevice"),
                }
                s
            },
            ZephyrCommand::RawCommand { .. } => String::from_str("RawCommand"),
        }
    }
}

/// The firmware command a command text from the host page asks for: a
/// battery query when the text mentions `battery`, an identity query
/// otherwise.
pub fn command_from_text(text: &str) -> (r: ZephyrCommand)
    ensures
        text_contains(text@, "battery"@) ==> r is GetBatteryLevel,
        !text_contains(text@, "battery"@) ==> r is GetDeviceInfo,
{
    if contains_text(text, "battery") {
        ZephyrCommand::GetBatteryLevel
    } else {
        ZephyrCommand::GetDeviceInfo
    }
}

/// The firmware answer of a simulated device: a fixed battery reading, a
/// fixed identity record, or plain success.
pub fn simulated_response(c: &ZephyrCommand) -> (r: ZephyrResponse)
    ensures
        match *c {
            ZephyrCommand::GetBatteryLevel => r == ZephyrResponse::BatteryLevel { percentage: 85, voltage_mv: 3700 },
            ZephyrCommand::GetDeviceInfo => match r {
                ZephyrResponse::DeviceInfo { firmware_version, hardware_version, serial_number } =>
                    firmware_version@ == "1.0.0"@ && hardware_version@ == "v2.1"@ && serial_number@ == "VRT001"@,
                _ => false,
            },
            _ => r == ZephyrResponse::Success,
        },
{
    match c {
        ZephyrCommand::GetBatteryLevel => ZephyrResponse::BatteryLevel { percentage: 85, voltage_mv: 3700 },
        ZephyrCommand::GetDeviceInfo => ZephyrResponse::DeviceInfo {
            firmware_version: String::from_str("1.0.0"),
            hardware_version: String::from_str("v2.1"),
            serial_number: String::from_str("VRT001"),
        },
        _ => ZephyrResponse::Success,
    }
}

/// State of the Bluetooth service: scanning, known and connected devices,
/// the failure record, and the simulated device network.
pub struct BluetoothLEManager {
    pub scanning: bool,
    pub connected_devices: KeyedList<DeviceInfo>,
    pub discovered_devices: KeyedList<DeviceInfo>,
    pub connection_states: KeyedList<BluetoothLEConnectionState>,
    pub errors: ErrorRecord<BluetoothLEError>,
    pub virtual_network_enabled: bool,
    pub virtual_devices: KeyedList<VirtualDevice>,
    pub virtual_command_log: Vec<VirtualCommand>,
}

/// The answer of the simulated device `id` of `m` to `command`, or `None`
/// when no such device is registered.
pub open spec fn virtual_answer(m: BluetoothLEManager, id: Seq<char>, command: Seq<char>) -> Option<Seq<char>> {
    if m.virtual_devices@.contains_key(id) {
        Some(answer_of(m.virtual_devices@[id].command_handlers@, command))
    } else {
        None
    }
}

impl BluetoothLEManager {
    pub open spec fn wf(&self) -> bool {
        &&& self.connected_devices.wf()
        &&& self.discovered_devices.wf()
        &&& self.connection_states.wf()
        &&& self.errors.wf()
        &&& self.errors.policy == BackoffPolicy::bluetooth_spec()
        &&& self.virtual_devices.wf()
    }

    /// A service that is idle, has seen no device and no failure, with the
    /// simulated network off; it backs off as `BackoffPolicy::bluetooth`.
    pub fn new() -> (r: BluetoothLEManager)
        ensures
            r.wf(),
            !r.scanning,
            !r.virtual_network_enabled,
            r.connected_devices@ == Map::<Seq<char>, DeviceInfo>::empty(),
            r.discovered_devices@ == Map::<Seq<char>, DeviceInfo>::empty(),
            r.connection_states@ == Map::<Seq<char>, BluetoothLEConnectionState>::empty(),
            r.virtual_devices@ == Map::<Seq<char>, VirtualDevice>::empty(),
            r.virtual_devices.entries().len() == 0,
            r.virtual_command_log@.len() == 0,
            r.errors.policy == BackoffPolicy::bluetooth_spec(),
            r.errors.error_count == 0,
            r.errors.last_error.is_none(),
    {
        BluetoothLEManager {
            scanning: false,
            connected_devices: KeyedList::new(),
            discovered_devices: KeyedList::new(),
            connection_states: KeyedList::new(),
            errors: ErrorRecord::new(BackoffPolicy::bluetooth()),
            virtual_network_enabled: false,
            virtual_devices: KeyedList::new(),
            virtual_command_log: Vec::new(),
        }
    }

    /// Records a failure of the service and recomputes the backoff delay.
    pub fn handle_error(&mut self, error: BluetoothLEError)
        requires
            old(self).wf(),
        ensures
            final(self).wf(),
            final(self).errors.policy == old(self).errors.policy,
            final(self).errors.last_error == Some(error),
            final(self).errors.error_count == if old(self).errors.error_count < u32::MAX {
                old(self).errors.error_count + 1
            } else {
                old(self).errors.error_count as int
            },
            final(self).errors.backoff_ms == backoff_after(final(self).errors.policy, final(self).errors.error_count as nat),
            final(self).virtual_devices == old(self).virtual_devices,
            final(self).virtual_network_enabled == old(self).virtual_network_enabled,
            final(self).discovered_devices == old(self).discovered_devices,
    {
        self.errors.record_error(error);
    }

    /// Records a successful operation: the run of failures is over.
    pub fn handle_success(&mut self)
        requires
            old(self).wf(),
        ensures
            final(self).wf(),
            final(self).errors.policy == old(self).errors.policy,
            final(self).errors.error_count == 0,
            final(self).virtual_devices == old(self).virtual_devices,
    {
        self.errors.record_success();
    }

    /// Whether the policy advises retrying a failed operation now.
    pub fn should_retry(&self) -> (r: bool)
        ensures
            r == retry_advised(self.errors.policy, self.errors.error_count as nat, self.errors.backoff_ms as int),
    {
        self.errors.should_retry()
    }

    /// Adds a simulated device and publishes its scan record, so the next
    /// scan reports it. A device with the same identity is replaced.
    pub fn register_virtual_device(&mut self, device: VirtualDevice)
        requires
            old(self).wf(),
        ensures
            final(self).wf(),
            register_post(*old(self), *final(self), device),
    {
        let key = device.info.id.0.clone();
        let info = device.info.duplicate();
        let key2 = key.clone();
        self.virtual_devices.insert(key, device);
        self.discovered_devices.insert(key2, info);
    }

    /// Runs `command` on the simulated device `device_id`. The command is
    /// logged; the first handler, in declaration order, whose pattern occurs
    /// in it gives the answer, which is also written into the log entry;
    /// with no such handler the answer is `OK`. `None` when no simulated
    /// device has that identity; nothing is logged then.
    pub fn execute_virtual_command(&mut self, device_id: &DeviceId, command: &str, now: u64) -> (r: Option<String>)
        requires
            old(self).wf(),
        ensures
            final(self).wf(),
            execute_post(*old(self), *final(self), *device_id, command@, now, r),
    {
        match self.virtual_devices.get(&device_id.0) {
            Some(device) => {
                let (answer, matched) = device.answer(command);
                let response = if matched { Some(answer.clone()) } else { None };
                self.virtual_command_log.push(VirtualCommand {
                    timestamp: now,
                    device_id: device_id.clone(),
                    command: String::from_str(command),
                    response,
                });
                Some(answer)
            },
            None => None,
        }
    }
}

/// What running `command` on the simulated device `id` does (see
/// `BluetoothLEManager::execute_virtual_command`).
pub open spec fn execute_post(
    a: BluetoothLEManager,
    b: BluetoothLEManager,
    id: DeviceId,
    command: Seq<char>,
    now: u64,
    r: Option<String>,
) -> bool {
    &&& r.is_some() == a.virtual_devices@.contains_key(id.0@)
    &&& match r {
        Some(s) => Some(s@) == virtual_answer(a, id.0@, command),
        None => true,
    }
    &&& b.virtual_command_log@.len() == a.virtual_command_log@.len() + if r.is_some() { 1int } else { 0int }
    &&& forall|i: int| 0 <= i < a.virtual_command_log@.len() ==>
        #[trigger] b.virtual_command_log@[i] == a.virtual_command_log@[i]
    &&& r.is_some() ==> {
        let e = b.virtual_command_log@.last();
        &&& e.timestamp == now
        &&& e.device_id == id
        &&& e.command@ == command
        &&& e.response.is_some() == crate::device::first_match(a.virtual_devices@[id.0@].command_handlers@, command).is_some()
        &&& match e.response {
            Some(t) => Some(t@) == virtual_answer(a, id.0@, command),
            None => true,
        }
    }
    &&& b.virtual_devices == a.virtual_devices
    &&& b.discovered_devices == a.discovered_devices
    &&& b.connected_devices == a.connected_devices
    &&& b.connection_states == a.connection_states
    &&& b.virtual_network_enabled == a.virtual_network_enabled
    &&& b.scanning == a.scanning
    &&& b.errors == a.errors
}

/// A device command is sent. With the simulated network on, a registered
/// simulated device answers at once with a `CommandResponse` (50 ms latency);
/// otherwise the command is left to the host and nothing changes here.
pub open spec fn send_command_post(
    a: BluetoothLEManager,
    b: BluetoothLEManager,
    id: DeviceId,
    command: ZephyrCommand,
    now: u64,
    r: Seq<BluetoothLEResponse>,
) -> bool {
    if a.virtual_network_enabled {
        &&& (exists|o: Option<String>| execute_post(a, b, id, command_text_of(command), now, o))
        &&& if a.virtual_devices@.contains_key(id.0@) {
            &&& r.len() == 1
            &&& match r[0] {
                BluetoothLEResponse::CommandResponse { device_id, command: c, response, latency_ms } =>
                    device_id == id && c == command && latency_ms == 50 && simulated_response_post(command, response),
                _ => false,
            }
        } else {
            r.len() == 0
        }
    } else {
        b == a && r.len() == 0
    }
}

/// `r` is the firmware answer a simulated device gives to `c`.
pub open spec fn simulated_response_post(c: ZephyrCommand, r: ZephyrResponse) -> bool {
    match c {
        ZephyrCommand::GetBatteryLevel => r == ZephyrResponse::BatteryLevel { percentage: 85, voltage_mv: 3700 },
        ZephyrCommand::GetDeviceInfo => match r {
            ZephyrResponse::DeviceInfo { firmware_version, hardware_version, serial_number } =>
                firmware_version@ == "1.0.0"@ && hardware_version@ == "v2.1"@ && serial_number@ == "VRT001"@,
            _ => false,
        },
        _ => r == ZephyrResponse::Success,
    }
}

/// What handling `request` at `now` does (see
/// `BluetoothLEManager::handle_request`).
pub open spec fn request_post(
    a: BluetoothLEManager,
    b: BluetoothLEManager,
    request: BluetoothLERequest,
    now: u64,
    r: Seq<BluetoothLEResponse>,
) -> bool {
    match request {
        BluetoothLERequest::StartScan { .. } => start_scan_post(a, b, r),
        BluetoothLERequest::StopScan => stop_scan_post(a, b, r),
        BluetoothLERequest::Connect { device_id } => connect_post(a, b, device_id, r),
        BluetoothLERequest::SendCommand { device_id, command, .. } =>
            send_command_post(a, b, device_id, command, now, r),
        BluetoothLERequest::EnableVirtualNetwork => enable_virtual_post(a, b, r),
        BluetoothLERequest::RegisterVirtualDevice { device } => {
            &&& register_post(a, b, device)
            &&& r.len() == 1
            &&& match r[0] {
                BluetoothLEResponse::VirtualDeviceRegistered { device_id } => device_id == device.info.id,
                _ => false,
            }
        },
        BluetoothLERequest::RemoveVirtualDevice { device_id } => {
            remove_virtual_post(a, b, device_id) && r.len() == 0
        },
        BluetoothLERequest::SimulateDeviceCommand { device_id, command } => {
            &&& exists|o: Option<String>| execute_post(a, b, device_id, command@, now, o)
            &&& if a.virtual_devices@.contains_key(device_id.0@) {
                &&& r.len() == 1
                &&& match r[0] {
                    BluetoothLEResponse::VirtualCommandExecuted { device_id: d, command: c, response } =>
                        d == device_id && c == command
                            && Some(response@) == virtual_answer(a, device_id.0@, command@),
                    _ => false,
                }
            } else {
                r.len() == 0
            }
        },
        _ => b == a && r.len() == 0,
    }
}

/// A simulated device is registered and reported. A new device goes last
/// in the registry; one with a known identity takes the old one's place.
pub open spec fn register_post(a: BluetoothLEManager, b: BluetoothLEManager, device: VirtualDevice) -> bool {
    let k = device.info.id.0@;
    &&& b.virtual_devices@ == a.virtual_devices@.insert(k, device)
    &&& b.virtual_devices.entries() == if a.virtual_devices@.contains_key(k) {
        a.virtual_devices.entries().update(a.virtual_devices.index_of(k), (device.info.id.0, device))
    } else {
        a.virtual_devices.entries().push((device.info.id.0, device))
    }
    &&& exists|info: DeviceInfo| info_copy(device.info, info) && b.discovered_devices@ == a.discovered_devices@.insert(k, info)
    &&& b.connected_devices == a.connected_devices
    &&& b.connection_states == a.connection_states
    &&& b.virtual_command_log == a.virtual_command_log
    &&& b.virtual_network_enabled == a.virtual_network_enabled
    &&& b.scanning == a.scanning
    &&& b.errors == a.errors
}

/// A simulated device is taken out of the network.
pub open spec fn remove_virtual_post(a: BluetoothLEManager, b: BluetoothLEManager, id: DeviceId) -> bool {
    &&& b.virtual_devices@ == a.virtual_devices@.remove(id.0@)
    &&& b.virtual_network_enabled == a.virtual_network_enabled
    &&& b.scanning == a.scanning
    &&& b.errors == a.errors
    &&& b.discovered_devices == a.discovered_devices
    &&& b.connected_devices == a.connected_devices
    &&& b.connection_states == a.connection_states
}

impl BluetoothLEManager {
    /// Sends a firmware command; see `send_command_post`.
    pub fn send_command(&mut self, device_id: DeviceId, command: ZephyrCommand, now: u64) -> (r: Vec<BluetoothLEResponse>)
        requires
            old(self).wf(),
        ensures
            final(self).wf(),
            send_command_post(*old(self), *final(self), device_id, command, now, r@),
    {
        let mut r: Vec<BluetoothLEResponse> = Vec::new();
        if self.virtual_network_enabled {
            let text = command.command_text();
            let answer = self.execute_virtual_command(&device_id, text.as_str(), now);
            match answer {
                Some(_) => {
                    let response = simulated_response(&command);
                    r.push(BluetoothLEResponse::CommandResponse { device_id, command, response, latency_ms: 50 });
                },
                None => {},
            }
        }
        r
    }

    /// Takes a simulated device out of the network. Its scan record stays
    /// among the discovered devices.
    pub fn remove_virtual_device(&mut self, device_id: &DeviceId)
        requires
            old(self).wf(),
        ensures
            final(self).wf(),
            remove_virtual_post(*old(self), *final(self), *device_id),
    {
        let _ = self.virtual_devices.remove(&device_id.0);
    }

    /// Runs a raw command text on a simulated device and reports its answer;
    /// nothing is reported for an unknown device.
    pub fn simulate_device_command(&mut self, device_id: DeviceId, command: String, now: u64) -> (r: Vec<BluetoothLEResponse>)
        requires
            old(self).wf(),
        ensures
            final(self).wf(),
            exists|o: Option<String>| execute_post(*old(self), *final(self), device_id, command@, now, o),
            if old(self).virtual_devices@.contains_key(device_id.0@) {
                &&& r@.len() == 1
                &&& match r@[0] {
                    BluetoothLEResponse::VirtualCommandExecuted { device_id: d, command: c, response } =>
                        d == device_id && c == command
                            && Some(response@) == virtual_answer(*old(self), device_id.0@, command@),
                    _ => false,
                }
            } else {
                r@.len() == 0
            },
    {
        let mut r: Vec<BluetoothLEResponse> = Vec::new();
        let answer = self.execute_virtual_command(&device_id, command.as_str(), now);
        match answer {
            Some(response) => {
                r.push(BluetoothLEResponse::VirtualCommandExecuted { device_id, command, response });
            },
            None => {},
        }
        r
    }

    /// Handles one request of the simulation and returns what the service
    /// reports back right away. Disconnect, pairing and switching the
    /// simulated network off are left to the host: they change nothing here.
    pub fn handle_request(&mut self, request: BluetoothLERequest, now: u64) -> (r: Vec<BluetoothLEResponse>)
        requires
            old(self).wf(),
        ensures
            final(self).wf(),
            request_post(*old(self), *final(self), request, now, r@),
    {
        match request {
            BluetoothLERequest::StartScan { .. } => self.start_scan(),
            BluetoothLERequest::StopScan => self.stop_scan(),
            BluetoothLERequest::Connect { device_id } => self.connect(device_id),
            BluetoothLERequest::SendCommand { device_id, command, .. } => self.send_command(device_id, command, now),
            BluetoothLERequest::EnableVirtualNetwork => self.enable_virtual_network(),
            BluetoothLERequest::RegisterVirtualDevice { device } => {
                let device_id = device.info.id.clone();
                self.register_virtual_device(device);
                let mut r: Vec<BluetoothLEResponse> = Vec::new();
                r.push(BluetoothLEResponse::VirtualDeviceRegistered { device_id });
                r
            },
            BluetoothLERequest::RemoveVirtualDevice { device_id } => {
                self.remove_virtual_device(&device_id);
                Vec::new()
            },
            BluetoothLERequest::SimulateDeviceCommand { device_id, command } =>
                self.simulate_device_command(device_id, command, now),
            _ => Vec::new(),
        }
    }
}

impl BluetoothLEManager {
    /// Processes a report of the host about a real device. Connection
    /// reports set the device's state; a connection or pairing ends the run
    /// of failures; a failed pairing, a failed command or an error is
    /// recorded as a failure; a discovered device is published.
    pub fn handle_response(&mut self, response: BluetoothLEResponse)
        requires
            old(self).wf(),
        ensures
            final(self).wf(),
            final(self).virtual_devices == old(self).virtual_devices,
            final(self).virtual_network_enabled == old(self).virtual_network_enabled,
            final(self).virtual_command_log == old(self).virtual_command_log,
            final(self).scanning == old(self).scanning,
            final(self).errors.policy == old(self).errors.policy,
            match response {
                BluetoothLEResponse::Connected { device_id } => {
                    &&& final(self).connection_states@ == old(self).connection_states@.insert(
                        device_id.0@, BluetoothLEConnectionState::Connected)
                    &&& final(self).errors.error_count == 0
                    &&& final(self).errors.last_error == old(self).errors.last_error
                    &&& final(self).connected_devices == old(self).connected_devices
                    &&& final(self).discovered_devices == old(self).discovered_devices
                },
                BluetoothLEResponse::Paired { device_id } => {
                    &&& final(self).connection_states@ == old(self).connection_states@.insert(
                        device_id.0@, BluetoothLEConnectionState::Paired)
                    &&& final(self).errors.error_count == 0
                    &&& final(self).errors.last_error == old(self).errors.last_error
                    &&& final(self).connected_devices == old(self).connected_devices
                    &&& final(self).discovered_devices == old(self).discovered_devices
                },
                BluetoothLEResponse::Disconnected { device_id, .. } => {
                    &&& final(self).connection_states@ == old(self).connection_states@.insert(
                        device_id.0@, BluetoothLEConnectionState::Disconnected)
                    &&& final(self).connected_devices@ == old(self).connected_devices@.remove(device_id.0@)
                    &&& final(self).errors == old(self).errors
                    &&& final(self).discovered_devices == old(self).discovered_devices
                },
                BluetoothLEResponse::PairingFailed { device_id, error } => {
                    &&& final(self).connection_states@ == old(self).connection_states@.insert(
                        device_id.0@, BluetoothLEConnectionState::Error(error))
                    &&& (match final(self).errors.last_error {
                        Some(BluetoothLEError::PairingFailed { reason }) => reason@ == error@,
                        _ => false,
                    })
                    &&& final(self).errors.error_count == if old(self).errors.error_count < u32::MAX {
                        old(self).errors.error_count + 1
                    } else {
                        old(self).errors.error_count as int
                    }
                    &&& final(self).connected_devices == old(self).connected_devices
                    &&& final(self).discovered_devices == old(self).discovered_devices
                },
                BluetoothLEResponse::CommandFailed { command, .. } => {
                    &&& (match final(self).errors.last_error {
                        Some(BluetoothLEError::CommandTimeout { command: c }) => c@ == command_text_of(command),
                        _ => false,
                    })
                    &&& final(self).errors.error_count == if old(self).errors.error_count < u32::MAX {
                        old(self).errors.error_count + 1
                    } else {
                        old(self).errors.error_count as int
                    }
                    &&& final(self).connection_states == old(self).connection_states
                    &&& final(self).connected_devices == old(self).connected_devices
                    &&& final(self).discovered_devices == old(self).discovered_devices
                },
                BluetoothLEResponse::Error { error } => {
                    &&& final(self).errors.last_error == Some(error)
                    &&& final(self).errors.error_count == if old(self).errors.error_count < u32::MAX {
                        old(self).errors.error_count + 1
                    } else {
                        old(self).errors.error_count as int
                    }
                    &&& final(self).connection_states == old(self).connection_states
                    &&& final(self).connected_devices == old(self).connected_devices
                    &&& final(self).discovered_devices == old(self).discovered_devices
                },
                BluetoothLEResponse::DeviceDiscovered { device } => {
                    &&& final(self).discovered_devices@ == old(self).discovered_devices@.insert(device.id.0@, device)
                    &&& final(self).errors == old(self).errors
                    &&& final(self).connection_states == old(self).connection_states
                    &&& final(self).connected_devices == old(self).connected_devices
                },
                _ => *final(self) == *old(self),
            },
    {
        match response {
            BluetoothLEResponse::Connected { device_id } => {
                self.connection_states.insert(device_id.0, BluetoothLEConnectionState::Connected);
                self.errors.record_success();
            },
            BluetoothLEResponse::Paired { device_id } => {
                self.connection_states.insert(device_id.0, BluetoothLEConnectionState::Paired);
                self.errors.record_success();
            },
            BluetoothLEResponse::Disconnected { device_id, .. } => {
                let _ = self.connected_devices.remove(&device_id.0);
                self.connection_states.insert(device_id.0, BluetoothLEConnectionState::Disconnected);
            },
            BluetoothLEResponse::PairingFailed { device_id, error } => {
                let reason = error.clone();
                self.connection_states.insert(device_id.0, BluetoothLEConnectionState::Error(error));
                self.errors.record_error(BluetoothLEError::PairingFailed { reason });
            },
            BluetoothLEResponse::CommandFailed { command, .. } => {
                let text = command.command_text();
                self.errors.record_error(BluetoothLEError::CommandTimeout { command: text });
            },
            BluetoothLEResponse::Error { error } => {
                self.errors.record_error(error);
            },
            BluetoothLEResponse::DeviceDiscovered { device } => {
                let key = device.id.0.clone();
                self.discovered_devices.insert(key, device);
            },
            _ => {},
        }
    }
}

/// A simulated device answers a command the same way every time: running
/// the same command twice in a row on the same device gives the same answer,
/// whatever the time of each call.
pub proof fn lemma_execute_repeatable(
    a: BluetoothLEManager,
    b: BluetoothLEManager,
    c: BluetoothLEManager,
    id: DeviceId,
    command: Seq<char>,
    t1: u64,
    t2: u64,
    r1: Option<String>,
    r2: Option<String>,
)
    requires
        execute_post(a, b, id, command, t1, r1),
        execute_post(b, c, id, command, t2, r2),
    ensures
        r1.is_some() == r2.is_some(),
        match (r1, r2) {
            (Some(x), Some(y)) => x@ == y@ && Some(x@) == virtual_answer(a, id.0@, command),
            _ => true,
        },
{
}

/// The Bluetooth service's delay after `k` consecutive failures is
/// `min(100 ms * 2^min(k, 10), 30 s)`.
pub proof fn lemma_bluetooth_backoff(m: BluetoothLEManager)
    requires
        m.wf(),
    ensures
        m.errors.backoff_ms == min_int(100 * pow2(min_int(m.errors.error_count as int, 10) as nat) as int, 30_000int),
{
}

/// The Bluetooth service's delay never shrinks as failures accumulate, never
/// exceeds 30 s, and grows strictly with every failure up to the eighth.
pub proof fn lemma_bluetooth_backoff_growth(a: BluetoothLEManager, b: BluetoothLEManager)
    requires
        a.wf(),
        b.wf(),
        a.errors.error_count <= b.errors.error_count,
    ensures
        a.errors.backoff_ms <= b.errors.backoff_ms <= 30_000,
        b.errors.error_count <= 8 && a.errors.error_count < b.errors.error_count ==>
            a.errors.backoff_ms < b.errors.backoff_ms,
{
    let p = BackoffPolicy::bluetooth_spec();
    lemma_backoff_monotone(p, a.errors.error_count as nat, b.errors.error_count as nat);
    if b.errors.error_count <= 8 && a.errors.error_count < b.errors.error_count {
        lemma2_to64();
        let k = b.errors.error_count as nat;
        if k < 8 {
            vstd::arithmetic::power2::lemma_pow2_strictly_increases(k, 8);
        }
        assert(pow2(k) <= 256);
        assert(100 * pow2(k) <= 30_000);
        lemma_backoff_grows_until_cap(p, a.errors.error_count as nat, k);
    }
}

/// A command that no handler's pattern occurs in is answered `OK`.
pub proof fn lemma_unmatched_answer_is_ok(hs: Seq<crate::device::VirtualCommandHandler>, command: Seq<char>)
    requires
        forall|j: int| 0 <= j < hs.len() ==> !crate::device::handler_matches(#[trigger] hs[j], command),
    ensures
        answer_of(hs, command) == "OK"@,
{
    crate::device::lemma_first_match(hs, command);
    if let Some(i) = crate::device::first_match(hs, command) {
        assert(crate::device::handler_matches(hs[i], command));
    }
}

/// Everything but the scan flag is as it was.
pub open spec fn same_but_scanning(a: BluetoothLEManager, b: BluetoothLEManager) -> bool {
    &&& b.connected_devices == a.connected_devices
    &&& b.discovered_devices == a.discovered_devices
    &&& b.connection_states == a.connection_states
    &&& b.errors == a.errors
    &&& b.virtual_network_enabled == a.virtual_network_enabled
    &&& b.virtual_devices == a.virtual_devices
    &&& b.virtual_command_log == a.virtual_command_log
}

/// A scan starts: `ScanStarted`, then, with the simulated network on, one
/// `DeviceDiscovered` per simulated device in registration order.
pub open spec fn start_scan_post(a: BluetoothLEManager, b: BluetoothLEManager, r: Seq<BluetoothLEResponse>) -> bool {
    let vs = a.virtual_devices.entries();
    &&& b.scanning
    &&& same_but_scanning(a, b)
    &&& r.len() == 1 + if a.virtual_network_enabled { vs.len() as int } else { 0int }
    &&& r[0] is ScanStarted
    &&& a.virtual_network_enabled ==> forall|i: int| 0 <= i < vs.len() ==> match #[trigger] r[i + 1] {
        BluetoothLEResponse::DeviceDiscovered { device } => info_copy(vs[i].1.info, device),
        _ => false,
    }
}

/// A scan stops.
pub open spec fn stop_scan_post(a: BluetoothLEManager, b: BluetoothLEManager, r: Seq<BluetoothLEResponse>) -> bool {
    &&& !b.scanning
    &&& same_but_scanning(a, b)
    &&& r.len() == 1
    &&& r[0] is ScanStopped
}

/// A connection is requested. A registered simulated device, with the
/// network on, connects at once; any other device stays `Connecting` until
/// the host reports back.
pub open spec fn connect_post(a: BluetoothLEManager, b: BluetoothLEManager, id: DeviceId, r: Seq<BluetoothLEResponse>) -> bool {
    let k = id.0@;
    let instant = a.virtual_network_enabled && a.virtual_devices@.contains_key(k);
    &&& b.scanning == a.scanning
    &&& b.discovered_devices == a.discovered_devices
    &&& b.errors == a.errors
    &&& b.virtual_network_enabled == a.virtual_network_enabled
    &&& b.virtual_devices == a.virtual_devices
    &&& b.virtual_command_log == a.virtual_command_log
    &&& b.connection_states@.contains_key(k)
    &&& b.connection_states@.dom() == a.connection_states@.dom().insert(k)
    &&& if instant {
        &&& b.connection_states@[k] is Connected
        &&& b.connected_devices@.contains_key(k)
        &&& info_copy(a.virtual_devices@[k].info, b.connected_devices@[k])
        &&& b.connected_devices@.dom() == a.connected_devices@.dom().insert(k)
        &&& r.len() == 1
        &&& (match r[0] {
            BluetoothLEResponse::Connected { device_id } => device_id == id,
            _ => false,
        })
    } else {
        &&& b.connection_states@[k] is Connecting
        &&& b.connected_devices == a.connected_devices
        &&& r.len() == 0
    }
}

/// The simulated network is switched on.
pub open spec fn enable_virtual_post(a: BluetoothLEManager, b: BluetoothLEManager, r: Seq<BluetoothLEResponse>) -> bool {
    &&& b.virtual_network_enabled
    &&& b.scanning == a.scanning
    &&& b.connected_devices == a.connected_devices
    &&& b.discovered_devices == a.discovered_devices
    &&& b.connection_states == a.connection_states
    &&& b.errors == a.errors
    &&& b.virtual_devices == a.virtual_devices
    &&& b.virtual_command_log == a.virtual_command_log
    &&& r.len() == 1
    &&& r[0] is VirtualNetworkEnabled
}

impl BluetoothLEManager {
    /// Starts a scan; see `start_scan_post`.
    pub fn start_scan(&mut self) -> (r: Vec<BluetoothLEResponse>)
        requires
            old(self).wf(),
        ensures
            final(self).wf(),
            start_scan_post(*old(self), *final(self), r@),
    {
        self.scanning = true;
        let mut r: Vec<BluetoothLEResponse> = Vec::new();
        r.push(BluetoothLEResponse::ScanStarted);
        if self.virtual_network_enabled {
            let n = self.virtual_devices.len();
            let mut i: usize = 0;
            while i < n
                invariant
                    n == self.virtual_devices.entries().len(),
                    i <= n,
                    r@.len() == 1 + i,
                    r@[0] is ScanStarted,
                    forall|j: int| 0 <= j < i ==> match #[trigger] r@[j + 1] {
                        BluetoothLEResponse::DeviceDiscovered { device } => info_copy(self.virtual_devices.entries()[j].1.info, device),
                        _ => false,
                    },
                decreases n - i,
            {
                let (_, device) = self.virtual_devices.entry_at(i);
                let info = device.info.duplicate();
                r.push(BluetoothLEResponse::DeviceDiscovered { device: info });
                assert(r@[i + 1] == r@.last());
                i = i + 1;
            }
        }
        r
    }

    /// Stops a scan.
    pub fn stop_scan(&mut self) -> (r: Vec<BluetoothLEResponse>)
        requires
            old(self).wf(),
        ensures
            final(self).wf(),
            stop_scan_post(*old(self), *final(self), r@),
    {
        self.scanning = false;
        let mut r: Vec<BluetoothLEResponse> = Vec::new();
        r.push(BluetoothLEResponse::ScanStopped);
        r
    }

    /// Requests a connection; see `connect_post`.
    pub fn connect(&mut self, device_id: DeviceId) -> (r: Vec<BluetoothLEResponse>)
        requires
            old(self).wf(),
        ensures
            final(self).wf(),
            connect_post(*old(self), *final(self), device_id, r@),
    {
        let mut r: Vec<BluetoothLEResponse> = Vec::new();
        let key = device_id.0.clone();
        let instant = self.virtual_network_enabled && self.virtual_devices.contains_key(&key);
        if instant {
            self.connection_states.insert(key.clone(), BluetoothLEConnectionState::Connected);
            let info = match self.virtual_devices.get(&key) {
                Some(d) => d.info.duplicate(),
                None => { proof { assert(false); } return r; },
            };
            self.connected_devices.insert(key, info);
            r.push(BluetoothLEResponse::Connected { device_id });
        } else {
            self.connection_states.insert(key, BluetoothLEConnectionState::Connecting);
        }
        proof {
            assert(self.connection_states@.dom() =~= old(self).connection_states@.dom().insert(device_id.0@));
            if instant {
                assert(self.connected_devices@.dom() =~= old(self).connected_devices@.dom().insert(device_id.0@));
            }
        }
        r
    }

    /// Switches the simulated network on.
    pub fn enable_virtual_network(&mut self) -> (r: Vec<BluetoothLEResponse>)
        requires
            old(self).wf(),
        ensures
            final(self).wf(),
            enable_virtual_post(*old(self), *final(self), r@),
    {
        self.virtual_network_enabled = true;
        let mut r: Vec<BluetoothLEResponse> = Vec::new();
        r.push(BluetoothLEResponse::VirtualNetworkEnabled);
        r
    }
}

} // verus!
