use vstd::prelude::*;
use crate::keyed::KeyedList;

verus! {

/// Declares `serde_json::Value`, so that a simulated device can keep
/// free-form JSON values in its state map. Nothing here looks inside one.
#[verifier::external_type_specification]
#[verifier::external_body]
pub struct ExJsonValue(serde_json::Value);

/// Identity of a Bluetooth LE device.
#[derive(Debug)]
pub struct DeviceId(pub String);

impl Clone for DeviceId {
    fn clone(&self) -> (r: Self)
        ensures
            r == *self,
    {
        DeviceId(self.0.clone())
    }
}

#[derive(Clone, Copy, Debug, PartialEq, Eq, Structural)]
pub enum CollarType {
    TrainingCollar,
    GPSCollar,
    HealthMonitor,
    SmartTag,
}

#[derive(Clone, Copy, Debug, PartialEq, Eq, Structural)]
pub enum SensorType {
    Accelerometer,
    Gyroscope,
    HeartRate,
    Temperature,
    GPS,
    Microphone,
}

/// What kind of device a peripheral is.
#[derive(Debug)]
pub enum BluetoothLEDeviceType {
    SmartCollar { collar_type: CollarType },
    FeedingStation { capacity_ml: u32 },
    ToyDispenser { toy_count: u8 },
    ActivityTracker { sensors: Vec<SensorType> },
    VirtualDevice { emulated_type: Box<BluetoothLEDeviceType> },
    TestDevice { device_name: String },
    Unknown { service_uuid: String },
}

/// `b` is a copy of `a`: the same variant with equal fields; lists and
/// texts have the same contents.
pub open spec fn type_copy(a: BluetoothLEDeviceType, b: BluetoothLEDeviceType) -> bool
    decreases a,
{
    match (a, b) {
        (BluetoothLEDeviceType::SmartCollar { collar_type: x }, BluetoothLEDeviceType::SmartCollar { collar_type: y }) => x == y,
        (BluetoothLEDeviceType::FeedingStation { capacity_ml: x }, BluetoothLEDeviceType::FeedingStation { capacity_ml: y }) => x == y,
        (BluetoothLEDeviceType::ToyDispenser { toy_count: x }, BluetoothLEDeviceType::ToyDispenser { toy_count: y }) => x == y,
        (BluetoothLEDeviceType::ActivityTracker { sensors: x }, BluetoothLEDeviceType::ActivityTracker { sensors: y }) => x@ == y@,
        (BluetoothLEDeviceType::VirtualDevice { emulated_type: x }, BluetoothLEDeviceType::VirtualDevice { emulated_type: y }) =>
            type_copy(*x, *y),
        (BluetoothLEDeviceType::TestDevice { device_name: x }, BluetoothLEDeviceType::TestDevice { device_name: y }) => x@ == y@,
        (BluetoothLEDeviceType::Unknown { service_uuid: x }, BluetoothLEDeviceType::Unknown { service_uuid: y }) => x@ == y@,
        _ => false,
    }
}

fn copy_sensors(v: &Vec<SensorType>) -> (r: Vec<SensorType>)
    ensures
        r@ == v@,
{
    let mut r: Vec<SensorType> = Vec::new();
    let mut i: usize = 0;
    while i < v.len()
        invariant
            i <= v@.len(),
            r@ == v@.subrange(0, i as int),
        decreases v@.len() - i,
    {
        r.push(v[i]);
        i = i + 1;
        assert(r@ =~= v@.subrange(0, i as int));
    }
    assert(r@ =~= v@);
    r
}

impl BluetoothLEDeviceType {
    /// A copy of this value (see `type_copy`).
    pub fn duplicate(&self) -> (r: BluetoothLEDeviceType)
        ensures
            type_copy(*self, r),
        decreases self,
    {
        match self {
            BluetoothLEDeviceType::SmartCollar { collar_type } => BluetoothLEDeviceType::SmartCollar { collar_type: *collar_type },
            BluetoothLEDeviceType::FeedingStation { capacity_ml } => BluetoothLEDeviceType::FeedingStation { capacity_ml: *capacity_ml },
            BluetoothLEDeviceType::ToyDispenser { toy_count } => BluetoothLEDeviceType::ToyDispenser { toy_count: *toy_count },
            BluetoothLEDeviceType::ActivityTracker { sensors } => BluetoothLEDeviceType::ActivityTracker { sensors: copy_sensors(sensors) },
            BluetoothLEDeviceType::VirtualDevice { emulated_type } => {
                let inner = (**emulated_type).duplicate();
                BluetoothLEDeviceType::VirtualDevice { emulated_type: Box::new(inner) }
            },
            BluetoothLEDeviceType::TestDevice { device_name } => BluetoothLEDeviceType::TestDevice { device_name: device_name.clone() },
            BluetoothLEDeviceType::Unknown { service_uuid } => BluetoothLEDeviceType::Unknown { service_uuid: service_uuid.clone() },
        }
    }
}

impl Clone for BluetoothLEDeviceType {
    fn clone(&self) -> (r: Self)
        ensures
            type_copy(*self, r),
    {
        self.duplicate()
    }
}

/// What a scan reports of a device.
#[derive(Debug)]
pub struct DeviceInfo {
    pub id: DeviceId,
    pub name: String,
    pub device_type: BluetoothLEDeviceType,
    pub rssi: i16,
    pub services: Vec<String>,
    pub manufacturer_data: Option<String>,
    pub is_connected: bool,
    /// When the device was last seen, host clock in milliseconds.
    pub last_seen: Option<u64>,
    pub battery_level: Option<u8>,
}

/// `b` is a copy of `a`: every field is equal, and the services list and
/// the device type have the same contents.
pub open spec fn info_copy(a: DeviceInfo, b: DeviceInfo) -> bool {
    &&& b.id == a.id
    &&& b.name == a.name
    &&& type_copy(a.device_type, b.device_type)
    &&& b.rssi == a.rssi
    &&& b.services@ == a.services@
    &&& b.manufacturer_data == a.manufacturer_data
    &&& b.is_connected == a.is_connected
    &&& b.last_seen == a.last_seen
    &&& b.battery_level == a.battery_level
}

fn copy_strings(v: &Vec<String>) -> (r: Vec<String>)
    ensures
        r@ == v@,
{
    let mut r: Vec<String> = Vec::new();
    let mut i: usize = 0;
    while i < v.len()
        invariant
            i <= v@.len(),
            r@ == v@.subrange(0, i as int),
        decreases v@.len() - i,
    {
        r.push(v[i].clone());
        i = i + 1;
        assert(r@ =~= v@.subrange(0, i as int));
    }
    assert(r@ =~= v@);
    r
}

impl DeviceInfo {
    /// A copy of this record (see `info_copy`).
    pub fn duplicate(&self) -> (r: DeviceInfo)
        ensures
            info_copy(*self, r),
    {
        let manufacturer_data = match &self.manufacturer_data {
            Some(m) => Some(m.clone()),
            None => None,
        };
        DeviceInfo {
            id: self.id.clone(),
            name: self.name.clone(),
            device_type: self.device_type.duplicate(),
            rssi: self.rssi,
            services: copy_strings(&self.services),
            manufacturer_data,
            is_connected: self.is_connected,
            last_seen: self.last_seen,
            battery_level: self.battery_level,
        }
    }
}

/// A canned answer of a simulated device: any command that contains
/// `command_pattern` is answered with `response_template`.
#[derive(Debug)]
pub struct VirtualCommandHandler {
    pub command_pattern: String,
    pub response_template: String,
    /// Declared answer latency; recorded, not applied.
    pub delay_ms: u64,
}

/// A simulated peripheral: its scan record, its handlers in declaration
/// order, and a free-form state map.
pub struct VirtualDevice {
    pub info: DeviceInfo,
    pub command_handlers: Vec<VirtualCommandHandler>,
    pub state: KeyedList<serde_json::Value>,
    pub auto_responses: bool,
}

/// One command sent to a simulated device, with the handler's answer when
/// one matched.
#[derive(Debug)]
pub struct VirtualCommand {
    /// Host clock in milliseconds.
    pub timestamp: u64,
    pub device_id: DeviceId,
    pub command: String,
    pub response: Option<String>,
}

/// Whether handler `h` answers `command`.
pub open spec fn handler_matches(h: VirtualCommandHandler, command: Seq<char>) -> bool {
    crate::text::text_contains(command, h.command_pattern@)
}

/// The position of the first handler of `hs` that answers `command`.
pub open spec fn first_match(hs: Seq<VirtualCommandHandler>, command: Seq<char>) -> Option<int>
    decreases hs.len(),
{
    if hs.len() == 0 {
        None
    } else if handler_matches(hs[0], command) {
        Some(0)
    } else {
        match first_match(hs.drop_first(), command) {
            Some(i) => Some(i + 1),
            None => None,
        }
    }
}

/// The answer text of a simulated device with handlers `hs`: the template of
/// the first matching handler, else `OK`.
pub open spec fn answer_of(hs: Seq<VirtualCommandHandler>, command: Seq<char>) -> Seq<char> {
    match first_match(hs, command) {
        Some(i) => hs[i].response_template@,
        None => "OK"@,
    }
}

/// What `first_match` means: the handler it picks matches, and none before it does.
pub proof fn lemma_first_match(hs: Seq<VirtualCommandHandler>, command: Seq<char>)
    ensures
        match first_match(hs, command) {
            Some(i) => 0 <= i < hs.len() && handler_matches(hs[i], command)
                && forall|j: int| 0 <= j < i ==> !handler_matches(#[trigger] hs[j], command),
            None => forall|j: int| 0 <= j < hs.len() ==> !handler_matches(#[trigger] hs[j], command),
        },
    decreases hs.len(),
{
    if hs.len() > 0 && !handler_matches(hs[0], command) {
        let t = hs.drop_first();
        lemma_first_match(t, command);
        match first_match(t, command) {
            Some(i) => {
                assert forall|j: int| 0 <= j < i + 1 implies !handler_matches(#[trigger] hs[j], command) by {
                    if j > 0 {
                        assert(hs[j] == t[j - 1]);
                    }
                }
            },
            None => {
                assert forall|j: int| 0 <= j < hs.len() implies !handler_matches(#[trigger] hs[j], command) by {
                    if j > 0 {
                        assert(hs[j] == t[j - 1]);
                    }
                }
            },
        }
    }
}

impl VirtualDevice {
    /// The answer to `command`: the first handler, in declaration order,
    /// whose pattern occurs in the command; `OK` when none does.
    pub fn answer(&self, command: &str) -> (r: (String, bool))
        ensures
            r.0@ == answer_of(self.command_handlers@, command@),
            r.1 == first_match(self.command_handlers@, command@).is_some(),
    {
        let hs = &self.command_handlers;
        let mut i: usize = 0;
        assert(hs@.subrange(0, hs@.len() as int) =~= hs@);
        while i < hs.len()
            invariant
                hs@ == self.command_handlers@,
                i <= hs@.len(),
                first_match(hs@, command@) == match first_match(hs@.subrange(i as int, hs@.len() as int), command@) {
                    Some(k) => Some(k + i),
                    None => None::<int>,
                },
            decreases hs@.len() - i,
        {
            let ghost rest = hs@.subrange(i as int, hs@.len() as int);
            assert(rest[0] == hs@[i as int]);
            if crate::text::contains_text(command, hs[i].command_pattern.as_str()) {
                assert(first_match(rest, command@) == Some(0int));
                assert(first_match(hs@, command@) == Some(i as int));
                return (hs[i].response_template.clone(), true);
            }
            assert(rest.drop_first() =~= hs@.subrange(i + 1, hs@.len() as int));
            i = i + 1;
        }
        assert(hs@.subrange(i as int, hs@.len() as int).len() == 0);
        (String::from_str("OK"), false)
    }
}

fn handler(pattern: &str, template: &str, delay_ms: u64) -> (r: VirtualCommandHandler)
    ensures
        r.command_pattern@ == pattern@,
        r.response_template@ == template@,
        r.delay_ms == delay_ms,
{
    VirtualCommandHandler {
        command_pattern: String::from_str(pattern),
        response_template: String::from_str(template),
        delay_ms,
    }
}

fn one_string(s: &str) -> (r: Vec<String>)
    ensures
        r@.len() == 1,
        r@[0]@ == s@,
{
    let mut r: Vec<String> = Vec::new();
    r.push(String::from_str(s));
    r
}

/// The two simulated devices used for manual and integration testing: a
/// training collar `virtual_collar_001` (battery and vibration handlers) and
/// a feeding station `virtual_feeder_001` (food level and dispensing
/// handlers), both last seen at `now`.
pub fn create_test_virtual_devices(now: u64) -> (r: Vec<VirtualDevice>)
    ensures
        r@.len() == 2,
        r@[0].info.id.0@ == "virtual_collar_001"@,
        r@[0].info.name@ == "Test Smart Collar"@,
        r@[0].info.rssi == -45,
        r@[0].info.battery_level == Some(85u8),
        r@[0].info.last_seen == Some(now),
        !r@[0].info.is_connected,
        r@[0].auto_responses,
        r@[0].command_handlers@.len() == 2,
        r@[0].command_handlers@[0].command_pattern@ == "GetBatteryLevel"@,
        r@[0].command_handlers@[0].response_template@ == "85%"@,
        r@[0].command_handlers@[1].command_pattern@ == "Vibrate"@,
        r@[0].command_handlers@[1].response_template@ == "Vibrating"@,
        r@[1].info.id.0@ == "virtual_feeder_001"@,
        r@[1].info.name@ == "Test Feeding Station"@,
        r@[1].info.rssi == -38,
        r@[1].info.battery_level == Some(92u8),
        r@[1].info.last_seen == Some(now),
        !r@[1].info.is_connected,
        r@[1].auto_responses,
        r@[1].command_handlers@.len() == 2,
        r@[1].command_handlers@[0].command_pattern@ == "GetFoodLevel"@,
        r@[1].command_handlers@[0].response_template@ == "1200g/2000g"@,
        r@[1].command_handlers@[1].command_pattern@ == "DispenseFood"@,
        r@[1].command_handlers@[1].response_template@ == "Food dispensed"@,
{
    let mut collar_handlers: Vec<VirtualCommandHandler> = Vec::new();
    collar_handlers.push(handler("GetBatteryLevel", "85%", 100));
    collar_handlers.push(handler("Vibrate", "Vibrating", 50));
    let collar = VirtualDevice {
        info: DeviceInfo {
            id: DeviceId(String::from_str("virtual_collar_001")),
            name: String::from_str("Test Smart Collar"),
            device_type: BluetoothLEDeviceType::SmartCollar { collar_type: CollarType::TrainingCollar },
            rssi: -45,
            services: one_string("uuid_collar_service"),
            manufacturer_data: Some(String::from_str("ZephyrCollar_v2.1")),
            is_connected: false,
            last_seen: Some(now),
            battery_level: Some(85),
        },
        command_handlers: collar_handlers,
        state: KeyedList::new(),
        auto_responses: true,
    };
    let mut feeder_handlers: Vec<VirtualCommandHandler> = Vec::new();
    feeder_handlers.push(handler("GetFoodLevel", "1200g/2000g", 75));
    feeder_handlers.push(handler("DispenseFood", "Food dispensed", 200));
    let feeder = VirtualDevice {
        info: DeviceInfo {
            id: DeviceId(String::from_str("virtual_feeder_001")),
            name: String::from_str("Test Feeding Station"),
            device_type: BluetoothLEDeviceType::FeedingStation { capacity_ml: 2000 },
            rssi: -38,
            services: one_string("uuid_feeder_service"),
            manufacturer_data: Some(String::from_str("ZephyrFeeder_v1.5")),
            is_connected: false,
            last_seen: Some(now),
            battery_level: Some(92),
        },
        command_handlers: feeder_handlers,
        state: KeyedList::new(),
        auto_responses: true,
    };
    let mut r: Vec<VirtualDevice> = Vec::new();
    r.push(collar);
    r.push(feeder);
    r
}

} // verus!
