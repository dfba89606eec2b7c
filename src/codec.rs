use vstd::prelude::*;
use crate::audio::{AudioContext, AudioRequest, AudioResponse};
use crate::events::{BevyToJsEvent, JsToBevyEvent, SharedSettings};
use crate::text::chars_of;

verus! {

/// One value of a wire message. Numbers are carried in thousandths of the
/// number the host wrote (0.8 is 800).
#[derive(Debug)]
pub enum WireValue {
    Null,
    Bool(bool),
    Number(i64),
    Text(String),
    TextList(Vec<String>),
}

/// A wire message: its fields in order, each a key and a value. Fields of a
/// nested object have the object's key, a dot, and their own key.
#[derive(Debug)]
pub struct WireMessage {
    pub fields: Vec<(String, WireValue)>,
}

/// What a wire value holds.
pub enum WireDatum {
    Null,
    Bool(bool),
    Number(int),
    Text(Seq<char>),
    TextList(Seq<Seq<char>>),
}

/// Why a message could not be decoded.
#[derive(Debug)]
pub enum DecodeError {
    /// The `type` field is missing or names no variant.
    UnknownType,
    /// A field is missing, of the wrong kind, or out of range; the key.
    BadField(String),
}

impl WireValue {
    pub open spec fn datum(&self) -> WireDatum {
        match *self {
            WireValue::Null => WireDatum::Null,
            WireValue::Bool(b) => WireDatum::Bool(b),
            WireValue::Number(n) => WireDatum::Number(n as int),
            WireValue::Text(t) => WireDatum::Text(t@),
            WireValue::TextList(l) => WireDatum::TextList(l@.map_values(|s: String| s@)),
        }
    }
}

impl View for WireMessage {
    type V = Seq<(Seq<char>, WireDatum)>;

    open spec fn view(&self) -> Seq<(Seq<char>, WireDatum)> {
        self.fields@.map_values(|f: (String, WireValue)| (f.0@, f.1.datum()))
    }
}

/// The value of the first field of `f` with key `key`.
pub open spec fn field_of(f: Seq<(Seq<char>, WireDatum)>, key: Seq<char>) -> Option<WireDatum>
    decreases f.len(),
{
    if f.len() == 0 {
        None
    } else if f[0].0 == key {
        Some(f[0].1)
    } else {
        field_of(f.drop_first(), key)
    }
}

/// The text under `key`, if that field holds text.
pub open spec fn text_of(f: Seq<(Seq<char>, WireDatum)>, key: Seq<char>) -> Option<Seq<char>> {
    match field_of(f, key) {
        Some(WireDatum::Text(t)) => Some(t),
        _ => None,
    }
}

/// An optional text under `key`: `Some(None)` when the field is missing or
/// null, `None` when it holds something other than text.
pub open spec fn opt_text_of(f: Seq<(Seq<char>, WireDatum)>, key: Seq<char>) -> Option<Option<Seq<char>>> {
    match field_of(f, key) {
        None => Some(None),
        Some(WireDatum::Null) => Some(None),
        Some(WireDatum::Text(t)) => Some(Some(t)),
        _ => None,
    }
}

pub open spec fn bool_of(f: Seq<(Seq<char>, WireDatum)>, key: Seq<char>) -> Option<bool> {
    match field_of(f, key) {
        Some(WireDatum::Bool(b)) => Some(b),
        _ => None,
    }
}

/// The number under `key`, if it is one and lies in `0..=max`.
pub open spec fn nat_of(f: Seq<(Seq<char>, WireDatum)>, key: Seq<char>, max: int) -> Option<int> {
    match field_of(f, key) {
        Some(WireDatum::Number(n)) => if 0 <= n <= max { Some(n) } else { None },
        _ => None,
    }
}

/// An optional number in `0..=max` under `key` (see `opt_text_of`).
pub open spec fn opt_nat_of(f: Seq<(Seq<char>, WireDatum)>, key: Seq<char>, max: int) -> Option<Option<int>> {
    match field_of(f, key) {
        None => Some(None),
        Some(WireDatum::Null) => Some(None),
        Some(WireDatum::Number(n)) => if 0 <= n <= max { Some(Some(n)) } else { None },
        _ => None,
    }
}

pub open spec fn list_of(f: Seq<(Seq<char>, WireDatum)>, key: Seq<char>) -> Option<Seq<Seq<char>>> {
    match field_of(f, key) {
        Some(WireDatum::TextList(l)) => Some(l),
        _ => None,
    }
}

/// Whether two texts are equal.
pub fn same_text(a: &str, b: &str) -> (r: bool)
    ensures
        r == (a@ == b@),
{
    let x = chars_of(a);
    let y = chars_of(b);
    if x.len() != y.len() {
        return false;
    }
    let mut i: usize = 0;
    while i < x.len()
        invariant
            x@ == a@,
            y@ == b@,
            x@.len() == y@.len(),
            i <= x@.len(),
            forall|k: int| 0 <= k < i ==> x@[k] == y@[k],
        decreases x@.len() - i,
    {
        if x[i] != y[i] {
            return false;
        }
        i = i + 1;
    }
    assert(x@ =~= y@);
    true
}

impl WireMessage {
    /// An empty message.
    pub fn new() -> (r: WireMessage)
        ensures
            r@ == Seq::<(Seq<char>, WireDatum)>::empty(),
    {
        let r = WireMessage { fields: Vec::new() };
        assert(r@ =~= Seq::<(Seq<char>, WireDatum)>::empty());
        r
    }

    /// Appends a field.
    pub fn push(&mut self, key: &str, value: WireValue)
        ensures
            final(self)@ == old(self)@.push((key@, value.datum())),
    {
        let ghost d = value.datum();
        self.fields.push((String::from_str(key), value));
        assert(self@ =~= old(self)@.push((key@, d)));
    }

    /// The value of the first field with key `key`.
    pub fn field(&self, key: &str) -> (r: Option<&WireValue>)
        ensures
            match r {
                Some(v) => field_of(self@, key@) == Some(v.datum()),
                None => field_of(self@, key@).is_none(),
            },
    {
        let mut i: usize = 0;
        assert(self@.subrange(0, self@.len() as int) =~= self@);
        while i < self.fields.len()
            invariant
                i <= self@.len(),
                self@.len() == self.fields@.len(),
                field_of(self@, key@) == field_of(self@.subrange(i as int, self@.len() as int), key@),
            decreases self@.len() - i,
        {
            let ghost rest = self@.subrange(i as int, self@.len() as int);
            assert(rest[0] == self@[i as int]);
            if same_text(self.fields[i].0.as_str(), key) {
                return Some(&self.fields[i].1);
            }
            assert(rest.drop_first() =~= self@.subrange(i + 1, self@.len() as int));
            i = i + 1;
        }
        None
    }

    pub fn text(&self, key: &str) -> (r: Result<String, DecodeError>)
        ensures
            match r {
                Ok(t) => text_of(self@, key@) == Some(t@),
                Err(_) => text_of(self@, key@).is_none(),
            },
    {
        match self.field(key) {
            Some(WireValue::Text(t)) => Ok(t.clone()),
            _ => Err(DecodeError::BadField(String::from_str(key))),
        }
    }

    pub fn opt_text(&self, key: &str) -> (r: Result<Option<String>, DecodeError>)
        ensures
            match r {
                Ok(Some(t)) => opt_text_of(self@, key@) == Some(Some(t@)),
                Ok(None) => opt_text_of(self@, key@) == Some(None::<Seq<char>>),
                Err(_) => opt_text_of(self@, key@).is_none(),
            },
    {
        match self.field(key) {
            None => Ok(None),
            Some(WireValue::Null) => Ok(None),
            Some(WireValue::Text(t)) => Ok(Some(t.clone())),
            _ => Err(DecodeError::BadField(String::from_str(key))),
        }
    }

    pub fn boolean(&self, key: &str) -> (r: Result<bool, DecodeError>)
        ensures
            match r {
                Ok(b) => bool_of(self@, key@) == Some(b),
                Err(_) => bool_of(self@, key@).is_none(),
            },
    {
        match self.field(key) {
            Some(WireValue::Bool(b)) => Ok(*b),
            _ => Err(DecodeError::BadField(String::from_str(key))),
        }
    }

    pub fn number_u32(&self, key: &str) -> (r: Result<u32, DecodeError>)
        ensures
            match r {
                Ok(n) => nat_of(self@, key@, u32::MAX as int) == Some(n as int),
                Err(_) => nat_of(self@, key@, u32::MAX as int).is_none(),
            },
    {
        match self.field(key) {
            Some(WireValue::Number(n)) => {
                if 0 <= *n && *n <= u32::MAX as i64 {
                    Ok(*n as u32)
                } else {
                    Err(DecodeError::BadField(String::from_str(key)))
                }
            },
            _ => Err(DecodeError::BadField(String::from_str(key))),
        }
    }

    pub fn number_u64(&self, key: &str) -> (r: Result<u64, DecodeError>)
        ensures
            match r {
                Ok(n) => nat_of(self@, key@, i64::MAX as int) == Some(n as int),
                Err(_) => nat_of(self@, key@, i64::MAX as int).is_none(),
            },
    {
        match self.field(key) {
            Some(WireValue::Number(n)) => {
                if 0 <= *n {
                    Ok(*n as u64)
                } else {
                    Err(DecodeError::BadField(String::from_str(key)))
                }
            },
            _ => Err(DecodeError::BadField(String::from_str(key))),
        }
    }

    pub fn opt_number_u32(&self, key: &str) -> (r: Result<Option<u32>, DecodeError>)
        ensures
            match r {
                Ok(Some(n)) => opt_nat_of(self@, key@, u32::MAX as int) == Some(Some(n as int)),
                Ok(None) => opt_nat_of(self@, key@, u32::MAX as int) == Some(None::<int>),
                Err(_) => opt_nat_of(self@, key@, u32::MAX as int).is_none(),
            },
    {
        match self.field(key) {
            None => Ok(None),
            Some(WireValue::Null) => Ok(None),
            Some(WireValue::Number(n)) => {
                if 0 <= *n && *n <= u32::MAX as i64 {
                    Ok(Some(*n as u32))
                } else {
                    Err(DecodeError::BadField(String::from_str(key)))
                }
            },
            _ => Err(DecodeError::BadField(String::from_str(key))),
        }
    }

    pub fn text_list(&self, key: &str) -> (r: Result<Vec<String>, DecodeError>)
        ensures
            match r {
                Ok(l) => list_of(self@, key@) == Some(l@.map_values(|s: String| s@)),
                Err(_) => list_of(self@, key@).is_none(),
            },
    {
        match self.field(key) {
            Some(WireValue::TextList(l)) => {
                let c = copy_text_list(l);
                Ok(c)
            },
            _ => Err(DecodeError::BadField(String::from_str(key))),
        }
    }
}

fn copy_text_list(v: &Vec<String>) -> (r: Vec<String>)
    ensures
        r@ == v@,
{
    let mut r: Vec<String> = Vec::new();
    let mut i: usize = 0;
    while i < v.len()
        invariant
            i <= v@.len(),
            r@ == v@.subrange(0, i as int),
        decreases v@.len() - i,
    {
        r.push(v[i].clone());
        i = i + 1;
        assert(r@ =~= v@.subrange(0, i as int));
    }
    assert(r@ =~= v@);
    r
}

/// The wire name of a sound context.
pub open spec fn context_text(c: AudioContext) -> Seq<char> {
    match c {
        AudioContext::Enter => "Enter"@,
        AudioContext::Exit => "Exit"@,
        AudioContext::UI => "UI"@,
        AudioContext::Critter => "Critter"@,
        AudioContext::Ambient => "Ambient"@,
        AudioContext::Test => "Test"@,
    }
}

/// The sound context a wire name stands for.
pub open spec fn context_from_text(t: Seq<char>) -> Option<AudioContext> {
    if t == "Enter"@ { Some(AudioContext::Enter) }
    else if t == "Exit"@ { Some(AudioContext::Exit) }
    else if t == "UI"@ { Some(AudioContext::UI) }
    else if t == "Critter"@ { Some(AudioContext::Critter) }
    else if t == "Ambient"@ { Some(AudioContext::Ambient) }
    else if t == "Test"@ { Some(AudioContext::Test) }
    else { None }
}

pub open spec fn context_of(f: Seq<(Seq<char>, WireDatum)>, key: Seq<char>) -> Option<AudioContext> {
    match text_of(f, key) {
        Some(t) => context_from_text(t),
        None => None,
    }
}

/// An optional text as a wire value: null when absent.
pub open spec fn opt_text_datum(t: Option<String>) -> WireDatum {
    match t {
        Some(s) => WireDatum::Text(s@),
        None => WireDatum::Null,
    }
}

pub open spec fn opt_view(t: Option<String>) -> Option<Seq<char>> {
    match t {
        Some(s) => Some(s@),
        None => None,
    }
}

/// The wire form of a sound request.
pub open spec fn audio_request_fields(m: AudioRequest) -> Seq<(Seq<char>, WireDatum)> {
    match m {
        AudioRequest::Play { request_id, sound_id, context, volume, loop_audio } => seq![
            ("type"@, WireDatum::Text("Play"@)),
            ("request_id"@, WireDatum::Text(request_id@)),
            ("sound_id"@, WireDatum::Text(sound_id@)),
            ("context"@, WireDatum::Text(context_text(context))),
            ("volume"@, WireDatum::Number(volume as int)),
            ("loop_audio"@, WireDatum::Bool(loop_audio)),
        ],
        AudioRequest::Stop { request_id, sound_id } => seq![
            ("type"@, WireDatum::Text("Stop"@)),
            ("request_id"@, WireDatum::Text(request_id@)),
            ("sound_id"@, opt_text_datum(sound_id)),
        ],
        AudioRequest::SetVolume { request_id, volume } => seq![
            ("type"@, WireDatum::Text("SetVolume"@)),
            ("request_id"@, WireDatum::Text(request_id@)),
            ("volume"@, WireDatum::Number(volume as int)),
        ],
        AudioRequest::Test { request_id, test_type } => seq![
            ("type"@, WireDatum::Text("Test"@)),
            ("request_id"@, WireDatum::Text(request_id@)),
            ("test_type"@, WireDatum::Text(test_type@)),
        ],
    }
}

/// `f` is the wire form of some sound request: a known `type` and every
/// field of that variant present, of the right kind and in range.
pub open spec fn audio_request_wf(f: Seq<(Seq<char>, WireDatum)>) -> bool {
    let m = u32::MAX as int;
    match text_of(f, "type"@) {
        Some(t) => if t == "Play"@ {
            text_of(f, "request_id"@) is Some && text_of(f, "sound_id"@) is Some
                && context_of(f, "context"@) is Some && nat_of(f, "volume"@, m) is Some
                && bool_of(f, "loop_audio"@) is Some
        } else if t == "Stop"@ {
            text_of(f, "request_id"@) is Some && opt_text_of(f, "sound_id"@) is Some
        } else if t == "SetVolume"@ {
            text_of(f, "request_id"@) is Some && nat_of(f, "volume"@, m) is Some
        } else if t == "Test"@ {
            text_of(f, "request_id"@) is Some && text_of(f, "test_type"@) is Some
        } else {
            false
        },
        None => false,
    }
}

/// `d` is what `f` decodes to.
pub open spec fn audio_request_decodes(f: Seq<(Seq<char>, WireDatum)>, d: AudioRequest) -> bool {
    let m = u32::MAX as int;
    match d {
        AudioRequest::Play { request_id, sound_id, context, volume, loop_audio } =>
            text_of(f, "type"@) == Some("Play"@)
                && text_of(f, "request_id"@) == Some(request_id@)
                && text_of(f, "sound_id"@) == Some(sound_id@)
                && context_of(f, "context"@) == Some(context)
                && nat_of(f, "volume"@, m) == Some(volume as int)
                && bool_of(f, "loop_audio"@) == Some(loop_audio),
        AudioRequest::Stop { request_id, sound_id } =>
            text_of(f, "type"@) == Some("Stop"@)
                && text_of(f, "request_id"@) == Some(request_id@)
                && opt_text_of(f, "sound_id"@) == Some(opt_view(sound_id)),
        AudioRequest::SetVolume { request_id, volume } =>
            text_of(f, "type"@) == Some("SetVolume"@)
                && text_of(f, "request_id"@) == Some(request_id@)
                && nat_of(f, "volume"@, m) == Some(volume as int),
        AudioRequest::Test { request_id, test_type } =>
            text_of(f, "type"@) == Some("Test"@)
                && text_of(f, "request_id"@) == Some(request_id@)
                && text_of(f, "test_type"@) == Some(test_type@),
    }
}

/// Two sound requests say the same thing.
pub open spec fn same_audio_request(a: AudioRequest, b: AudioRequest) -> bool {
    match (a, b) {
        (AudioRequest::Play { request_id: i1, sound_id: s1, context: c1, volume: v1, loop_audio: l1 },
         AudioRequest::Play { request_id: i2, sound_id: s2, context: c2, volume: v2, loop_audio: l2 }) =>
            i1@ == i2@ && s1@ == s2@ && c1 == c2 && v1 == v2 && l1 == l2,
        (AudioRequest::Stop { request_id: i1, sound_id: s1 }, AudioRequest::Stop { request_id: i2, sound_id: s2 }) =>
            i1@ == i2@ && opt_view(s1) == opt_view(s2),
        (AudioRequest::SetVolume { request_id: i1, volume: v1 }, AudioRequest::SetVolume { request_id: i2, volume: v2 }) =>
            i1@ == i2@ && v1 == v2,
        (AudioRequest::Test { request_id: i1, test_type: t1 }, AudioRequest::Test { request_id: i2, test_type: t2 }) =>
            i1@ == i2@ && t1@ == t2@,
        _ => false,
    }
}

fn context_name(c: AudioContext) -> (r: &'static str)
    ensures
        r@ == context_text(c),
{
    match c {
        AudioContext::Enter => "Enter",
        AudioContext::Exit => "Exit",
        AudioContext::UI => "UI",
        AudioContext::Critter => "Critter",
        AudioContext::Ambient => "Ambient",
        AudioContext::Test => "Test",
    }
}

fn context_from_name(t: &str) -> (r: Option<AudioContext>)
    ensures
        r == context_from_text(t@),
{
    if same_text(t, "Enter") { Some(AudioContext::Enter) }
    else if same_text(t, "Exit") { Some(AudioContext::Exit) }
    else if same_text(t, "UI") { Some(AudioContext::UI) }
    else if same_text(t, "Critter") { Some(AudioContext::Critter) }
    else if same_text(t, "Ambient") { Some(AudioContext::Ambient) }
    else if same_text(t, "Test") { Some(AudioContext::Test) }
    else { None }
}

fn text_value(s: &String) -> (r: WireValue)
    ensures
        r.datum() == WireDatum::Text(s@),
{
    WireValue::Text(s.clone())
}

fn opt_text_value(s: &Option<String>) -> (r: WireValue)
    ensures
        r.datum() == opt_text_datum(*s),
{
    match s {
        Some(t) => WireValue::Text(t.clone()),
        None => WireValue::Null,
    }
}

/// The wire form of a sound request (see `audio_request_fields`).
pub fn encode_audio_request(m: &AudioRequest) -> (r: WireMessage)
    ensures
        r@ == audio_request_fields(*m),
{
    let mut r = WireMessage::new();
    match m {
        AudioRequest::Play { request_id, sound_id, context, volume, loop_audio } => {
            r.push("type", WireValue::Text(String::from_str("Play")));
            r.push("request_id", text_value(request_id));
            r.push("sound_id", text_value(sound_id));
            r.push("context", WireValue::Text(String::from_str(context_name(*context))));
            r.push("volume", WireValue::Number(*volume as i64));
            r.push("loop_audio", WireValue::Bool(*loop_audio));
        },
        AudioRequest::Stop { request_id, sound_id } => {
            r.push("type", WireValue::Text(String::from_str("Stop")));
            r.push("request_id", text_value(request_id));
            r.push("sound_id", opt_text_value(sound_id));
        },
        AudioRequest::SetVolume { request_id, volume } => {
            r.push("type", WireValue::Text(String::from_str("SetVolume")));
            r.push("request_id", text_value(request_id));
            r.push("volume", WireValue::Number(*volume as i64));
        },
        AudioRequest::Test { request_id, test_type } => {
            r.push("type", WireValue::Text(String::from_str("Test")));
            r.push("request_id", text_value(request_id));
            r.push("test_type", text_value(test_type));
        },
    }
    assert(r@ =~= audio_request_fields(*m));
    r
}

/// Reads a sound request; it fails exactly when `msg` is not the wire form
/// of one (see `audio_request_wf`).
pub fn decode_audio_request(msg: &WireMessage) -> (r: Result<AudioRequest, DecodeError>)
    ensures
        r is Ok == audio_request_wf(msg@),
        match r {
            Ok(d) => audio_request_decodes(msg@, d),
            Err(_) => true,
        },
{
    let tag = match msg.text("type") {
        Ok(t) => t,
        Err(_) => { return Err(DecodeError::UnknownType); },
    };
    if same_text(tag.as_str(), "Play") {
        let request_id = msg.text("request_id")?;
        let sound_id = msg.text("sound_id")?;
        let context_name = msg.text("context")?;
        let context = match context_from_name(context_name.as_str()) {
            Some(c) => c,
            None => { return Err(DecodeError::BadField(String::from_str("context"))); },
        };
        let volume = msg.number_u32("volume")?;
        let loop_audio = msg.boolean("loop_audio")?;
        Ok(AudioRequest::Play { request_id, sound_id, context, volume, loop_audio })
    } else if same_text(tag.as_str(), "Stop") {
        let request_id = msg.text("request_id")?;
        let sound_id = msg.opt_text("sound_id")?;
        Ok(AudioRequest::Stop { request_id, sound_id })
    } else if same_text(tag.as_str(), "SetVolume") {
        let request_id = msg.text("request_id")?;
        let volume = msg.number_u32("volume")?;
        Ok(AudioRequest::SetVolume { request_id, volume })
    } else if same_text(tag.as_str(), "Test") {
        let request_id = msg.text("request_id")?;
        let test_type = msg.text("test_type")?;
        Ok(AudioRequest::Test { request_id, test_type })
    } else {
        Err(DecodeError::UnknownType)
    }
}

proof fn lemma_audio_request_literals()
    ensures
        "type"@ != "request_id"@, "type"@ != "sound_id"@, "type"@ != "context"@, "type"@ != "volume"@,
        "type"@ != "loop_audio"@, "type"@ != "test_type"@,
        "request_id"@ != "sound_id"@, "request_id"@ != "context"@, "request_id"@ != "volume"@,
        "request_id"@ != "loop_audio"@, "request_id"@ != "test_type"@,
        "sound_id"@ != "context"@, "sound_id"@ != "volume"@, "sound_id"@ != "loop_audio"@,
        "context"@ != "volume"@, "context"@ != "loop_audio"@, "volume"@ != "loop_audio"@,
        "Play"@ != "Stop"@, "Play"@ != "SetVolume"@, "Play"@ != "Test"@,
        "Stop"@ != "SetVolume"@, "Stop"@ != "Test"@, "SetVolume"@ != "Test"@,
        "Enter"@ != "Exit"@, "Enter"@ != "UI"@, "Enter"@ != "Critter"@, "Enter"@ != "Ambient"@, "Enter"@ != "Test"@,
        "Exit"@ != "UI"@, "Exit"@ != "Critter"@, "Exit"@ != "Ambient"@, "Exit"@ != "Test"@,
        "UI"@ != "Critter"@, "UI"@ != "Ambient"@, "UI"@ != "Test"@,
        "Critter"@ != "Ambient"@, "Critter"@ != "Test"@, "Ambient"@ != "Test"@,
{
    reveal_strlit("type");
    reveal_strlit("request_id");
    reveal_strlit("sound_id");
    reveal_strlit("context");
    reveal_strlit("volume");
    reveal_strlit("loop_audio");
    reveal_strlit("test_type");
    reveal_strlit("Play");
    reveal_strlit("Stop");
    reveal_strlit("SetVolume");
    reveal_strlit("Test");
    reveal_strlit("Enter");
    reveal_strlit("Exit");
    reveal_strlit("UI");
    reveal_strlit("Critter");
    reveal_strlit("Ambient");
    assert("type"@.len() == 4);
    assert("request_id"@.len() == 10);
    assert("sound_id"@.len() == 8);
    assert("context"@.len() == 7);
    assert("volume"@.len() == 6);
    assert("loop_audio"@.len() == 10);
    assert("test_type"@.len() == 9);
    assert("request_id"@[0] != "loop_audio"@[0]);
    assert("Play"@.len() == 4);
    assert("Stop"@.len() == 4);
    assert("SetVolume"@.len() == 9);
    assert("Test"@.len() == 4);
    assert("Play"@[0] != "Stop"@[0]);
    assert("Play"@[0] != "Test"@[0]);
    assert("Stop"@[1] != "Test"@[1]);
    assert("Enter"@.len() == 5);
    assert("Exit"@.len() == 4);
    assert("UI"@.len() == 2);
    assert("Critter"@.len() == 7);
    assert("Ambient"@.len() == 7);
    assert("Exit"@[0] != "Test"@[0]);
    assert("Critter"@[0] != "Ambient"@[0]);
}

/// Decoding the wire form of a sound request gives that request back:
/// the wire form is well formed, and whatever it decodes to says the same.
pub proof fn lemma_audio_request_round_trip(m: AudioRequest, d: AudioRequest)
    ensures
        audio_request_wf(audio_request_fields(m)),
        audio_request_decodes(audio_request_fields(m), d) ==> same_audio_request(m, d),
{
    lemma_audio_request_literals();
    reveal_with_fuel(field_of, 7);
    let f = audio_request_fields(m);
    match m {
        AudioRequest::Play { request_id, sound_id, context, volume, loop_audio } => {
            assert(text_of(f, "type"@) == Some("Play"@));
            assert(text_of(f, "request_id"@) == Some(request_id@));
            assert(text_of(f, "sound_id"@) == Some(sound_id@));
            assert(context_of(f, "context"@) == Some(context));
            assert(nat_of(f, "volume"@, u32::MAX as int) == Some(volume as int));
            assert(bool_of(f, "loop_audio"@) == Some(loop_audio));
        },
        AudioRequest::Stop { request_id, sound_id } => {
            assert(text_of(f, "type"@) == Some("Stop"@));
            assert(text_of(f, "request_id"@) == Some(request_id@));
            assert(opt_text_of(f, "sound_id"@) == Some(opt_view(sound_id)));
        },
        AudioRequest::SetVolume { request_id, volume } => {
            assert(text_of(f, "type"@) == Some("SetVolume"@));
            assert(text_of(f, "request_id"@) == Some(request_id@));
            assert(nat_of(f, "volume"@, u32::MAX as int) == Some(volume as int));
        },
        AudioRequest::Test { request_id, test_type } => {
            assert(text_of(f, "type"@) == Some("Test"@));
            assert(text_of(f, "request_id"@) == Some(request_id@));
            assert(text_of(f, "test_type"@) == Some(test_type@));
        },
    }
}

pub open spec fn opt_nat_datum(n: Option<u32>) -> WireDatum {
    match n {
        Some(v) => WireDatum::Number(v as int),
        None => WireDatum::Null,
    }
}

pub open spec fn opt_nat_view(n: Option<u32>) -> Option<int> {
    match n {
        Some(v) => Some(v as int),
        None => None,
    }
}

fn opt_number_value(n: Option<u32>) -> (r: WireValue)
    ensures
        r.datum() == opt_nat_datum(n),
{
    match n {
        Some(v) => WireValue::Number(v as i64),
        None => WireValue::Null,
    }
}

/// The wire form of an answer to a sound request.
pub open spec fn audio_response_fields(m: AudioResponse) -> Seq<(Seq<char>, WireDatum)> {
    match m {
        AudioResponse::PlayCompleted { request_id, success, duration_ms, error_message } => seq![
            ("type"@, WireDatum::Text("PlayCompleted"@)),
            ("request_id"@, WireDatum::Text(request_id@)),
            ("success"@, WireDatum::Bool(success)),
            ("duration_seconds"@, opt_nat_datum(duration_ms)),
            ("error_message"@, opt_text_datum(error_message)),
        ],
        AudioResponse::Stopped { request_id, success } => seq![
            ("type"@, WireDatum::Text("Stopped"@)),
            ("request_id"@, WireDatum::Text(request_id@)),
            ("success"@, WireDatum::Bool(success)),
        ],
        AudioResponse::VolumeChanged { request_id, new_volume } => seq![
            ("type"@, WireDatum::Text("VolumeChanged"@)),
            ("request_id"@, WireDatum::Text(request_id@)),
            ("new_volume"@, WireDatum::Number(new_volume as int)),
        ],
        AudioResponse::TestCompleted { request_id, result } => seq![
            ("type"@, WireDatum::Text("TestCompleted"@)),
            ("request_id"@, WireDatum::Text(request_id@)),
            ("result"@, WireDatum::Text(result@)),
        ],
    }
}

/// `f` is the wire form of some answer to a sound request.
pub open spec fn audio_response_wf(f: Seq<(Seq<char>, WireDatum)>) -> bool {
    let m = u32::MAX as int;
    match text_of(f, "type"@) {
        Some(t) => if t == "PlayCompleted"@ {
            text_of(f, "request_id"@) is Some && bool_of(f, "success"@) is Some
                && opt_nat_of(f, "duration_seconds"@, m) is Some && opt_text_of(f, "error_message"@) is Some
        } else if t == "Stopped"@ {
            text_of(f, "request_id"@) is Some && bool_of(f, "success"@) is Some
        } else if t == "VolumeChanged"@ {
            text_of(f, "request_id"@) is Some && nat_of(f, "new_volume"@, m) is Some
        } else if t == "TestCompleted"@ {
            text_of(f, "request_id"@) is Some && text_of(f, "result"@) is Some
        } else {
            false
        },
        None => false,
    }
}

/// `d` is what `f` decodes to.
pub open spec fn audio_response_decodes(f: Seq<(Seq<char>, WireDatum)>, d: AudioResponse) -> bool {
    let m = u32::MAX as int;
    match d {
        AudioResponse::PlayCompleted { request_id, success, duration_ms, error_message } =>
            text_of(f, "type"@) == Some("PlayCompleted"@)
                && text_of(f, "request_id"@) == Some(request_id@)
                && bool_of(f, "success"@) == Some(success)
                && opt_nat_of(f, "duration_seconds"@, m) == Some(opt_nat_view(duration_ms))
                && opt_text_of(f, "error_message"@) == Some(opt_view(error_message)),
        AudioResponse::Stopped { request_id, success } =>
            text_of(f, "type"@) == Some("Stopped"@)
                && text_of(f, "request_id"@) == Some(request_id@)
                && bool_of(f, "success"@) == Some(success),
        AudioResponse::VolumeChanged { request_id, new_volume } =>
            text_of(f, "type"@) == Some("VolumeChanged"@)
                && text_of(f, "request_id"@) == Some(request_id@)
                && nat_of(f, "new_volume"@, m) == Some(new_volume as int),
        AudioResponse::TestCompleted { request_id, result } =>
            text_of(f, "type"@) == Some("TestCompleted"@)
                && text_of(f, "request_id"@) == Some(request_id@)
                && text_of(f, "result"@) == Some(result@),
    }
}

/// Two answers to sound requests say the same thing.
pub open spec fn same_audio_response(a: AudioResponse, b: AudioResponse) -> bool {
    match (a, b) {
        (AudioResponse::PlayCompleted { request_id: i1, success: s1, duration_ms: d1, error_message: e1 },
         AudioResponse::PlayCompleted { request_id: i2, success: s2, duration_ms: d2, error_message: e2 }) =>
            i1@ == i2@ && s1 == s2 && d1 == d2 && opt_view(e1) == opt_view(e2),
        (AudioResponse::Stopped { request_id: i1, success: s1 }, AudioResponse::Stopped { request_id: i2, success: s2 }) =>
            i1@ == i2@ && s1 == s2,
        (AudioResponse::VolumeChanged { request_id: i1, new_volume: v1 },
         AudioResponse::VolumeChanged { request_id: i2, new_volume: v2 }) =>
            i1@ == i2@ && v1 == v2,
        (AudioResponse::TestCompleted { request_id: i1, result: r1 },
         AudioResponse::TestCompleted { request_id: i2, result: r2 }) =>
            i1@ == i2@ && r1@ == r2@,
        _ => false,
    }
}

/// The wire form of an answer to a sound request (see `audio_response_fields`).
pub fn encode_audio_response(m: &AudioResponse) -> (r: WireMessage)
    ensures
        r@ == audio_response_fields(*m),
{
    let mut r = WireMessage::new();
    match m {
        AudioResponse::PlayCompleted { request_id, success, duration_ms, error_message } => {
            r.push("type", WireValue::Text(String::from_str("PlayCompleted")));
            r.push("request_id", text_value(request_id));
            r.push("success", WireValue::Bool(*success));
            r.push("duration_seconds", opt_number_value(*duration_ms));
            r.push("error_message", opt_text_value(error_message));
        },
        AudioResponse::Stopped { request_id, success } => {
            r.push("type", WireValue::Text(String::from_str("Stopped")));
            r.push("request_id", text_value(request_id));
            r.push("success", WireValue::Bool(*success));
        },
        AudioResponse::VolumeChanged { request_id, new_volume } => {
            r.push("type", WireValue::Text(String::from_str("VolumeChanged")));
            r.push("request_id", text_value(request_id));
            r.push("new_volume", WireValue::Number(*new_volume as i64));
        },
        AudioResponse::TestCompleted { request_id, result } => {
            r.push("type", WireValue::Text(String::from_str("TestCompleted")));
            r.push("request_id", text_value(request_id));
            r.push("result", text_value(result));
        },
    }
    assert(r@ =~= audio_response_fields(*m));
    r
}

/// Reads an answer to a sound request; it fails exactly when `msg` is not
/// the wire form of one (see `audio_response_wf`).
pub fn decode_audio_response(msg: &WireMessage) -> (r: Result<AudioResponse, DecodeError>)
    ensures
        r is Ok == audio_response_wf(msg@),
        match r {
            Ok(d) => audio_response_decodes(msg@, d),
            Err(_) => true,
        },
{
    let tag = match msg.text("type") {
        Ok(t) => t,
        Err(_) => { return Err(DecodeError::UnknownType); },
    };
    if same_text(tag.as_str(), "PlayCompleted") {
        let request_id = msg.text("request_id")?;
        let success = msg.boolean("success")?;
        let duration_ms = msg.opt_number_u32("duration_seconds")?;
        let error_message = msg.opt_text("error_message")?;
        Ok(AudioResponse::PlayCompleted { request_id, success, duration_ms, error_message })
    } else if same_text(tag.as_str(), "Stopped") {
        let request_id = msg.text("request_id")?;
        let success = msg.boolean("success")?;
        Ok(AudioResponse::Stopped { request_id, success })
    } else if same_text(tag.as_str(), "VolumeChanged") {
        let request_id = msg.text("request_id")?;
        let new_volume = msg.number_u32("new_volume")?;
        Ok(AudioResponse::VolumeChanged { request_id, new_volume })
    } else if same_text(tag.as_str(), "TestCompleted") {
        let request_id = msg.text("request_id")?;
        let result = msg.text("result")?;
        Ok(AudioResponse::TestCompleted { request_id, result })
    } else {
        Err(DecodeError::UnknownType)
    }
}

proof fn lemma_audio_response_literals()
    ensures
        "type"@ != "request_id"@, "type"@ != "success"@, "type"@ != "duration_seconds"@,
        "type"@ != "error_message"@, "type"@ != "new_volume"@, "type"@ != "result"@,
        "request_id"@ != "success"@, "request_id"@ != "duration_seconds"@, "request_id"@ != "error_message"@,
        "request_id"@ != "new_volume"@, "request_id"@ != "result"@,
        "success"@ != "duration_seconds"@, "success"@ != "error_message"@, "duration_seconds"@ != "error_message"@,
        "PlayCompleted"@ != "Stopped"@, "PlayCompleted"@ != "VolumeChanged"@, "PlayCompleted"@ != "TestCompleted"@,
        "Stopped"@ != "VolumeChanged"@, "Stopped"@ != "TestCompleted"@, "VolumeChanged"@ != "TestCompleted"@,
{
    reveal_strlit("type");
    reveal_strlit("request_id");
    reveal_strlit("success");
    reveal_strlit("duration_seconds");
    reveal_strlit("error_message");
    reveal_strlit("new_volume");
    reveal_strlit("result");
    reveal_strlit("PlayCompleted");
    reveal_strlit("Stopped");
    reveal_strlit("VolumeChanged");
    reveal_strlit("TestCompleted");
    assert("type"@.len() == 4);
    assert("request_id"@.len() == 10);
    assert("success"@.len() == 7);
    assert("duration_seconds"@.len() == 16);
    assert("error_message"@.len() == 13);
    assert("new_volume"@.len() == 10);
    assert("result"@.len() == 6);
    assert("request_id"@[0] != "new_volume"@[0]);
    assert("PlayCompleted"@.len() == 13);
    assert("Stopped"@.len() == 7);
    assert("VolumeChanged"@.len() == 13);
    assert("TestCompleted"@.len() == 13);
    assert("PlayCompleted"@[0] != "VolumeChanged"@[0]);
    assert("PlayCompleted"@[0] != "TestCompleted"@[0]);
    assert("VolumeChanged"@[0] != "TestCompleted"@[0]);
}

/// Decoding the wire form of an answer to a sound request gives that answer
/// back.
pub proof fn lemma_audio_response_round_trip(m: AudioResponse, d: AudioResponse)
    ensures
        audio_response_wf(audio_response_fields(m)),
        audio_response_decodes(audio_response_fields(m), d) ==> same_audio_response(m, d),
{
    lemma_audio_response_literals();
    reveal_with_fuel(field_of, 6);
    let f = audio_response_fields(m);
    let mx = u32::MAX as int;
    match m {
        AudioResponse::PlayCompleted { request_id, success, duration_ms, error_message } => {
            assert(text_of(f, "type"@) == Some("PlayCompleted"@));
            assert(text_of(f, "request_id"@) == Some(request_id@));
            assert(bool_of(f, "success"@) == Some(success));
            assert(opt_nat_of(f, "duration_seconds"@, mx) == Some(opt_nat_view(duration_ms)));
            assert(opt_text_of(f, "error_message"@) == Some(opt_view(error_message)));
            if audio_response_decodes(f, d) {
                if let AudioResponse::PlayCompleted { duration_ms: d2, .. } = d {
                    assert(opt_nat_view(d2) == opt_nat_view(duration_ms));
                    assert(d2 == duration_ms);
                }
            }
        },
        AudioResponse::Stopped { request_id, success } => {
            assert(text_of(f, "type"@) == Some("Stopped"@));
            assert(text_of(f, "request_id"@) == Some(request_id@));
            assert(bool_of(f, "success"@) == Some(success));
        },
        AudioResponse::VolumeChanged { request_id, new_volume } => {
            assert(text_of(f, "type"@) == Some("VolumeChanged"@));
            assert(text_of(f, "request_id"@) == Some(request_id@));
            assert(nat_of(f, "new_volume"@, mx) == Some(new_volume as int));
        },
        AudioResponse::TestCompleted { request_id, result } => {
            assert(text_of(f, "type"@) == Some("TestCompleted"@));
            assert(text_of(f, "request_id"@) == Some(request_id@));
            assert(text_of(f, "result"@) == Some(result@));
        },
    }
}

pub open spec fn text_list_view(l: Vec<String>) -> Seq<Seq<char>> {
    l@.map_values(|s: String| s@)
}

/// The wire form of an event for the host page.
pub open spec fn outbound_fields(m: BevyToJsEvent) -> Seq<(Seq<char>, WireDatum)> {
    match m {
        BevyToJsEvent::PlayAudio { request_id, sound_id, volume } => seq![
            ("type"@, WireDatum::Text("PlayAudio"@)),
            ("request_id"@, WireDatum::Text(request_id@)),
            ("sound_id"@, WireDatum::Text(sound_id@)),
            ("volume"@, WireDatum::Number(volume as int)),
        ],
        BevyToJsEvent::BluetoothScan { request_id, device_filter } => seq![
            ("type"@, WireDatum::Text("BluetoothScan"@)),
            ("request_id"@, WireDatum::Text(request_id@)),
            ("device_filter"@, WireDatum::Text(device_filter@)),
        ],
        BevyToJsEvent::TestEvent { request_id, message } => seq![
            ("type"@, WireDatum::Text("TestEvent"@)),
            ("request_id"@, WireDatum::Text(request_id@)),
            ("message"@, WireDatum::Text(message@)),
        ],
    }
}

/// `f` is the wire form of some event for the host page.
pub open spec fn outbound_wf(f: Seq<(Seq<char>, WireDatum)>) -> bool {
    match text_of(f, "type"@) {
        Some(t) => if t == "PlayAudio"@ {
            text_of(f, "request_id"@) is Some && text_of(f, "sound_id"@) is Some
                && nat_of(f, "volume"@, u32::MAX as int) is Some
        } else if t == "BluetoothScan"@ {
            text_of(f, "request_id"@) is Some && text_of(f, "device_filter"@) is Some
        } else if t == "TestEvent"@ {
            text_of(f, "request_id"@) is Some && text_of(f, "message"@) is Some
        } else {
            false
        },
        None => false,
    }
}

/// `d` is what `f` decodes to.
pub open spec fn outbound_decodes(f: Seq<(Seq<char>, WireDatum)>, d: BevyToJsEvent) -> bool {
    match d {
        BevyToJsEvent::PlayAudio { request_id, sound_id, volume } =>
            text_of(f, "type"@) == Some("PlayAudio"@)
                && text_of(f, "request_id"@) == Some(request_id@)
                && text_of(f, "sound_id"@) == Some(sound_id@)
                && nat_of(f, "volume"@, u32::MAX as int) == Some(volume as int),
        BevyToJsEvent::BluetoothScan { request_id, device_filter } =>
            text_of(f, "type"@) == Some("BluetoothScan"@)
                && text_of(f, "request_id"@) == Some(request_id@)
                && text_of(f, "device_filter"@) == Some(device_filter@),
        BevyToJsEvent::TestEvent { request_id, message } =>
            text_of(f, "type"@) == Some("TestEvent"@)
                && text_of(f, "request_id"@) == Some(request_id@)
                && text_of(f, "message"@) == Some(message@),
    }
}

/// Two events for the host page say the same thing.
pub open spec fn same_outbound(a: BevyToJsEvent, b: BevyToJsEvent) -> bool {
    match (a, b) {
        (BevyToJsEvent::PlayAudio { request_id: i1, sound_id: s1, volume: v1 },
         BevyToJsEvent::PlayAudio { request_id: i2, sound_id: s2, volume: v2 }) =>
            i1@ == i2@ && s1@ == s2@ && v1 == v2,
        (BevyToJsEvent::BluetoothScan { request_id: i1, device_filter: f1 },
         BevyToJsEvent::BluetoothScan { request_id: i2, device_filter: f2 }) =>
            i1@ == i2@ && f1@ == f2@,
        (BevyToJsEvent::TestEvent { request_id: i1, message: m1 },
         BevyToJsEvent::TestEvent { request_id: i2, message: m2 }) =>
            i1@ == i2@ && m1@ == m2@,
        _ => false,
    }
}

/// The wire form of an event for the host page (see `outbound_fields`).
pub fn encode_outbound(m: &BevyToJsEvent) -> (r: WireMessage)
    ensures
        r@ == outbound_fields(*m),
{
    let mut r = WireMessage::new();
    match m {
        BevyToJsEvent::PlayAudio { request_id, sound_id, volume } => {
            r.push("type", WireValue::Text(String::from_str("PlayAudio")));
            r.push("request_id", text_value(request_id));
            r.push("sound_id", text_value(sound_id));
            r.push("volume", WireValue::Number(*volume as i64));
        },
        BevyToJsEvent::BluetoothScan { request_id, device_filter } => {
            r.push("type", WireValue::Text(String::from_str("BluetoothScan")));
            r.push("request_id", text_value(request_id));
            r.push("device_filter", text_value(device_filter));
        },
        BevyToJsEvent::TestEvent { request_id, message } => {
            r.push("type", WireValue::Text(String::from_str("TestEvent")));
            r.push("request_id", text_value(request_id));
            r.push("message", text_value(message));
        },
    }
    assert(r@ =~= outbound_fields(*m));
    r
}

/// Reads an event for the host page; it fails exactly when `msg` is not the
/// wire form of one.
pub fn decode_outbound(msg: &WireMessage) -> (r: Result<BevyToJsEvent, DecodeError>)
    ensures
        r is Ok == outbound_wf(msg@),
        match r {
            Ok(d) => outbound_decodes(msg@, d),
            Err(_) => true,
        },
{
    let tag = match msg.text("type") {
        Ok(t) => t,
        Err(_) => { return Err(DecodeError::UnknownType); },
    };
    if same_text(tag.as_str(), "PlayAudio") {
        let request_id = msg.text("request_id")?;
        let sound_id = msg.text("sound_id")?;
        let volume = msg.number_u32("volume")?;
        Ok(BevyToJsEvent::PlayAudio { request_id, sound_id, volume })
    } else if same_text(tag.as_str(), "BluetoothScan") {
        let request_id = msg.text("request_id")?;
        let device_filter = msg.text("device_filter")?;
        Ok(BevyToJsEvent::BluetoothScan { request_id, device_filter })
    } else if same_text(tag.as_str(), "TestEvent") {
        let request_id = msg.text("request_id")?;
        let message = msg.text("message")?;
        Ok(BevyToJsEvent::TestEvent { request_id, message })
    } else {
        Err(DecodeError::UnknownType)
    }
}

proof fn lemma_outbound_literals()
    ensures
        "type"@ != "request_id"@, "type"@ != "sound_id"@, "type"@ != "volume"@,
        "type"@ != "device_filter"@, "type"@ != "message"@,
        "request_id"@ != "sound_id"@, "request_id"@ != "volume"@, "request_id"@ != "device_filter"@,
        "request_id"@ != "message"@, "sound_id"@ != "volume"@,
        "PlayAudio"@ != "BluetoothScan"@, "PlayAudio"@ != "TestEvent"@, "BluetoothScan"@ != "TestEvent"@,
{
    reveal_strlit("type");
    reveal_strlit("request_id");
    reveal_strlit("sound_id");
    reveal_strlit("volume");
    reveal_strlit("device_filter");
    reveal_strlit("message");
    reveal_strlit("PlayAudio");
    reveal_strlit("BluetoothScan");
    reveal_strlit("TestEvent");
    assert("type"@.len() == 4);
    assert("request_id"@.len() == 10);
    assert("sound_id"@.len() == 8);
    assert("volume"@.len() == 6);
    assert("device_filter"@.len() == 13);
    assert("message"@.len() == 7);
    assert("PlayAudio"@.len() == 9);
    assert("BluetoothScan"@.len() == 13);
    assert("TestEvent"@.len() == 9);
    assert("PlayAudio"@[0] != "TestEvent"@[0]);
}

/// Decoding the wire form of an event for the host page gives that event back.
pub proof fn lemma_outbound_round_trip(m: BevyToJsEvent, d: BevyToJsEvent)
    ensures
        outbound_wf(outbound_fields(m)),
        outbound_decodes(outbound_fields(m), d) ==> same_outbound(m, d),
{
    lemma_outbound_literals();
    reveal_with_fuel(field_of, 5);
    let f = outbound_fields(m);
    match m {
        BevyToJsEvent::PlayAudio { request_id, sound_id, volume } => {
            assert(text_of(f, "type"@) == Some("PlayAudio"@));
            assert(text_of(f, "request_id"@) == Some(request_id@));
            assert(text_of(f, "sound_id"@) == Some(sound_id@));
            assert(nat_of(f, "volume"@, u32::MAX as int) == Some(volume as int));
        },
        BevyToJsEvent::BluetoothScan { request_id, device_filter } => {
            assert(text_of(f, "type"@) == Some("BluetoothScan"@));
            assert(text_of(f, "request_id"@) == Some(request_id@));
            assert(text_of(f, "device_filter"@) == Some(device_filter@));
        },
        BevyToJsEvent::TestEvent { request_id, message } => {
            assert(text_of(f, "type"@) == Some("TestEvent"@));
            assert(text_of(f, "request_id"@) == Some(request_id@));
            assert(text_of(f, "message"@) == Some(message@));
        },
    }
}

/// The wire form of an event of the host page. A gesture's timestamp must
/// fit a wire number.
pub open spec fn inbound_fields(m: JsToBevyEvent) -> Seq<(Seq<char>, WireDatum)> {
    match m {
        JsToBevyEvent::AudioCompleted { request_id, success, error_message, duration_ms } => seq![
            ("type"@, WireDatum::Text("AudioCompleted"@)),
            ("request_id"@, WireDatum::Text(request_id@)),
            ("success"@, WireDatum::Bool(success)),
            ("error_message"@, opt_text_datum(error_message)),
            ("duration_seconds"@, opt_nat_datum(duration_ms)),
        ],
        JsToBevyEvent::BluetoothScanCompleted { request_id, success, devices_found, error_message } => seq![
            ("type"@, WireDatum::Text("BluetoothScanCompleted"@)),
            ("request_id"@, WireDatum::Text(request_id@)),
            ("success"@, WireDatum::Bool(success)),
            ("devices_found"@, WireDatum::TextList(text_list_view(devices_found))),
            ("error_message"@, opt_text_datum(error_message)),
        ],
        JsToBevyEvent::TestEventResponse { request_id, response_data } => seq![
            ("type"@, WireDatum::Text("TestEventResponse"@)),
            ("request_id"@, WireDatum::Text(request_id@)),
            ("response_data"@, WireDatum::Text(response_data@)),
        ],
        JsToBevyEvent::UserGesture { request_id, timestamp_us } => seq![
            ("type"@, WireDatum::Text("UserGesture"@)),
            ("request_id"@, WireDatum::Text(request_id@)),
            ("timestamp"@, WireDatum::Number(timestamp_us as int)),
        ],
        JsToBevyEvent::SettingsUpdated { request_id, settings } => seq![
            ("type"@, WireDatum::Text("SettingsUpdated"@)),
            ("request_id"@, WireDatum::Text(request_id@)),
            ("settings.music_enabled"@, WireDatum::Bool(settings.music_enabled)),
            ("settings.bgm_volume"@, WireDatum::Number(settings.bgm_volume as int)),
            ("settings.sfx_volume"@, WireDatum::Number(settings.sfx_volume as int)),
        ],
    }
}

/// `f` is the wire form of some event of the host page.
pub open spec fn inbound_wf(f: Seq<(Seq<char>, WireDatum)>) -> bool {
    let m = u32::MAX as int;
    match text_of(f, "type"@) {
        Some(t) => if t == "AudioCompleted"@ {
            text_of(f, "request_id"@) is Some && bool_of(f, "success"@) is Some
                && opt_text_of(f, "error_message"@) is Some && opt_nat_of(f, "duration_seconds"@, m) is Some
        } else if t == "BluetoothScanCompleted"@ {
            text_of(f, "request_id"@) is Some && bool_of(f, "success"@) is Some
                && list_of(f, "devices_found"@) is Some && opt_text_of(f, "error_message"@) is Some
        } else if t == "TestEventResponse"@ {
            text_of(f, "request_id"@) is Some && text_of(f, "response_data"@) is Some
        } else if t == "UserGesture"@ {
            text_of(f, "request_id"@) is Some && nat_of(f, "timestamp"@, i64::MAX as int) is Some
        } else if t == "SettingsUpdated"@ {
            text_of(f, "request_id"@) is Some && bool_of(f, "settings.music_enabled"@) is Some
                && nat_of(f, "settings.bgm_volume"@, m) is Some && nat_of(f, "settings.sfx_volume"@, m) is Some
        } else {
            false
        },
        None => false,
    }
}

/// `d` is what `f` decodes to.
pub open spec fn inbound_decodes(f: Seq<(Seq<char>, WireDatum)>, d: JsToBevyEvent) -> bool {
    let m = u32::MAX as int;
    match d {
        JsToBevyEvent::AudioCompleted { request_id, success, error_message, duration_ms } =>
            text_of(f, "type"@) == Some("AudioCompleted"@)
                && text_of(f, "request_id"@) == Some(request_id@)
                && bool_of(f, "success"@) == Some(success)
                && opt_text_of(f, "error_message"@) == Some(opt_view(error_message))
                && opt_nat_of(f, "duration_seconds"@, m) == Some(opt_nat_view(duration_ms)),
        JsToBevyEvent::BluetoothScanCompleted { request_id, success, devices_found, error_message } =>
            text_of(f, "type"@) == Some("BluetoothScanCompleted"@)
                && text_of(f, "request_id"@) == Some(request_id@)
                && bool_of(f, "success"@) == Some(success)
                && list_of(f, "devices_found"@) == Some(text_list_view(devices_found))
                && opt_text_of(f, "error_message"@) == Some(opt_view(error_message)),
        JsToBevyEvent::TestEventResponse { request_id, response_data } =>
            text_of(f, "type"@) == Some("TestEventResponse"@)
                && text_of(f, "request_id"@) == Some(request_id@)
                && text_of(f, "response_data"@) == Some(response_data@),
        JsToBevyEvent::UserGesture { request_id, timestamp_us } =>
            text_of(f, "type"@) == Some("UserGesture"@)
                && text_of(f, "request_id"@) == Some(request_id@)
                && nat_of(f, "timestamp"@, i64::MAX as int) == Some(timestamp_us as int),
        JsToBevyEvent::SettingsUpdated { request_id, settings } =>
            text_of(f, "type"@) == Some("SettingsUpdated"@)
                && text_of(f, "request_id"@) == Some(request_id@)
                && bool_of(f, "settings.music_enabled"@) == Some(settings.music_enabled)
                && nat_of(f, "settings.bgm_volume"@, m) == Some(settings.bgm_volume as int)
                && nat_of(f, "settings.sfx_volume"@, m) == Some(settings.sfx_volume as int),
    }
}

/// Two events of the host page say the same thing.
pub open spec fn same_inbound(a: JsToBevyEvent, b: JsToBevyEvent) -> bool {
    match (a, b) {
        (JsToBevyEvent::AudioCompleted { request_id: i1, success: s1, error_message: e1, duration_ms: d1 },
         JsToBevyEvent::AudioCompleted { request_id: i2, success: s2, error_message: e2, duration_ms: d2 }) =>
            i1@ == i2@ && s1 == s2 && opt_view(e1) == opt_view(e2) && d1 == d2,
        (JsToBevyEvent::BluetoothScanCompleted { request_id: i1, success: s1, devices_found: l1, error_message: e1 },
         JsToBevyEvent::BluetoothScanCompleted { request_id: i2, success: s2, devices_found: l2, error_message: e2 }) =>
            i1@ == i2@ && s1 == s2 && text_list_view(l1) == text_list_view(l2) && opt_view(e1) == opt_view(e2),
        (JsToBevyEvent::TestEventResponse { request_id: i1, response_data: r1 },
         JsToBevyEvent::TestEventResponse { request_id: i2, response_data: r2 }) =>
            i1@ == i2@ && r1@ == r2@,
        (JsToBevyEvent::UserGesture { request_id: i1, timestamp_us: t1 },
         JsToBevyEvent::UserGesture { request_id: i2, timestamp_us: t2 }) =>
            i1@ == i2@ && t1 == t2,
        (JsToBevyEvent::SettingsUpdated { request_id: i1, settings: c1 },
         JsToBevyEvent::SettingsUpdated { request_id: i2, settings: c2 }) =>
            i1@ == i2@ && c1 == c2,
        _ => false,
    }
}

/// A gesture's timestamp fits a wire number.
pub open spec fn inbound_encodable(m: JsToBevyEvent) -> bool {
    match m {
        JsToBevyEvent::UserGesture { timestamp_us, .. } => timestamp_us <= i64::MAX,
        _ => true,
    }
}

/// The wire form of an event of the host page (see `inbound_fields`).
pub fn encode_inbound(m: &JsToBevyEvent) -> (r: WireMessage)
    requires
        inbound_encodable(*m),
    ensures
        r@ == inbound_fields(*m),
{
    let mut r = WireMessage::new();
    match m {
        JsToBevyEvent::AudioCompleted { request_id, success, error_message, duration_ms } => {
            r.push("type", WireValue::Text(String::from_str("AudioCompleted")));
            r.push("request_id", text_value(request_id));
            r.push("success", WireValue::Bool(*success));
            r.push("error_message", opt_text_value(error_message));
            r.push("duration_seconds", opt_number_value(*duration_ms));
        },
        JsToBevyEvent::BluetoothScanCompleted { request_id, success, devices_found, error_message } => {
            r.push("type", WireValue::Text(String::from_str("BluetoothScanCompleted")));
            r.push("request_id", text_value(request_id));
            r.push("success", WireValue::Bool(*success));
            let l = copy_text_list(devices_found);
            r.push("devices_found", WireValue::TextList(l));
            r.push("error_message", opt_text_value(error_message));
        },
        JsToBevyEvent::TestEventResponse { request_id, response_data } => {
            r.push("type", WireValue::Text(String::from_str("TestEventResponse")));
            r.push("request_id", text_value(request_id));
            r.push("response_data", text_value(response_data));
        },
        JsToBevyEvent::UserGesture { request_id, timestamp_us } => {
            r.push("type", WireValue::Text(String::from_str("UserGesture")));
            r.push("request_id", text_value(request_id));
            r.push("timestamp", WireValue::Number(*timestamp_us as i64));
        },
        JsToBevyEvent::SettingsUpdated { request_id, settings } => {
            r.push("type", WireValue::Text(String::from_str("SettingsUpdated")));
            r.push("request_id", text_value(request_id));
            r.push("settings.music_enabled", WireValue::Bool(settings.music_enabled));
            r.push("settings.bgm_volume", WireValue::Number(settings.bgm_volume as i64));
            r.push("settings.sfx_volume", WireValue::Number(settings.sfx_volume as i64));
        },
    }
    assert(r@ =~= inbound_fields(*m));
    r
}

/// Reads an event of the host page; it fails exactly when `msg` is not the
/// wire form of one.
pub fn decode_inbound(msg: &WireMessage) -> (r: Result<JsToBevyEvent, DecodeError>)
    ensures
        r is Ok == inbound_wf(msg@),
        match r {
            Ok(d) => inbound_decodes(msg@, d),
            Err(_) => true,
        },
{
    let tag = match msg.text("type") {
        Ok(t) => t,
        Err(_) => { return Err(DecodeError::UnknownType); },
    };
    if same_text(tag.as_str(), "AudioCompleted") {
        let request_id = msg.text("request_id")?;
        let success = msg.boolean("success")?;
        let error_message = msg.opt_text("error_message")?;
        let duration_ms = msg.opt_number_u32("duration_seconds")?;
        Ok(JsToBevyEvent::AudioCompleted { request_id, success, error_message, duration_ms })
    } else if same_text(tag.as_str(), "BluetoothScanCompleted") {
        let request_id = msg.text("request_id")?;
        let success = msg.boolean("success")?;
        let devices_found = msg.text_list("devices_found")?;
        let error_message = msg.opt_text("error_message")?;
        Ok(JsToBevyEvent::BluetoothScanCompleted { request_id, success, devices_found, error_message })
    } else if same_text(tag.as_str(), "TestEventResponse") {
        let request_id = msg.text("request_id")?;
        let response_data = msg.text("response_data")?;
        Ok(JsToBevyEvent::TestEventResponse { request_id, response_data })
    } else if same_text(tag.as_str(), "UserGesture") {
        let request_id = msg.text("request_id")?;
        let timestamp_us = msg.number_u64("timestamp")?;
        Ok(JsToBevyEvent::UserGesture { request_id, timestamp_us })
    } else if same_text(tag.as_str(), "SettingsUpdated") {
        let request_id = msg.text("request_id")?;
        let music_enabled = msg.boolean("settings.music_enabled")?;
        let bgm_volume = msg.number_u32("settings.bgm_volume")?;
        let sfx_volume = msg.number_u32("settings.sfx_volume")?;
        Ok(JsToBevyEvent::SettingsUpdated {
            request_id,
            settings: SharedSettings { music_enabled, bgm_volume, sfx_volume },
        })
    } else {
        Err(DecodeError::UnknownType)
    }
}

proof fn lemma_inbound_literals()
    ensures
        "type"@ != "request_id"@, "type"@ != "success"@, "type"@ != "error_message"@,
        "type"@ != "duration_seconds"@, "type"@ != "devices_found"@, "type"@ != "response_data"@,
        "type"@ != "timestamp"@, "type"@ != "settings.music_enabled"@, "type"@ != "settings.bgm_volume"@,
        "type"@ != "settings.sfx_volume"@,
        "request_id"@ != "success"@, "request_id"@ != "error_message"@, "request_id"@ != "duration_seconds"@,
        "request_id"@ != "devices_found"@, "request_id"@ != "response_data"@, "request_id"@ != "timestamp"@,
        "request_id"@ != "settings.music_enabled"@, "request_id"@ != "settings.bgm_volume"@,
        "request_id"@ != "settings.sfx_volume"@,
        "success"@ != "error_message"@, "success"@ != "duration_seconds"@, "success"@ != "devices_found"@,
        "error_message"@ != "duration_seconds"@, "devices_found"@ != "error_message"@,
        "settings.music_enabled"@ != "settings.bgm_volume"@, "settings.music_enabled"@ != "settings.sfx_volume"@,
        "settings.bgm_volume"@ != "settings.sfx_volume"@,
        "AudioCompleted"@ != "BluetoothScanCompleted"@, "AudioCompleted"@ != "TestEventResponse"@,
        "AudioCompleted"@ != "UserGesture"@, "AudioCompleted"@ != "SettingsUpdated"@,
        "BluetoothScanCompleted"@ != "TestEventResponse"@, "BluetoothScanCompleted"@ != "UserGesture"@,
        "BluetoothScanCompleted"@ != "SettingsUpdated"@, "TestEventResponse"@ != "UserGesture"@,
        "TestEventResponse"@ != "SettingsUpdated"@, "UserGesture"@ != "SettingsUpdated"@,
{
    reveal_strlit("type");
    reveal_strlit("request_id");
    reveal_strlit("success");
    reveal_strlit("error_message");
    reveal_strlit("duration_seconds");
    reveal_strlit("devices_found");
    reveal_strlit("response_data");
    reveal_strlit("timestamp");
    reveal_strlit("settings.music_enabled");
    reveal_strlit("settings.bgm_volume");
    reveal_strlit("settings.sfx_volume");
    reveal_strlit("AudioCompleted");
    reveal_strlit("BluetoothScanCompleted");
    reveal_strlit("TestEventResponse");
    reveal_strlit("UserGesture");
    reveal_strlit("SettingsUpdated");
    assert("type"@.len() == 4);
    assert("request_id"@.len() == 10);
    assert("success"@.len() == 7);
    assert("error_message"@.len() == 13);
    assert("duration_seconds"@.len() == 16);
    assert("devices_found"@.len() == 13);
    assert("response_data"@.len() == 13);
    assert("timestamp"@.len() == 9);
    assert("settings.music_enabled"@.len() == 22);
    assert("settings.bgm_volume"@.len() == 19);
    assert("settings.sfx_volume"@.len() == 19);
    assert("error_message"@[0] != "devices_found"@[0]);
    assert("settings.bgm_volume"@[9] != "settings.sfx_volume"@[9]);
    assert("AudioCompleted"@.len() == 14);
    assert("BluetoothScanCompleted"@.len() == 22);
    assert("TestEventResponse"@.len() == 17);
    assert("UserGesture"@.len() == 11);
    assert("SettingsUpdated"@.len() == 15);
}

/// Decoding the wire form of an event of the host page gives that event back.
pub proof fn lemma_inbound_round_trip(m: JsToBevyEvent, d: JsToBevyEvent)
    requires
        inbound_encodable(m),
    ensures
        inbound_wf(inbound_fields(m)),
        inbound_decodes(inbound_fields(m), d) ==> same_inbound(m, d),
{
    lemma_inbound_literals();
    reveal_with_fuel(field_of, 6);
    let f = inbound_fields(m);
    let mx = u32::MAX as int;
    match m {
        JsToBevyEvent::AudioCompleted { request_id, success, error_message, duration_ms } => {
            assert(text_of(f, "type"@) == Some("AudioCompleted"@));
            assert(text_of(f, "request_id"@) == Some(request_id@));
            assert(bool_of(f, "success"@) == Some(success));
            assert(opt_text_of(f, "error_message"@) == Some(opt_view(error_message)));
            assert(opt_nat_of(f, "duration_seconds"@, mx) == Some(opt_nat_view(duration_ms)));
            if inbound_decodes(f, d) {
                if let JsToBevyEvent::AudioCompleted { duration_ms: d2, .. } = d {
                    assert(opt_nat_view(d2) == opt_nat_view(duration_ms));
                    assert(d2 == duration_ms);
                }
            }
        },
        JsToBevyEvent::BluetoothScanCompleted { request_id, success, devices_found, error_message } => {
            assert(text_of(f, "type"@) == Some("BluetoothScanCompleted"@));
            assert(text_of(f, "request_id"@) == Some(request_id@));
            assert(bool_of(f, "success"@) == Some(success));
            assert(list_of(f, "devices_found"@) == Some(text_list_view(devices_found)));
            assert(opt_text_of(f, "error_message"@) == Some(opt_view(error_message)));
        },
        JsToBevyEvent::TestEventResponse { request_id, response_data } => {
            assert(text_of(f, "type"@) == Some("TestEventResponse"@));
            assert(text_of(f, "request_id"@) == Some(request_id@));
            assert(text_of(f, "response_data"@) == Some(response_data@));
        },
        JsToBevyEvent::UserGesture { request_id, timestamp_us } => {
            assert(text_of(f, "type"@) == Some("UserGesture"@));
            assert(text_of(f, "request_id"@) == Some(request_id@));
            assert(nat_of(f, "timestamp"@, i64::MAX as int) == Some(timestamp_us as int));
        },
        JsToBevyEvent::SettingsUpdated { request_id, settings } => {
            assert(text_of(f, "type"@) == Some("SettingsUpdated"@));
            assert(text_of(f, "request_id"@) == Some(request_id@));
            assert(bool_of(f, "settings.music_enabled"@) == Some(settings.music_enabled));
            assert(nat_of(f, "settings.bgm_volume"@, mx) == Some(settings.bgm_volume as int));
            assert(nat_of(f, "settings.sfx_volume"@, mx) == Some(settings.sfx_volume as int));
        },
    }
}

} // verus!
