use vstd::prelude::*;

verus! {

/// A string the host handed in, held as an owned copy.
#[derive(Clone, Debug, PartialEq, Eq)]
pub struct JString {
    text: String,
}

impl View for JString {
    type V = Seq<char>;

    closed spec fn view(&self) -> Seq<char> {
        self.text@
    }
}

impl JString {
    pub fn new(text: String) -> (r: JString)
        ensures
            r@ == text@,
    {
        JString { text }
    }

    /// A copy of the string.
    pub fn to_string(&self) -> (r: String)
        ensures
            r@ == self@,
    {
        self.text.clone()
    }
}

/// A string handed out to the host.
#[derive(Clone, Debug, PartialEq, Eq)]
pub struct RString {
    text: String,
}

impl View for RString {
    type V = Seq<char>;

    closed spec fn view(&self) -> Seq<char> {
        self.text@
    }
}

impl RString {
    pub fn from_string(src: String) -> (r: RString)
        ensures
            r@ == src@,
    {
        RString { text: src }
    }

    pub fn as_str(&self) -> (r: &str)
        ensures
            r@ == self@,
    {
        self.text.as_str()
    }
}

/// An audio device as the media layer lists it.
#[derive(Clone, Debug, PartialEq, Eq)]
pub struct AudioDevice {
    pub name: String,
    pub unique_id: String,
    pub i18n_key: String,
}

/// Index placeholder of a device record that describes no device.
pub const EMPTY_DEVICE_INDEX: u32 = 99;

/// An audio device as the host is told of it.
#[derive(Clone, Debug, PartialEq, Eq)]
pub struct TringDevice {
    pub index: u32,
    pub name: RString,
    pub unique_id: RString,
    pub int_key: RString,
}

impl TringDevice {
    /// A record that describes no device: index `EMPTY_DEVICE_INDEX` and
    /// every string "empty".
    pub fn empty() -> (r: TringDevice)
        ensures
            r.index == EMPTY_DEVICE_INDEX,
            r.name@ == "empty"@,
            r.unique_id@ == "empty"@,
            r.int_key@ == "empty"@,
    {
        let name = RString::from_string("empty".to_string());
        let unique_id = RString::from_string("empty".to_string());
        let int_key = RString::from_string("empty".to_string());
        TringDevice { index: EMPTY_DEVICE_INDEX, name, unique_id, int_key }
    }

    pub fn from_audio_device(index: u32, src: AudioDevice) -> (r: TringDevice)
        ensures
            r.index == index,
            r.name@ == src.name@,
            r.unique_id@ == src.unique_id@,
            r.int_key@ == src.i18n_key@,
    {
        TringDevice {
            index,
            name: RString::from_string(src.name),
            unique_id: RString::from_string(src.unique_id),
            int_key: RString::from_string(src.i18n_key),
        }
    }

    pub fn from_fields(
        index: u32,
        src_name: String,
        src_unique_id: String,
        src_i18n_key: String,
    ) -> (r: TringDevice)
        ensures
            r.index == index,
            r.name@ == src_name@,
            r.unique_id@ == src_unique_id@,
            r.int_key@ == src_i18n_key@,
    {
        TringDevice {
            index,
            name: RString::from_string(src_name),
            unique_id: RString::from_string(src_unique_id),
            int_key: RString::from_string(src_i18n_key),
        }
    }
}

} // verus!
