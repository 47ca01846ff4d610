use tring::device::{AudioDevice, JString, RString, TringDevice, EMPTY_DEVICE_INDEX};

#[test]
fn empty_device_record() {
    let d = TringDevice::empty();
    assert_eq!(d.index, 99);
    assert_eq!(d.index, EMPTY_DEVICE_INDEX);
    assert_eq!(d.name.as_str(), "empty");
    assert_eq!(d.unique_id.as_str(), "empty");
    assert_eq!(d.int_key.as_str(), "empty");
}

#[test]
fn device_from_fields() {
    let d = TringDevice::from_fields(2, "Mic".to_string(), "uid-2".to_string(), "key.mic".to_string());
    assert_eq!(d.index, 2);
    assert_eq!(d.name.as_str(), "Mic");
    assert_eq!(d.unique_id.as_str(), "uid-2");
    assert_eq!(d.int_key.as_str(), "key.mic");
}

#[test]
fn device_from_audio_device() {
    let src = AudioDevice {
        name: "Speakers".to_string(),
        unique_id: "spk".to_string(),
        i18n_key: "default_communication_device".to_string(),
    };
    let d = TringDevice::from_audio_device(5, src);
    assert_eq!(d.index, 5);
    assert_eq!(d.name.as_str(), "Speakers");
    assert_eq!(d.unique_id.as_str(), "spk");
    assert_eq!(d.int_key.as_str(), "default_communication_device");
}

#[test]
fn strings_are_copied() {
    assert_eq!(RString::from_string("héllo".to_string()).as_str(), "héllo");
    assert_eq!(JString::new("peer-1".to_string()).to_string(), "peer-1");
}
