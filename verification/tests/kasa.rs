use emitter_and_signal::kasa::CommunicationErrorKind;
use emitter_and_signal::kasa::GetSysInfo;
use emitter_and_signal::kasa::Off;
use emitter_and_signal::kasa::On;
use emitter_and_signal::kasa::SetLightLastOn;
use emitter_and_signal::kasa::SetLightOff;
use emitter_and_signal::kasa::SetLightStateResponse;
use emitter_and_signal::kasa::XorEncryption;
use emitter_and_signal::kasa::into_encrypted;
use emitter_and_signal::kasa::should_try_reconnecting;

#[test]
fn encrypt_chains_from_the_key() {
    let mut bytes = vec![0x01u8, 0x02, 0x03];
    XorEncryption::<171>::encrypt_in_place(&mut bytes);
    // 171 ^ 1 = 170; 170 ^ 2 = 168; 168 ^ 3 = 171.
    assert_eq!(bytes, vec![170, 168, 171]);
}

#[test]
fn decrypt_inverts_encrypt() {
    let original = vec![0x42u8, 0x00, 0xff, 0x10, 0x10];
    let mut bytes = original.clone();
    XorEncryption::<171>::encrypt_in_place(&mut bytes);
    assert_ne!(bytes, original);
    XorEncryption::<171>::decrypt_in_place(&mut bytes);
    assert_eq!(bytes, original);
}

#[test]
fn decrypt_with_other_key_differs() {
    let original = vec![0x42u8, 0x07];
    let mut bytes = original.clone();
    XorEncryption::<171>::encrypt_in_place(&mut bytes);
    XorEncryption::<170>::decrypt_in_place(&mut bytes);
    assert_ne!(bytes, original);
}

#[test]
fn framing_prefixes_the_length_big_endian() {
    let framed = into_encrypted(vec![0x01, 0x02]);
    assert_eq!(framed, vec![0, 0, 0, 2, 170, 168]);
}

#[test]
fn framing_an_empty_message() {
    let framed = into_encrypted(Vec::new());
    assert_eq!(framed, vec![0, 0, 0, 0]);
}

#[test]
fn framing_a_long_message_carries_both_length_bytes() {
    let framed = into_encrypted(vec![0u8; 300]);
    assert_eq!(framed.len(), 304);
    assert_eq!(&framed[..4], &[0, 0, 1, 44]);
}

#[test]
fn power_markers_have_fixed_wire_bytes() {
    assert_eq!(Off.wire_byte(), 0);
    assert_eq!(On.wire_byte(), 1);
    assert_eq!(Off::from_wire(0), Some(Off));
    assert_eq!(On::from_wire(1), Some(On));
    // Any other byte is rejected.
    assert_eq!(Off::from_wire(1), None);
    assert_eq!(On::from_wire(0), None);
    assert_eq!(Off::from_wire(2), None);
    assert_eq!(On::from_wire(255), None);
}

#[test]
fn only_transport_failures_warrant_reconnecting() {
    assert!(should_try_reconnecting(&CommunicationErrorKind::Write));
    assert!(should_try_reconnecting(&CommunicationErrorKind::Read));
    assert!(!should_try_reconnecting(&CommunicationErrorKind::Serialize));
    assert!(!should_try_reconnecting(&CommunicationErrorKind::Deserialize));
    assert!(!should_try_reconnecting(&CommunicationErrorKind::WrongDevice));
}

#[test]
fn request_markers_are_carried_as_is() {
    let off = SetLightOff { on_off: Off };
    let on = SetLightLastOn { on_off: On };
    assert_eq!(off.on_off.wire_byte(), 0);
    assert_eq!(on.on_off.wire_byte(), 1);
    let _request = GetSysInfo;
    let _response = SetLightStateResponse;
}
