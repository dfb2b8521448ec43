use esp_now_gateway::mac::{format_mac, same_address, MacAddr};
use esp_now_gateway::topic::{command_topic, state_topic};

#[test]
fn mac_text_has_two_lower_case_digits_per_byte() {
    assert_eq!(format_mac(&[0x00, 0x0a, 0xbc, 0xde, 0xf0, 0xff]), "00:0a:bc:de:f0:ff");
    let mac: MacAddr = [1, 2, 3, 4, 5, 6].into();
    assert_eq!(mac.to_string(), "01:02:03:04:05:06");
}

#[test]
fn every_hexadecimal_digit_is_rendered() {
    assert_eq!(format_mac(&[0x01, 0x23, 0x45, 0x67, 0x89, 0xab]), "01:23:45:67:89:ab");
    assert_eq!(format_mac(&[0xcd, 0xef, 0x10, 0x32, 0x54, 0x76]), "cd:ef:10:32:54:76");
}

#[test]
fn addresses_are_compared_byte_for_byte() {
    let left: MacAddr = [1, 2, 3, 4, 5, 6].into();
    let right: MacAddr = [1, 2, 3, 4, 5, 7].into();
    assert!(left == left);
    assert!(left != right);
    assert!(left.to_string() != right.to_string());
    assert!(same_address(&[9; 6], &[9; 6]));
    assert!(!same_address(&[9; 6], &[8, 9, 9, 9, 9, 9]));
}

#[test]
fn topics_follow_the_address() {
    let mac: MacAddr = [0xaa, 0xbb, 0xcc, 0, 1, 2].into();
    assert_eq!(state_topic(&mac), "aa:bb:cc:00:01:02/state");
    assert_eq!(command_topic(&mac), "aa:bb:cc:00:01:02/set");
}
