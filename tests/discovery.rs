use turntable_relay::discovery::{contains, is_device_line, select_device, starts_with};

fn lines(text: &str) -> Vec<Vec<u8>> {
    text.lines().map(|l| l.trim().as_bytes().to_vec()).collect()
}

#[test]
fn byte_search() {
    assert!(starts_with(b"bluealsa:DEV=x", b"bluealsa:"));
    assert!(!starts_with(b"blue", b"bluealsa"));
    assert!(starts_with(b"abc", b""));
    assert!(contains(b"xxPROFILE=a2dpyy", b"PROFILE=a2dp"));
    assert!(!contains(b"PROFILE=sco", b"PROFILE=a2dp"));
    assert!(contains(b"abc", b""));
    assert!(!contains(b"ab", b"abc"));
}

#[test]
fn auto_discovery_takes_first_a2dp_entry() {
    let listing = lines(
        "bluealsa:DEV=11:22:33:44:55:66,PROFILE=sco,SRV=org.bluealsa\n  bluealsa:DEV=F4:04:4C:1A:E5:B9,PROFILE=a2dp,SRV=org.bluealsa  \nbluealsa:DEV=AA:BB:CC:DD:EE:FF,PROFILE=a2dp\n",
    );
    assert_eq!(select_device(&listing, None), Some(1));
    assert_eq!(
        listing[1],
        b"bluealsa:DEV=F4:04:4C:1A:E5:B9,PROFILE=a2dp,SRV=org.bluealsa".to_vec()
    );
}

#[test]
fn wanted_address_selects_its_entry() {
    let listing = lines(
        "hci0: something else\nbluealsa:DEV=11:22:33:44:55:66,PROFILE=sco\nbluealsa:DEV=AA:BB:CC:DD:EE:FF,PROFILE=a2dp\n",
    );
    assert_eq!(select_device(&listing, Some(b"11:22:33:44:55:66")), Some(1));
    assert_eq!(select_device(&listing, Some(b"00:00:00:00:00:00")), None);
}

#[test]
fn lines_without_the_pcm_prefix_are_skipped() {
    assert!(!is_device_line(b"PROFILE=a2dp bluealsa:DEV=", None));
    assert!(is_device_line(b"bluealsa:DEV=1,PROFILE=a2dp", None));
    assert_eq!(select_device(&Vec::new(), None), None);
}
