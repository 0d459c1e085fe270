use lunara::collect::{
    active_ssid, charging_from_status, collect_system_status, get_battery, get_wifi, is_battery_name,
    parse_u8, volume_is_muted, SystemStatus,
};

fn original_ssid(list: &str) -> Option<String> {
    for line in list.lines() {
        if let Some(rest) = line.strip_prefix("yes:") {
            let ssid = rest.trim().to_string();
            return if ssid.is_empty() { None } else { Some(ssid) };
        }
    }
    None
}

#[test]
fn wifi_disabled_or_unknown() {
    assert_eq!(get_wifi(Some("disabled".to_string()), Some("yes:home".to_string())), (false, None));
    assert_eq!(get_wifi(None, Some("yes:home".to_string())), (false, None));
}

#[test]
fn wifi_active_network() {
    let list = "no:neighbour\nyes:home net\nyes:other";
    assert_eq!(get_wifi(Some("enabled".to_string()), Some(list.to_string())), (true, Some("home net".to_string())));
    assert_eq!(get_wifi(Some("enabled".to_string()), None), (true, None));
    assert_eq!(get_wifi(Some("enabled".to_string()), Some("yes:   ".to_string())), (true, None));
}

#[test]
fn ssid_parsing_agrees_with_lines() {
    let samples = [
        "", "yes:", "yes:a", "no:x\nyes:b\r\n", "xyes:c", "no:yes:d", "\nyes:e", "yes:f\r", "no\n\nyes: g \n",
        "yes:\u{3000}h\u{3000}", "ye", "no:a\r\nyes:b\r\nyes:c",
    ];
    for s in samples {
        assert_eq!(active_ssid(s), original_ssid(s), "{s:?}");
    }
}

#[test]
fn parse_u8_agrees_with_std() {
    let samples = [
        "", "0", "7", "42", "255", "256", "1000", "+5", "+", "-", "-0", "-5", "007", " 5", "5 ", "a", "4a",
        "٣", "99999999999999999999", "+255", "+256", "00000000000255",
    ];
    for s in samples {
        assert_eq!(parse_u8(s), s.parse::<u8>().ok(), "{s:?}");
    }
}

#[test]
fn battery_reading() {
    assert_eq!(get_battery(Some(" 87\n".to_string()), Some("Charging\n".to_string())), (Some(87), Some(true)));
    assert_eq!(get_battery(Some("x".to_string()), Some("Discharging".to_string())), (None, Some(false)));
    assert_eq!(get_battery(None, None), (None, None));
    assert!(charging_from_status(" FULL "));
    assert!(!charging_from_status("Not charging"));
    assert!(is_battery_name("BAT1"));
    assert!(!is_battery_name("AC"));
}

#[test]
fn muted_detection() {
    assert!(volume_is_muted("Volume: 0.40 [MUTED]"));
    assert!(volume_is_muted("volume: 0.40 [muted]"));
    assert!(!volume_is_muted("Volume: 0.40"));
}

#[test]
fn status_snapshot_and_updates() {
    let mut s = SystemStatus::default();
    assert_eq!(s.volume_percent, 0);
    assert!(!s.update_volume(0, false));
    assert!(s.update_volume(40, false));
    assert!(s.update_volume(40, true));
    assert!(!s.update_volume(40, true));
    assert!(s.update_wifi(true, Some("home".to_string())));
    assert!(!s.update_wifi(true, Some("home".to_string())));
    assert!(s.update_wifi(true, None));
    assert!(s.update_battery(Some(80), Some(false)));
    assert!(!s.update_battery(Some(80), Some(false)));
    assert!(s.update_battery(None, Some(false)));
    let c = collect_system_status((55, true), (Some(10), None), (true, Some("x".to_string())));
    assert_eq!(c.volume_percent, 55);
    assert!(c.muted);
    assert_eq!(c.battery_percent, Some(10));
    assert_eq!(c.charging, None);
    assert!(c.wifi_up);
    assert_eq!(c.ssid.as_deref(), Some("x"));
}

fn snapshot(s: &SystemStatus) -> (u8, bool, Option<u8>, Option<bool>, bool, Option<String>) {
    (s.volume_percent, s.muted, s.battery_percent, s.charging, s.wifi_up, s.ssid.clone())
}

#[test]
fn monitor_emits_only_changes() {
    let start = SystemStatus::default();
    let mut s = SystemStatus::default();
    let mut emitted = Vec::new();
    for step in 0..12u8 {
        let before = snapshot(&s);
        let changed = match step % 3 {
            0 => s.update_volume(step / 4 * 10, false),
            1 => s.update_wifi(step > 6, if step > 8 { Some("net".to_string()) } else { None }),
            _ => s.update_battery(Some(50), Some(step > 5)),
        };
        assert_eq!(changed, snapshot(&s) != before);
        if changed {
            emitted.push(snapshot(&s));
        }
    }
    assert!(!emitted.is_empty());
    assert_ne!(emitted[0], snapshot(&start));
    for w in emitted.windows(2) {
        assert_ne!(w[0], w[1]);
    }
    assert_eq!(emitted.last().cloned(), Some(snapshot(&s)));
}
