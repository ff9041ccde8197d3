use bluetooth_tray::device::{
    get_bluetooth_devices, is_device_connected, mark_connected, parse_device_line,
    with_connection, BluetoothDevice,
};
use bluetooth_tray::text::{chars_of, contains, contains_chars, find_from, lines, starts_with};

fn device(mac: &str, name: &str, connected: bool, paired: bool) -> BluetoothDevice {
    BluetoothDevice { mac: mac.to_string(), name: name.to_string(), connected, paired }
}

#[test]
fn well_formed_line_gives_address_and_name() {
    let d = parse_device_line("Device AA:BB:CC:DD:EE:FF Some Name", true);
    assert_eq!(d, Some(device("AA:BB:CC:DD:EE:FF", "Some Name", false, true)));
}

#[test]
fn paired_flag_is_taken_from_the_caller() {
    let d = parse_device_line("Device AA:BB:CC:DD:EE:FF Phone", false).unwrap();
    assert!(!d.paired);
    assert!(!d.connected);
    assert_eq!(d.mac, "AA:BB:CC:DD:EE:FF");
    assert_eq!(d.name, "Phone");
}

#[test]
fn name_keeps_its_spaces_verbatim() {
    let d = parse_device_line("Device 00:11:22:33:44:55 My  Big   Speaker ", true).unwrap();
    assert_eq!(d.mac, "00:11:22:33:44:55");
    assert_eq!(d.name, "My  Big   Speaker ");
}

#[test]
fn name_may_hold_characters_beyond_ascii() {
    let d = parse_device_line("Device 00:11:22:33:44:55 Caf\u{e9} \u{1F3A7} buds", true).unwrap();
    assert_eq!(d.mac, "00:11:22:33:44:55");
    assert_eq!(d.name, "Caf\u{e9} \u{1F3A7} buds");
}

#[test]
fn lines_without_the_prefix_give_no_device() {
    assert_eq!(parse_device_line("", true), None);
    assert_eq!(parse_device_line("Controller AA:BB:CC:DD:EE:FF host [default]", true), None);
    assert_eq!(parse_device_line("device AA:BB:CC:DD:EE:FF Phone", true), None);
    assert_eq!(parse_device_line(" Device AA:BB:CC:DD:EE:FF Phone", true), None);
    assert_eq!(parse_device_line("Device", true), None);
    assert_eq!(parse_device_line("Devic", true), None);
    assert_eq!(parse_device_line("Devices AA:BB:CC:DD:EE:FF Phone", true), None);
}

#[test]
fn line_with_fewer_than_three_tokens_gives_no_device() {
    assert_eq!(parse_device_line("Device AA:BB:CC:DD:EE:FF", true), None);
    assert_eq!(parse_device_line("Device ", true), None);
}

#[test]
fn empty_address_or_empty_name_gives_no_device() {
    assert_eq!(parse_device_line("Device  Phone", true), None);
    assert_eq!(parse_device_line("Device AA:BB:CC:DD:EE:FF ", true), None);
    assert_eq!(parse_device_line("Device AA:BB:CC:DD:EE:FF \t ", true), None);
    assert_eq!(parse_device_line("Device    ", true), None);
    assert_eq!(parse_device_line("Device \tPhone\u{a0}", true), None);
}

#[test]
fn any_white_space_sets_tokens_apart() {
    assert_eq!(parse_device_line("Device\tAA:BB Phone", true), None);
    assert_eq!(
        parse_device_line("Device AA:BB\tPhone name", true),
        Some(device("AA:BB", "Phone name", false, true))
    );
    assert_eq!(
        parse_device_line("Device AA:BB\u{3000}Phone", false),
        Some(device("AA:BB", "Phone", false, false))
    );
}

#[test]
fn white_space_before_the_address_is_passed_over() {
    assert_eq!(
        parse_device_line("Device   AA:BB Phone", true),
        Some(device("AA:BB", "Phone", false, true))
    );
    assert_eq!(
        parse_device_line("Device \t AA:BB My Phone", true),
        Some(device("AA:BB", "My Phone", false, true))
    );
}

#[test]
fn name_is_all_behind_the_one_separator() {
    assert_eq!(
        parse_device_line("Device AA:BB  Phone ", true),
        Some(device("AA:BB", " Phone ", false, true))
    );
    assert_eq!(
        parse_device_line("Device AA:BB \tx", true),
        Some(device("AA:BB", "\tx", false, true))
    );
}

#[test]
fn device_is_given_exactly_for_prefix_and_three_tokens() {
    let samples = [
        "",
        "Device",
        "Device ",
        "Device  ",
        "Device A",
        "Device A ",
        "Device A B",
        "Device  A B",
        "Device  A  B",
        "Device A\tB",
        "Device\tA B",
        "Device A\u{a0}B",
        "Device \u{2003} A",
        "Device \u{2003} A \u{2003}",
        "Device \u{2003} A \u{2003}B",
        "Device AA:BB:CC:DD:EE:FF Some Name",
        "Devices A B C",
        " Device A B",
        "device A B",
        "Controller A B",
        "Device A\u{200b}B",
        "Device A\u{200b}B C",
    ];
    for line in samples {
        let expected = line.starts_with("Device ") && line.split_whitespace().count() >= 3;
        let parsed = parse_device_line(line, true);
        assert_eq!(parsed.is_some(), expected);
        if let Some(d) = parsed {
            assert_eq!(d.mac, line.split_whitespace().nth(1).unwrap());
            assert!(line.ends_with(&d.name));
            assert!(d.paired);
            assert!(!d.connected);
        }
    }
}

#[test]
fn white_space_is_what_the_standard_library_calls_so() {
    for u in 0u32..=0x10FFFF {
        if let Some(c) = char::from_u32(u) {
            assert_eq!(bluetooth_tray::text::is_space(c), c.is_whitespace());
        }
    }
}

#[test]
fn skip_run_ends_where_the_kind_changes() {
    let text = chars_of("  ab \tc");
    assert_eq!(bluetooth_tray::text::skip_run(&text, 0, true), 2);
    assert_eq!(bluetooth_tray::text::skip_run(&text, 0, false), 0);
    assert_eq!(bluetooth_tray::text::skip_run(&text, 2, false), 4);
    assert_eq!(bluetooth_tray::text::skip_run(&text, 4, true), 6);
    assert_eq!(bluetooth_tray::text::skip_run(&text, 6, false), 7);
    assert_eq!(bluetooth_tray::text::skip_run(&text, 7, true), 7);
    assert_eq!(bluetooth_tray::text::skip_run(&text, 7, false), 7);
}

#[test]
fn connected_marker_is_searched_as_a_substring() {
    assert!(is_device_connected(Some("Device 11:11\n\tName: Phone\n\tConnected: yes\n")));
    assert!(is_device_connected(Some("Connected: yes")));
    assert!(!is_device_connected(Some("Device 11:11\n\tConnected: no\n")));
    assert!(!is_device_connected(Some("connected: yes")));
    assert!(!is_device_connected(Some("Connected:  yes")));
    assert!(!is_device_connected(Some("Connected: ye")));
    assert!(!is_device_connected(Some("")));
    assert!(!is_device_connected(None));
}

#[test]
fn listing_gives_devices_in_order_and_skips_other_lines() {
    let listing = "Agent registered\nDevice 11:11:11:11:11:11 Phone\n\nDevice 22:22:22:22:22:22\nDevice 33:33:33:33:33:33 Big Speaker\n";
    let devices = get_bluetooth_devices(Some(listing));
    assert_eq!(
        devices,
        vec![
            device("11:11:11:11:11:11", "Phone", false, true),
            device("33:33:33:33:33:33", "Big Speaker", false, true),
        ]
    );
}

#[test]
fn listing_that_could_not_be_had_gives_no_devices() {
    assert_eq!(get_bluetooth_devices(None), Vec::<BluetoothDevice>::new());
    assert_eq!(get_bluetooth_devices(Some("")), Vec::<BluetoothDevice>::new());
    assert_eq!(get_bluetooth_devices(Some("\n\n")), Vec::<BluetoothDevice>::new());
}

#[test]
fn listing_with_carriage_returns_drops_them_from_names() {
    let devices = get_bluetooth_devices(Some("Device 11:11 Phone\r\nDevice 22:22 Headset\r\n"));
    assert_eq!(
        devices,
        vec![device("11:11", "Phone", false, true), device("22:22", "Headset", false, true)]
    );
}

#[test]
fn listing_without_final_line_feed_keeps_last_device() {
    let devices = get_bluetooth_devices(Some("Device 11:11 Phone\nDevice 22:22 Headset"));
    assert_eq!(devices.len(), 2);
    assert_eq!(devices[1], device("22:22", "Headset", false, true));
}

#[test]
fn two_paired_devices_one_connected() {
    let listing = "Device 11:11:11:11:11:11 Phone\nDevice 22:22:22:22:22:22 Headset\n";
    let mut devices = get_bluetooth_devices(Some(listing));
    let infos: Vec<Option<String>> = devices
        .iter()
        .map(|d| {
            if d.mac == "11:11:11:11:11:11" {
                Some("Device 11:11:11:11:11:11 (public)\n\tPaired: yes\n\tConnected: yes\n".to_string())
            } else {
                Some("Device 22:22:22:22:22:22 (public)\n\tPaired: yes\n\tConnected: no\n".to_string())
            }
        })
        .collect();
    mark_connected(&mut devices, &infos);
    assert_eq!(
        devices,
        vec![
            device("11:11:11:11:11:11", "Phone", true, true),
            device("22:22:22:22:22:22", "Headset", false, true),
        ]
    );
}

#[test]
fn mark_connected_overwrites_and_treats_missing_reports_as_unconnected() {
    let mut devices = vec![
        device("a", "A", true, true),
        device("b", "B", false, false),
        device("c", "C", true, true),
        device("d", "D", true, false),
    ];
    let infos = vec![None, Some("Connected: yes".to_string()), Some("nothing".to_string())];
    mark_connected(&mut devices, &infos);
    assert_eq!(
        devices,
        vec![
            device("a", "A", false, true),
            device("b", "B", true, false),
            device("c", "C", false, true),
            device("d", "D", false, false),
        ]
    );
}

#[test]
fn mark_connected_on_no_devices_ignores_reports() {
    let mut devices: Vec<BluetoothDevice> = Vec::new();
    mark_connected(&mut devices, &vec![Some("Connected: yes".to_string())]);
    assert!(devices.is_empty());
}

#[test]
fn with_connection_sets_only_the_flag() {
    let d = with_connection(device("a", "A", false, true), Some("x Connected: yes y"));
    assert_eq!(d, device("a", "A", true, true));
    let d = with_connection(device("a", "A", true, false), None);
    assert_eq!(d, device("a", "A", false, false));
}

#[test]
fn lines_split_at_line_feeds() {
    assert_eq!(lines(""), Vec::<String>::new());
    assert_eq!(lines("a"), vec!["a".to_string()]);
    assert_eq!(lines("a\n"), vec!["a".to_string()]);
    assert_eq!(lines("a\nb"), vec!["a".to_string(), "b".to_string()]);
    assert_eq!(lines("\n"), vec!["".to_string()]);
    assert_eq!(lines("a\n\nb\n"), vec!["a".to_string(), "".to_string(), "b".to_string()]);
}

#[test]
fn lines_drop_a_carriage_return_only_before_a_line_feed() {
    assert_eq!(lines("a\r\nb\r\n"), vec!["a".to_string(), "b".to_string()]);
    assert_eq!(lines("a\r"), vec!["a\r".to_string()]);
    assert_eq!(lines("a\r\r\n"), vec!["a\r".to_string()]);
    assert_eq!(lines("a\rb\n"), vec!["a\rb".to_string()]);
    assert_eq!(lines("\r\n"), vec!["".to_string()]);
}

#[test]
fn lines_agree_with_the_standard_library() {
    let samples = [
        "",
        "\n",
        "\r",
        "\r\n",
        "x",
        "x\r",
        "x\n\r",
        "x\r\n\r\ny",
        "Device 1 a\nDevice 2 b\r\n\r\nlast\r",
        "\u{e9}t\u{e9}\n\u{1F517}\r\n",
    ];
    for s in samples {
        let expected: Vec<String> = s.lines().map(|l| l.to_string()).collect();
        assert_eq!(lines(s), expected);
    }
}

#[test]
fn chars_of_gives_characters_not_bytes() {
    assert_eq!(chars_of("a\u{e9}\u{1F517}"), vec!['a', '\u{e9}', '\u{1F517}']);
    assert_eq!(chars_of(""), Vec::<char>::new());
}

#[test]
fn contains_finds_a_pattern_anywhere() {
    assert!(contains("abcabd", "abd"));
    assert!(contains("abcabd", "abc"));
    assert!(contains("abcabd", "cab"));
    assert!(contains("abcabd", "abcabd"));
    assert!(!contains("abcabd", "abcabde"));
    assert!(!contains("abcabd", "ac"));
    assert!(contains("abc", ""));
    assert!(contains("", ""));
    assert!(!contains("", "a"));
    assert!(contains("aaab", "aab"));
}

#[test]
fn contains_chars_and_starts_with_on_vectors() {
    let text = chars_of("Device x");
    assert!(starts_with(&text, &chars_of("Device ")));
    assert!(starts_with(&text, &chars_of("")));
    assert!(!starts_with(&text, &chars_of("evice")));
    assert!(!starts_with(&text, &chars_of("Device x y")));
    assert!(contains_chars(&text, &chars_of("ce x")));
    assert!(!contains_chars(&text, &chars_of("xx")));
}

#[test]
fn find_from_gives_first_place_or_the_length() {
    let text = chars_of("a b c");
    assert_eq!(find_from(&text, 0, ' '), 1);
    assert_eq!(find_from(&text, 1, ' '), 1);
    assert_eq!(find_from(&text, 2, ' '), 3);
    assert_eq!(find_from(&text, 4, ' '), 5);
    assert_eq!(find_from(&text, 5, ' '), 5);
    assert_eq!(find_from(&text, 0, 'z'), 5);
}

#[test]
fn second_pass_asks_for_each_device_in_order() {
    let devices = vec![device("11:11", "Phone", false, true), device("22:22", "Headset", true, true)];
    assert_eq!(
        bluetooth_tray::device::info_requests(&devices),
        vec![
            bluetooth_tray::control::Request::Info("11:11".to_string()),
            bluetooth_tray::control::Request::Info("22:22".to_string()),
        ]
    );
    assert!(bluetooth_tray::device::info_requests(&Vec::new()).is_empty());
}

#[test]
fn matches_at_is_false_past_the_end() {
    let text = chars_of("abc");
    assert!(bluetooth_tray::text::matches_at(&text, &chars_of("bc"), 1));
    assert!(!bluetooth_tray::text::matches_at(&text, &chars_of("bc"), 2));
    assert!(!bluetooth_tray::text::matches_at(&text, &chars_of("bc"), 7));
    assert!(bluetooth_tray::text::matches_at(&text, &chars_of(""), 3));
    assert!(!bluetooth_tray::text::matches_at(&text, &chars_of(""), 4));
    assert!(!bluetooth_tray::text::matches_at(&text, &chars_of("abcd"), 0));
}
