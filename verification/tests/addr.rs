use pihole_restore::addr::{
    get_mac_addr, is_digit_char, is_hex_digit_char, is_valid_ip_addr, is_valid_ipv4_addr,
    is_valid_ipv6_addr,
};
use regex::Regex;

const MAC_PATTERN: &str = r"([0-9a-fA-F]{2}:){5}[0-9a-fA-F]{2}";
const IPV4_PATTERN: &str = r"^(?:(?:25[0-5]|2[0-4][0-9]|[01]?[0-9][0-9]?)\.){3}(?:25[0-5]|2[0-4][0-9]|[01]?[0-9][0-9]?)$";
const IPV6_PATTERN: &str = r"^([0-9a-fA-F]{1,4}:){7}[0-9a-fA-F]{1,4}$";

fn regex_mac(s: &str) -> Option<String> {
    Regex::new(MAC_PATTERN).unwrap().find(s).map(|m| m.as_str().to_string())
}

fn regex_ip(s: &str) -> bool {
    Regex::new(IPV4_PATTERN).unwrap().is_match(s) || Regex::new(IPV6_PATTERN).unwrap().is_match(s)
}

const MAC_SAMPLES: [&str; 22] = [
    "",
    "AA:BB:CC:DD:EE:FF",
    "aa:bb:cc:dd:ee:ff",
    "dhcp-host=AA:BB:CC:DD:EE:FF",
    "dhcp-host=00:11:22:33:44:55 trailing",
    "AA:BB:CC:DD:EE:F",
    "AA:BB:CC:DD:EE",
    "AA:BB:CC:DD:EE:FG",
    "AA-BB-CC-DD-EE-FF",
    "AAA:BB:CC:DD:EE:FF",
    "A:AA:BB:CC:DD:EE:FF",
    "AA:BB:CC:DD:EE:FF:00:11",
    "zz AA:BB:CC:DD:EE:FF and 11:22:33:44:55:66",
    "0A:BB:CC:DD:EE:FF:",
    ":AA:BB:CC:DD:EE:FF",
    "AA:BB:CC:DD:EE:GG 11:22:33:44:55:66",
    "AA:BB:CC:DD:EE::FF",
    "a:AA:BB:CC:DD:EE:0f",
    "\u{e9}\u{e9} AA:BB:CC:DD:EE:FF \u{4e16}",
    "AA:BB:CC:DD:EE:\u{ff26}\u{ff26}",
    "dhcp-host=1a:2B:3c:4D:5e:6F",
    "1:22:33:44:55:66:77",
];

#[test]
fn mac_finder_agrees_with_pattern_on_samples() {
    for s in MAC_SAMPLES {
        assert_eq!(get_mac_addr(s), regex_mac(s), "mac in {:?}", s);
    }
}

#[test]
fn mac_is_found_behind_key_token() {
    assert_eq!(get_mac_addr("dhcp-host=AA:BB:CC:DD:EE:FF"), Some("AA:BB:CC:DD:EE:FF".to_string()));
}

#[test]
fn leftmost_mac_is_taken() {
    assert_eq!(
        get_mac_addr("11:22:33:44:55:66 AA:BB:CC:DD:EE:FF"),
        Some("11:22:33:44:55:66".to_string())
    );
}

#[test]
fn mac_inside_longer_run_starts_at_first_fit() {
    assert_eq!(get_mac_addr("AAA:BB:CC:DD:EE:FF"), Some("AA:BB:CC:DD:EE:FF".to_string()));
    assert_eq!(get_mac_addr("AA:BB:CC:DD:EE:FF:00"), Some("AA:BB:CC:DD:EE:FF".to_string()));
}

#[test]
fn short_or_malformed_mac_is_not_found() {
    assert_eq!(get_mac_addr(""), None);
    assert_eq!(get_mac_addr("AA:BB:CC:DD:EE"), None);
    assert_eq!(get_mac_addr("AA:BB:CC:DD:EE:F"), None);
    assert_eq!(get_mac_addr("AA:BB:CC:DD:EE:FG"), None);
    assert_eq!(get_mac_addr("AA-BB-CC-DD-EE-FF"), None);
}

const IP_SAMPLES: [&str; 44] = [
    "",
    "192.168.1.5",
    "0.0.0.0",
    "255.255.255.255",
    "256.1.1.1",
    "1.1.1.256",
    "1.1.1",
    "1.1.1.1.1",
    "1.1.1.",
    ".1.1.1",
    "1..1.1",
    "01.02.03.04",
    "001.002.003.004",
    "000.000.000.000",
    "199.199.199.199",
    "249.250.255.200",
    "260.1.1.1",
    "300.1.1.1",
    "1.1.1.1a",
    "a.b.c.d",
    "1.1.1.1 ",
    " 1.1.1.1",
    "1.1.1.1\n",
    "1234.1.1.1",
    "myhost",
    "my.host.name.local",
    "10.0.0.5",
    "1:2:3:4:5:6:7:8",
    "2001:0db8:85a3:0000:0000:8a2e:0370:7334",
    "2001:db8:85a3:0:0:8A2E:370:7334",
    "2001:db8::1",
    "::1",
    "1:2:3:4:5:6:7",
    "1:2:3:4:5:6:7:8:9",
    "1:2:3:4:5:6:7:",
    ":2:3:4:5:6:7:8",
    "12345:2:3:4:5:6:7:8",
    "g:2:3:4:5:6:7:8",
    "1:2:3:4:5:6:7:8 ",
    "ffff:ffff:ffff:ffff:ffff:ffff:ffff:ffff",
    "FFFF:FFFF:FFFF:FFFF:FFFF:FFFF:FFFF:FFFF",
    "\u{661}.1.1.1",
    "1.1.1.\u{ff11}",
    "25.25.25.2555",
];

#[test]
fn ip_check_agrees_with_patterns_on_samples() {
    for s in IP_SAMPLES {
        assert_eq!(is_valid_ip_addr(s), regex_ip(s), "ip literal {:?}", s);
    }
}

#[test]
fn ip_check_agrees_with_patterns_on_every_three_digit_octet() {
    let v4 = Regex::new(IPV4_PATTERN).unwrap();
    for n in 0..1000u32 {
        for text in [format!("{}", n), format!("{:02}", n), format!("{:03}", n)] {
            let address = format!("10.0.{}.1", text);
            assert_eq!(is_valid_ipv4_addr(&address), v4.is_match(&address), "{:?}", address);
        }
    }
}

#[test]
fn ipv4_literal_is_four_octets() {
    assert!(is_valid_ipv4_addr("192.168.1.5"));
    assert!(is_valid_ipv4_addr("255.255.255.255"));
    assert!(is_valid_ipv4_addr("001.02.3.000"));
    assert!(!is_valid_ipv4_addr("256.0.0.1"));
    assert!(!is_valid_ipv4_addr("1.2.3"));
    assert!(!is_valid_ipv4_addr("1.2.3.4.5"));
    assert!(!is_valid_ipv4_addr("1.2.3."));
    assert!(!is_valid_ipv4_addr("myhost"));
}

#[test]
fn ipv6_literal_is_eight_full_groups() {
    assert!(is_valid_ipv6_addr("2001:0db8:85a3:0000:0000:8a2e:0370:7334"));
    assert!(is_valid_ipv6_addr("1:2:3:4:5:6:7:8"));
    assert!(!is_valid_ipv6_addr("2001:db8::1"));
    assert!(!is_valid_ipv6_addr("1:2:3:4:5:6:7"));
    assert!(!is_valid_ipv6_addr("1:2:3:4:5:6:7:12345"));
    assert!(!is_valid_ipv6_addr("192.168.1.5"));
}

#[test]
fn ip_literal_is_either_family() {
    assert!(is_valid_ip_addr("192.168.1.5"));
    assert!(is_valid_ip_addr("1:2:3:4:5:6:7:8"));
    assert!(!is_valid_ip_addr("myhost"));
    assert!(!is_valid_ip_addr(""));
}

#[test]
fn digit_classes_are_ascii() {
    assert!(is_digit_char('0') && is_digit_char('9'));
    assert!(!is_digit_char('a') && !is_digit_char('\u{661}'));
    assert!(is_hex_digit_char('a') && is_hex_digit_char('F') && is_hex_digit_char('7'));
    assert!(!is_hex_digit_char('g') && !is_hex_digit_char('G') && !is_hex_digit_char(':'));
}

/// Every text of up to `max` characters over `alphabet`.
fn texts_over(alphabet: &[char], max: usize) -> Vec<String> {
    let mut all = vec![String::new()];
    let mut last = vec![String::new()];
    for _ in 0..max {
        let mut next = Vec::new();
        for text in &last {
            for c in alphabet {
                let mut longer = text.clone();
                longer.push(*c);
                next.push(longer);
            }
        }
        all.extend(next.iter().cloned());
        last = next;
    }
    all
}

#[test]
fn ipv4_check_agrees_with_pattern_on_every_short_text() {
    let v4 = Regex::new(IPV4_PATTERN).unwrap();
    let mut accepted = 0;
    for s in texts_over(&['1', '2', '5', '6', '.'], 8) {
        let expected = v4.is_match(&s);
        assert_eq!(is_valid_ipv4_addr(&s), expected, "{:?}", s);
        if expected {
            accepted += 1;
        }
    }
    assert!(accepted > 0);
}

#[test]
fn ipv4_check_agrees_with_pattern_on_every_octet_shape() {
    let v4 = Regex::new(IPV4_PATTERN).unwrap();
    let octets = texts_over(&['0', '1', '2', '4', '5', '6', '9', 'a'], 4);
    for first in &octets {
        for last in ["7", "255", "256", ""] {
            let address = format!("{}.0.10.{}", first, last);
            assert_eq!(is_valid_ipv4_addr(&address), v4.is_match(&address), "{:?}", address);
        }
    }
}

#[test]
fn ipv6_check_agrees_with_pattern_on_group_shapes() {
    let v6 = Regex::new(IPV6_PATTERN).unwrap();
    let groups = ["", "0", "aB", "fff", "FFFF", "12345", "g", "1.2"];
    let mut accepted = 0;
    for count in [7usize, 8, 9] {
        let mut index = vec![0usize; count];
        let mut picks = 0u32;
        loop {
            // Every choice for the first three groups, a few for the rest.
            let parts: Vec<&str> = index.iter().map(|i| groups[*i]).collect();
            let address = parts.join(":");
            let expected = v6.is_match(&address);
            assert_eq!(is_valid_ipv6_addr(&address), expected, "{:?}", address);
            if expected {
                accepted += 1;
            }
            picks += 1;
            let mut place = 0;
            loop {
                let step = if place < 3 { 1 } else { 3 };
                index[place] += step;
                if index[place] < groups.len() {
                    break;
                }
                index[place] = 0;
                place += 1;
                if place == count {
                    break;
                }
            }
            if place == count {
                break;
            }
        }
        assert!(picks > 1000);
    }
    assert!(accepted > 0);
}

#[test]
fn mac_finder_agrees_with_pattern_on_every_single_change() {
    let pattern = Regex::new(MAC_PATTERN).unwrap();
    let found = |text: &str| pattern.find(text).map(|m| m.as_str().to_string());
    let base: Vec<char> = "AA:bb:0C:d1:e9:Ff".chars().collect();
    let changes = ['0', '9', 'a', 'f', 'A', 'F', 'g', 'G', ':', '-', ' ', '\u{e9}'];
    let frames = [("", ""), ("dhcp-host=", ""), ("x", "y"), ("0", "0"), (":", ":"), ("a:", ":b")];
    for position in 0..base.len() {
        for change in changes {
            let mut changed = base.clone();
            changed[position] = change;
            let middle: String = changed.iter().collect();
            for (front, back) in frames {
                let text = format!("{}{}{}", front, middle, back);
                assert_eq!(get_mac_addr(&text), found(&text), "mac in {:?}", text);
            }
        }
    }
}

#[test]
fn mac_finder_agrees_with_pattern_on_every_short_run_of_pairs() {
    let pattern = Regex::new(MAC_PATTERN).unwrap();
    let found = |text: &str| pattern.find(text).map(|m| m.as_str().to_string());
    for s in texts_over(&['a', ':', 'g'], 9) {
        let text = format!("{}0a:1b:2c:3d{}", s, s);
        assert_eq!(get_mac_addr(&text), found(&text), "mac in {:?}", text);
        let text = format!("0a:1b:2c{}:3d:4e:5f", s);
        assert_eq!(get_mac_addr(&text), found(&text), "mac in {:?}", text);
    }
}
