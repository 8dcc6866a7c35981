use microps_rs::platform::{DurationSec, Irqs, TimeSec};
use microps_rs::print::debugdump;
use microps_rs::protocols::ip::IpAddr;

fn border() -> String {
    format!("+{}+{}+{}+\n", "-".repeat(6), "-".repeat(49), "-".repeat(18))
}

#[test]
fn dump_of_nothing_is_two_borders() {
    let text = String::from_utf8(debugdump(&[])).unwrap();
    assert_eq!(text, format!("{}{}", border(), border()));
}

#[test]
fn dump_of_a_short_buffer() {
    let text = String::from_utf8(debugdump(b"AB\x00")).unwrap();
    let line = format!("|    0 | 41 42 00 {}| AB.{} |\n", "   ".repeat(13), " ".repeat(13));
    assert_eq!(text, format!("{}{}{}", border(), line, border()));
}

#[test]
fn dump_lines_show_their_offsets() {
    let data: Vec<u8> = (0u8..40).collect();
    let text = String::from_utf8(debugdump(&data)).unwrap();
    let lines: Vec<&str> = text.lines().collect();
    assert_eq!(lines.len(), 5);
    assert!(lines[1].starts_with("|    0 | 00 01 02 "));
    assert!(lines[2].starts_with("|   10 | 10 11 12 "));
    assert!(lines[3].starts_with("|   20 | 20 21 22 23 24 25 26 27 "));
    assert!(lines[3].ends_with("| .!\"#$%&'         |"));
    assert_eq!(lines[1].len(), 77);
}

#[test]
fn dump_of_a_large_offset() {
    let data = vec![0x7eu8; 0x10010];
    let text = String::from_utf8(debugdump(&data)).unwrap();
    let last = text.lines().nth_back(1).unwrap();
    assert!(last.starts_with("| 10000 | 7e 7e "));
    assert!(last.ends_with("| ~~~~~~~~~~~~~~~~ |"));
}

#[test]
fn address_text() {
    assert_eq!(IpAddr::from_octets([192, 0, 2, 2]).to_string(), "192.0.2.2");
    assert_eq!(IpAddr(0x7f000001).to_string(), "127.0.0.1");
    assert_eq!(IpAddr(0).to_string(), "0.0.0.0");
    assert_eq!(IpAddr(0xffffffff).to_string(), "255.255.255.255");
}

#[test]
fn time_moves_by_durations() {
    let t = TimeSec(100);
    let d = DurationSec::new(30);
    assert_eq!(t + d, TimeSec(130));
    assert_eq!(t - d, TimeSec(70));
    assert_eq!((t + d) - d, t);
}

#[test]
fn no_interrupt_line_is_registered_at_first() {
    assert!(Irqs::new().irqs.is_empty());
}
