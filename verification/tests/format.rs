use pyload_tui::number_text::int_to_text;
use pyload_tui::status_bar::format_speed;
use pyload_tui::table::{format_bytes, format_size};

const KB: i64 = 1024;
const MB: i64 = 1024 * KB;
const GB: i64 = 1024 * MB;

fn float_speed(speed: i64) -> String {
    if speed >= GB {
        format!("{:.1} GB/s", speed as f64 / GB as f64)
    } else if speed >= MB {
        format!("{:.1} MB/s", speed as f64 / MB as f64)
    } else if speed >= KB {
        format!("{:.1} KB/s", speed as f64 / KB as f64)
    } else {
        format!("{} B/s", speed)
    }
}

fn float_bytes(bytes: i64) -> String {
    if bytes >= GB {
        format!("{:.2} GB", bytes as f64 / GB as f64)
    } else if bytes >= MB {
        format!("{:.2} MB", bytes as f64 / MB as f64)
    } else if bytes >= KB {
        format!("{:.2} KB", bytes as f64 / KB as f64)
    } else {
        format!("{} B", bytes)
    }
}

fn samples() -> Vec<i64> {
    let mut v = vec![
        i64::MIN,
        -1_000_000,
        -1,
        0,
        1,
        512,
        1023,
        1024,
        1075,
        1126,
        1280,
        1331,
        1536,
        1587,
        1843,
        2048,
        2304,
        10 * KB,
        MB - 1,
        MB,
        MB + MB / 20,
        MB + MB / 4,
        3 * MB / 2 + MB / 20,
        GB - 1,
        GB,
        GB + GB / 20,
        5 * GB / 4,
        (1 << 53) - 1,
        1 << 53,
        (1 << 53) + 1,
        (1 << 53) + 3,
        (1 << 60) + (1 << 10),
        i64::MAX - 1,
        i64::MAX,
    ];
    let mut x: i64 = 1;
    while x < i64::MAX / 3 {
        v.push(x);
        v.push(x + 1);
        v.push(x * 3 / 2);
        x = x * 3 + 7;
    }
    for k in 0..4096i64 {
        v.push(1024 + k);
        v.push(MB + k * 257);
        v.push(GB + k * 262_144 + 13);
    }
    v
}

#[test]
fn format_speed_matches_double_precision_printing() {
    for s in samples() {
        assert_eq!(format_speed(s), float_speed(s), "speed {}", s);
    }
}

#[test]
fn format_bytes_matches_double_precision_printing() {
    for b in samples() {
        assert_eq!(format_bytes(b), float_bytes(b), "bytes {}", b);
    }
}

#[test]
fn format_speed_examples() {
    assert_eq!(format_speed(0), "0 B/s");
    assert_eq!(format_speed(1023), "1023 B/s");
    assert_eq!(format_speed(1024), "1.0 KB/s");
    assert_eq!(format_speed(1536), "1.5 KB/s");
    assert_eq!(format_speed(5 * MB / 2), "2.5 MB/s");
    assert_eq!(format_speed(3 * GB), "3.0 GB/s");
    assert_eq!(format_speed(-5), "-5 B/s");
}

#[test]
fn format_bytes_examples() {
    assert_eq!(format_bytes(0), "0 B");
    assert_eq!(format_bytes(1000), "1000 B");
    assert_eq!(format_bytes(1024), "1.00 KB");
    assert_eq!(format_bytes(1536), "1.50 KB");
    assert_eq!(format_bytes(MB * 10), "10.00 MB");
    assert_eq!(format_bytes(GB + GB / 4), "1.25 GB");
}

#[test]
fn format_size_example() {
    assert_eq!(format_size(512, 2 * MB), "512 B / 2.00 MB");
    assert_eq!(format_size(0, 0), "0 B / 0 B");
}

#[test]
fn int_text_examples() {
    assert_eq!(int_to_text(0), "0");
    assert_eq!(int_to_text(42), "42");
    assert_eq!(int_to_text(-7), "-7");
    assert_eq!(int_to_text(i64::MIN), i64::MIN.to_string());
    assert_eq!(int_to_text(i64::MAX), i64::MAX.to_string());
}
