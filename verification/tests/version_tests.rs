use delivery_cli::clock::{version, version_at, version_of, UtcTime};
use delivery_cli::message::Color;
use delivery_cli::version::{build_git_sha, rustc_version, version_message};

#[test]
fn git_sha_defaults_to_zeros() {
    assert_eq!(build_git_sha(None), "(0000)");
}

#[test]
fn git_sha_is_parenthesized() {
    assert_eq!(build_git_sha(Some("abc123")), "(abc123)");
    assert_eq!(build_git_sha(Some("")), "()");
}

#[test]
fn rustc_version_defaults_to_unknown() {
    assert_eq!(rustc_version(None), "rustc UNKNOWN");
    assert_eq!(rustc_version(Some("rustc 1.2.3")), "rustc 1.2.3");
}

#[test]
fn version_is_an_iso_timestamp() {
    let v = version().unwrap();
    let b = v.as_bytes();
    assert_eq!(b.len(), 20, "{}", v);
    assert_ne!(v, "%Y-%m-%dT%H:%M:%SZ");
    for (i, c) in b.iter().enumerate() {
        match i {
            4 | 7 => assert_eq!(*c, b'-'),
            10 => assert_eq!(*c, b'T'),
            13 | 16 => assert_eq!(*c, b':'),
            19 => assert_eq!(*c, b'Z'),
            _ => assert!(c.is_ascii_digit(), "{}", v),
        }
    }
}

#[test]
fn version_message_joins_its_parts() {
    let m = version_message("2015-01-02T03:04:05Z", &build_git_sha(None), &rustc_version(None));
    assert_eq!(m.color, Color::White);
    assert!(m.newline);
    assert_eq!(m.text, "delivery 2015-01-02T03:04:05Z (0000)\nrustc UNKNOWN");
}

fn at(year: i32, mon: i32, mday: i32, hour: i32, min: i32, sec: i32) -> UtcTime {
    UtcTime { sec, min, hour, mday, mon, year, wday: 0, yday: 0, isdst: 0, utcoff: 0, nsec: 0 }
}

#[test]
fn version_at_formats_the_given_time() {
    assert_eq!(version_at(&at(115, 5, 1, 12, 34, 56)), "2015-06-01T12:34:56Z");
    assert_eq!(version_at(&at(99, 11, 31, 23, 59, 60)), "1999-12-31T23:59:60Z");
    assert_eq!(version_at(&at(70, 0, 1, 0, 0, 0)), "1970-01-01T00:00:00Z");
}

#[test]
fn version_at_odd_years() {
    assert_eq!(version_at(&at(-1900, 0, 1, 0, 0, 0)), "0-01-01T00:00:00Z");
    assert_eq!(version_at(&at(-1901, 0, 1, 0, 0, 0)), "-1-01-01T00:00:00Z");
    assert_eq!(version_at(&at(8100, 6, 4, 5, 6, 7)), "10000-07-04T05:06:07Z");
}

#[test]
fn later_times_sort_later() {
    let times = [
        at(115, 5, 1, 12, 34, 56),
        at(115, 5, 1, 12, 35, 0),
        at(115, 5, 2, 0, 0, 0),
        at(115, 9, 1, 0, 0, 0),
        at(116, 0, 1, 0, 0, 0),
    ];
    for w in times.windows(2) {
        assert!(version_at(&w[0]) < version_at(&w[1]));
    }
}

#[test]
fn version_of_reading() {
    assert_eq!(version_of(&at(115, 5, 1, 12, 34, 56)), Some("2015-06-01T12:34:56Z".to_string()));
    assert_eq!(version_of(&at(i32::MAX - 1900, 0, 1, 0, 0, 0)), Some(format!("{}-01-01T00:00:00Z", i32::MAX)));
    assert_eq!(version_of(&at(i32::MAX - 1899, 0, 1, 0, 0, 0)), None);
}
