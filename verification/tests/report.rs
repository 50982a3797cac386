use dark_privilege_lib::identity::Whoami;
use dark_privilege_lib::memory::{memory_report, MemoryFigures};
use dark_privilege_lib::version::{version_from_rtl, SerializableOsVersion};

#[test]
fn version_from_successful_call() {
    assert_eq!(
        version_from_rtl(true, 10, 0, 22631),
        Ok(SerializableOsVersion { major: 10, minor: 0, pack: 0, build: 22631 })
    );
}

#[test]
fn version_from_failed_call() {
    assert_eq!(version_from_rtl(false, 10, 0, 22631), Err("RtlGetVersion failed!"));
}

#[test]
fn version_new_keeps_fields() {
    let v = SerializableOsVersion::new(10, 0, 1, 19045);
    assert_eq!((v.major, v.minor, v.pack, v.build), (10, 0, 1, 19045));
}

#[test]
fn memory_sizes_in_binary_units() {
    let r = memory_report(&MemoryFigures {
        total_memory: 215,
        used_memory: 1024,
        available_memory: 1024 * 1024,
        total_swap: 0,
        used_swap: 1907 * 1024 * 1024,
    });
    assert_eq!(r.total_memory, "215 B");
    assert_eq!(r.used_memory, "1.0 kiB");
    assert_eq!(r.available_memory, "1.0 MiB");
    assert_eq!(r.total_swap, "0 B");
    assert_eq!(r.used_swap, "1.9 GiB");
}

#[test]
fn memory_size_just_below_a_kibibyte() {
    let r = memory_report(&MemoryFigures {
        total_memory: 1023,
        used_memory: 1000,
        available_memory: 999,
        total_swap: 301 * 1000,
        used_swap: 419 * 1000 * 1000,
    });
    assert_eq!(r.total_memory, "1023 B");
    assert_eq!(r.used_memory, "1000 B");
    assert_eq!(r.available_memory, "999 B");
    assert_eq!(r.total_swap, "293.9 kiB");
    assert_eq!(r.used_swap, "399.6 MiB");
}

fn s(v: &str) -> String {
    v.to_string()
}

#[test]
fn whoami_keeps_what_was_read() {
    let w = Whoami::from_lookups(
        s("alice"),
        Some(s("CORP\\alice")),
        s("Alice Example"),
        s("x86_64"),
        s("Windows"),
        Some(s("WS-01")),
        s("Alice's PC"),
        s("Windows"),
        s("Windows 11 Pro"),
        Some(vec![s("en-US"), s("de-DE")]),
    );
    assert_eq!(w.username, "alice");
    assert_eq!(w.account, "CORP\\alice");
    assert_eq!(w.realname, "Alice Example");
    assert_eq!(w.arch, "x86_64");
    assert_eq!(w.desktop_env, "Windows");
    assert_eq!(w.hostname, "WS-01");
    assert_eq!(w.devicename, "Alice's PC");
    assert_eq!(w.platform, "Windows");
    assert_eq!(w.distro, "Windows 11 Pro");
    assert_eq!(w.langs, vec![s("en-US"), s("de-DE")]);
}

#[test]
fn whoami_fallbacks() {
    let w = Whoami::from_lookups(
        s("bob"),
        None,
        s("Bob"),
        s("aarch64"),
        s("Unknown"),
        None,
        s("box"),
        s("Linux"),
        s("Debian"),
        None,
    );
    assert_eq!(w.account, "<unknown>");
    assert_eq!(w.hostname, "localhost");
    assert_eq!(w.langs, vec![s("??")]);
}

fn check_size_text(bytes: u64, text: &str) {
    if bytes < 1024 {
        assert_eq!(text, format!("{} B", bytes));
        return;
    }
    let (number, unit) = text.split_once(' ').unwrap();
    let letters = ['k', 'M', 'G', 'T', 'P', 'E'];
    let letter = unit.chars().next().unwrap();
    assert_eq!(&unit[1..], "iB");
    let e = letters.iter().position(|&c| c == letter).unwrap() as u32 + 1;
    let (q, d) = number.split_once('.').unwrap();
    assert_eq!(d.len(), 1);
    let tenths: i128 = q.parse::<i128>().unwrap() * 10 + d.parse::<i128>().unwrap();
    let unit_size: i128 = 1024i128.pow(e);
    assert!((tenths * unit_size - 10 * bytes as i128).abs() <= unit_size, "{} -> {}", bytes, text);
}

#[test]
fn memory_texts_stay_within_a_tenth_of_a_unit() {
    let mut samples: Vec<u64> = vec![
        0, 1, 1023, 1024, 1025, 1_000_000, 1_048_575, 1_048_576, 999_999_999_999,
        1_000_000_000_089_310, 1_000_000_000_107_173_291, u64::MAX, u64::MAX - 1, 1 << 53,
        (1 << 53) + 1, 1_000_000_000_000_000_000,
    ];
    let mut x: u64 = 1024;
    while x < u64::MAX / 3 {
        samples.push(x);
        samples.push(x + x / 7);
        x = x * 3 + 11;
    }
    for b in samples {
        let r = memory_report(&MemoryFigures {
            total_memory: b,
            used_memory: b / 2,
            available_memory: b / 3,
            total_swap: b / 5,
            used_swap: b / 9,
        });
        check_size_text(b, &r.total_memory);
        check_size_text(b / 2, &r.used_memory);
        check_size_text(b / 3, &r.available_memory);
        check_size_text(b / 5, &r.total_swap);
        check_size_text(b / 9, &r.used_swap);
    }
}
