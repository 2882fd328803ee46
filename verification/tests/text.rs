use zk_core::bench::{parse_peak_rss_kb, sweep};
use zk_core::circuit::CircuitKind;
use zk_core::hwinfo::{parse_cpu_model, parse_ram_mb};
use zk_core::text::{nth_word, parse_u64_bytes, trim_range};

#[test]
fn peak_rss_from_status() {
    let status = "Name:\tzk-core\nVmPeak:\t  123456 kB\nVmHWM:\t   20480 kB\nVmRSS:\t 10240 kB\n";
    assert_eq!(parse_peak_rss_kb(status), 20480);
}

#[test]
fn peak_rss_missing_or_malformed_is_zero() {
    assert_eq!(parse_peak_rss_kb(""), 0);
    assert_eq!(parse_peak_rss_kb("VmRSS: 5 kB\n"), 0);
    assert_eq!(parse_peak_rss_kb("VmHWM:\n"), 0);
    assert_eq!(parse_peak_rss_kb("VmHWM: lots kB\n"), 0);
    assert_eq!(parse_peak_rss_kb("VmHWM: 99999999999999999999 kB\n"), 0);
    // only the first VmHWM line counts
    assert_eq!(parse_peak_rss_kb("VmHWM: x\nVmHWM: 7\n"), 0);
    // CRLF line endings and a last line without a line feed
    assert_eq!(parse_peak_rss_kb("A: 1\r\nVmHWM: 12\r\n"), 12);
    assert_eq!(parse_peak_rss_kb("VmHWM: 13"), 13);
}

#[test]
fn u64_parsing_follows_from_str() {
    for s in ["0", "42", "+42", "007", "18446744073709551615", "18446744073709551616", "", "+", "-1", "4 2", "1a"] {
        assert_eq!(parse_u64_bytes(s.as_bytes()), s.parse::<u64>().ok(), "{s}");
    }
}

#[test]
fn ram_from_meminfo() {
    let meminfo = "MemTotal:        8048576 kB\nMemFree:         1000000 kB\n";
    assert_eq!(parse_ram_mb(meminfo), Some(8048576 / 1024));
    assert_eq!(parse_ram_mb("MemFree: 5 kB\n"), None);
    assert_eq!(parse_ram_mb("MemTotal: kB\n"), None);
    assert_eq!(parse_ram_mb("MemTotal: 1023 kB\n"), Some(0));
}

#[test]
fn cpu_model_from_cpuinfo() {
    let x86 = "processor\t: 0\nvendor_id\t: GenuineIntel\nmodel\t\t: 158\nmodel name\t: Intel(R) Core(TM) i7-8700 CPU @ 3.20GHz\n";
    assert_eq!(parse_cpu_model(x86), Some(b"Intel(R) Core(TM) i7-8700 CPU @ 3.20GHz".to_vec()));
    let pi = "processor\t: 0\nBogoMIPS\t: 38.40\n\nHardware\t: BCM2835\nModel\t\t: Raspberry Pi 3 Model B Rev 1.2\n";
    assert_eq!(parse_cpu_model(pi), Some(b"Raspberry Pi 3 Model B Rev 1.2".to_vec()));
    assert_eq!(parse_cpu_model("processor : 0\n"), None);
    assert_eq!(parse_cpu_model("model name without colon\n"), None);
    // only up to a second colon, and whitespace trimmed
    assert_eq!(parse_cpu_model("Model :  a:b  \n"), Some(b"a".to_vec()));
    assert_eq!(parse_cpu_model("Model:\n"), Some(Vec::new()));
}

#[test]
fn sweep_points_in_order() {
    let s = sweep();
    assert_eq!(
        s,
        vec![
            (CircuitKind::Cubic, 4),
            (CircuitKind::Cubic, 8),
            (CircuitKind::Poseidon, 6),
            (CircuitKind::Poseidon, 7),
            (CircuitKind::Merkle, 9),
            (CircuitKind::Merkle, 10),
        ]
    );
}

const SAMPLES: &[&str] = &[
    "",
    "a",
    "  a  b ",
    "VmHWM:\u{a0}5",
    "x\u{85}y\u{1680}z",
    "\u{2000}\u{2001}w\u{200a}v\u{2028}u\u{2029}t\u{202f}s\u{205f}r\u{3000}q",
    "\u{200b}not\u{2030}space\u{a1}",
    "é à\u{a0}ü",
    "\t\x0b\x0cmix\r \u{3000}",
    "\u{e000}\u{20ac}",
];

#[test]
fn words_follow_split_whitespace() {
    for s in SAMPLES {
        let expected: Vec<&str> = s.split_whitespace().collect();
        for n in 0..expected.len() + 2 {
            let got = nth_word(s.as_bytes(), n).map(|(a, b)| &s.as_bytes()[a..b]);
            assert_eq!(got, expected.get(n).map(|w| w.as_bytes()), "{s:?} word {n}");
        }
    }
}

#[test]
fn trim_follows_str_trim() {
    for s in SAMPLES {
        let (a, b) = trim_range(s.as_bytes());
        assert_eq!(&s.as_bytes()[a..b], s.trim().as_bytes(), "{s:?}");
    }
}

#[test]
fn unicode_whitespace_separates_and_trims() {
    assert_eq!(parse_peak_rss_kb("VmHWM:\u{a0}5"), 5);
    assert_eq!(parse_ram_mb("MemTotal:\u{3000}2048\u{2009}kB\n"), Some(2));
    assert_eq!(parse_cpu_model("Model:\u{a0}Pi\u{205f}\n"), Some("Pi".as_bytes().to_vec()));
}
