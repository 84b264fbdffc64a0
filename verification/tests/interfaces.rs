use fortitui::tui::screens::interfaces::{fmt_bps, fmt_bytes, sparkline};

const LEVELS: &[char] = &[' ', '▁', '▂', '▃', '▄', '▅', '▆', '▇', '█'];

#[test]
fn sparkline_length_matches_input() {
    assert_eq!(sparkline(vec![0, 1, 2, 3, 4, 5]).chars().count(), 6);
    assert_eq!(sparkline(vec![42; 100]).chars().count(), 100);
    assert!(sparkline(vec![]).is_empty());
}

#[test]
fn sparkline_uses_valid_levels() {
    let s = sparkline(vec![0, 10, 50, 100, 200, 1000]);
    assert!(s.chars().all(|c| LEVELS.contains(&c)));
}

fn float_sparkline(values: &[u64]) -> String {
    let max = values.iter().copied().max().unwrap_or(1).max(1) as f64;
    values
        .iter()
        .map(|&v| {
            let idx = ((v as f64 / max) * 8.0).round() as usize;
            LEVELS[idx.min(8)]
        })
        .collect()
}

#[test]
fn sparkline_scales_to_the_maximum() {
    for vals in [
        vec![0, 10, 50, 100, 200, 1000],
        vec![1, 2, 3],
        vec![7, 7, 7],
        vec![0, 0],
        vec![u64::MAX, u64::MAX / 2, 3, 1 << 60],
        vec![1, 16, 15, 17, 9, 8, 3],
    ] {
        assert_eq!(sparkline(vals.clone()), float_sparkline(&vals), "{vals:?}");
    }
    assert_eq!(sparkline(vec![0, 8, 16]), " ▄█");
}

fn float_bytes(n: u64) -> String {
    const K: f64 = 1024.0;
    const M: f64 = K * 1024.0;
    const G: f64 = M * 1024.0;
    let n = n as f64;
    if n >= G {
        format!("{:.1}G", n / G)
    } else if n >= M {
        format!("{:.1}M", n / M)
    } else if n >= K {
        format!("{:.0}K", n / K)
    } else {
        format!("{n:.0}")
    }
}

fn float_bps(bps: u64) -> String {
    if bps >= 1_000_000_000 {
        format!("{:.1} Gbps", bps as f64 / 1e9)
    } else if bps >= 1_000_000 {
        format!("{:.1} Mbps", bps as f64 / 1e6)
    } else if bps >= 1_000 {
        format!("{:.0} Kbps", bps as f64 / 1e3)
    } else {
        format!("{bps} bps")
    }
}

const SAMPLES: &[u64] = &[
    0, 1, 999, 1000, 1023, 1024, 1535, 1536, 2560, 1_000_000, 1_048_575, 1_048_576, 1_572_864,
    999_999_999, 1_000_000_000, 1_073_741_824, 1_610_612_736, 5_000_000_000, 123_456_789_012,
    (1 << 53) + 1, u64::MAX - 1, u64::MAX,
];

#[test]
fn byte_text_matches_double_formatting() {
    for &n in SAMPLES {
        assert_eq!(fmt_bytes(n), float_bytes(n), "{n}");
    }
    assert_eq!(fmt_bytes(1536), "2K");
    assert_eq!(fmt_bytes(2560), "2K");
    assert_eq!(fmt_bytes(1_572_864), "1.5M");
}

#[test]
fn rate_text_matches_double_formatting() {
    for &n in SAMPLES {
        assert_eq!(fmt_bps(n), float_bps(n), "{n}");
    }
    assert_eq!(fmt_bps(999), "999 bps");
    assert_eq!(fmt_bps(1_500), "2 Kbps");
    assert_eq!(fmt_bps(2_500_000), "2.5 Mbps");
}
