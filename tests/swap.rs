use swappy::swap::{AnonInfo, SwapError};

fn gib(bytes: u64) -> f64 {
    bytes as f64 / 1024.0 / 1024.0 / 1024.0
}

/// The table as the original tool printed it, with floating point.
fn float_format(max: u64, free: u64, resv: u64) -> String {
    let allocated = (max - free) * 4096;
    let reserved = resv * 4096 - allocated;
    let available = (max - resv) * 4096;
    let total = max * 4096;
    format!(
        "SWAP ACCOUNTING\n\
         allocated:                  {:9} KiB  {:5.1} GiB\n\
         reserved (not allocated):   {:9} KiB  {:5.1} GiB\n\
         used:                       {:9} KiB  {:5.1} GiB\n\
         available:                  {:9} KiB  {:5.1} GiB\n\
         total:                      {:9} KiB  {:5.1} GiB",
        allocated / 1024,
        gib(allocated),
        reserved / 1024,
        gib(reserved),
        (allocated + reserved) / 1024,
        gib(allocated + reserved),
        available / 1024,
        gib(available),
        total / 1024,
        gib(total),
    )
}

fn float_display(max: u64, free: u64, resv: u64) -> String {
    let allocated = (max - free) * 4096;
    let reserved = resv * 4096 - allocated;
    let available = (max - resv) * 4096;
    let total = max * 4096;
    let mut s = String::from("SWAP ACCOUNTING\n");
    for (label, v) in [
        ("total (available + used):        ", total),
        ("    available:                   ", available),
        ("    used (reserved + allocated): ", allocated + reserved),
        ("        reserved, unallocated:   ", reserved),
        ("        allocated:               ", allocated),
    ] {
        s.push_str(&format!("{}{:9} KiB  {:5.1} GiB\n", label, v / 1024, gib(v)));
    }
    s
}

#[test]
fn derived_quantities() {
    let a = AnonInfo::new(1000, 400, 700).unwrap();
    assert_eq!(a.allocated(), 600 * 4096);
    assert_eq!(a.reserved(), 100 * 4096);
    assert_eq!(a.available(), 300 * 4096);
    assert_eq!(a.total(), 1000 * 4096);
}

#[test]
fn quantities_add_up_to_total() {
    for (max, free, resv) in [(1000, 400, 700), (5, 5, 0), (5, 0, 5), (0, 0, 0), (123456, 1, 123455)] {
        let a = AnonInfo::new(max, free, resv).unwrap();
        assert_eq!(a.allocated() + a.reserved() + a.available(), a.total());
    }
}

#[test]
fn inconsistent_counters_are_refused() {
    assert_eq!(AnonInfo::new(10, 2, 3).unwrap_err(), SwapError::InconsistentAccounting);
    assert_eq!(AnonInfo::new(10, 11, 10).unwrap_err(), SwapError::InconsistentAccounting);
    assert_eq!(AnonInfo::new(10, 0, 11).unwrap_err(), SwapError::InconsistentAccounting);
    assert!(AnonInfo::new(usize::MAX, usize::MAX, usize::MAX).is_err());
}

#[test]
fn largest_counters_that_fit() {
    let max = (u64::MAX / 4096) as usize;
    let a = AnonInfo::new(max, 0, max).unwrap();
    assert_eq!(a.total(), (max as u64) * 4096);
    assert!(AnonInfo::new(max + 1, 0, max + 1).is_err());
}

#[test]
fn format_matches_float_rendering() {
    for (max, free, resv) in [
        (1000, 400, 700),
        (4_194_304, 1_048_576, 3_500_000),
        (262_144, 196_608, 65_536),
        (0, 0, 0),
        (16 * 262_144 + 13, 7, 16 * 262_144 + 10),
    ] {
        let a = AnonInfo::new(max, free, resv).unwrap();
        assert_eq!(a.format(), float_format(max as u64, free as u64, resv as u64));
    }
}

#[test]
fn format_exact_text() {
    let a = AnonInfo::new(262_144, 131_072, 196_608).unwrap();
    assert_eq!(
        a.format(),
        "SWAP ACCOUNTING\n\
         allocated:                     524288 KiB    0.5 GiB\n\
         reserved (not allocated):      262144 KiB    0.2 GiB\n\
         used:                          786432 KiB    0.8 GiB\n\
         available:                     262144 KiB    0.2 GiB\n\
         total:                        1048576 KiB    1.0 GiB"
    );
}

#[test]
fn display_matches_float_rendering() {
    for (max, free, resv) in [(1000, 400, 700), (4_194_304, 1_048_576, 3_500_000), (0, 0, 0)] {
        let a = AnonInfo::new(max, free, resv).unwrap();
        assert_eq!(a.display().to_string(), float_display(max as u64, free as u64, resv as u64));
    }
}

#[test]
fn repeated_snapshots_agree() {
    let first = AnonInfo::new(2048, 1024, 1536).unwrap();
    let second = AnonInfo::new(2048, 1024, 1536).unwrap();
    assert_eq!(first.format(), second.format());
    assert_eq!(first.display().to_string(), second.display().to_string());
    assert_eq!(first.reserved(), second.reserved());
}
