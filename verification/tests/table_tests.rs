use fas_stats::tables::build_alpha_table;
use fas_stats::tables::build_gc_table;

#[test]
fn alpha_table_flags_letters() {
    let t = build_alpha_table();
    assert_eq!(t.lookup(b'A'), 1);
    assert_eq!(t.lookup(b'Z'), 1);
    assert_eq!(t.lookup(b'a'), 1);
    assert_eq!(t.lookup(b'z'), 1);
    assert_eq!(t.lookup(b'N'), 1);
    assert_eq!(t.lookup(b'@'), 0);
    assert_eq!(t.lookup(b'['), 0);
    assert_eq!(t.lookup(b'`'), 0);
    assert_eq!(t.lookup(b'{'), 0);
    assert_eq!(t.lookup(b'-'), 0);
    assert_eq!(t.lookup(b'\n'), 0);
    assert_eq!(t.lookup(b'>'), 0);
    assert_eq!(t.lookup(0), 0);
    assert_eq!(t.lookup(255), 0);
}

#[test]
fn alpha_table_counts_52_letters() {
    let t = build_alpha_table();
    let mut ones: u64 = 0;
    for b in 0..=255u8 {
        ones += t.lookup(b);
    }
    assert_eq!(ones, 52);
}

#[test]
fn gc_table_flags_only_the_four_gc_symbols() {
    let t = build_gc_table();
    assert_eq!(t.lookup(b'G'), 1);
    assert_eq!(t.lookup(b'C'), 1);
    assert_eq!(t.lookup(b'g'), 1);
    assert_eq!(t.lookup(b'c'), 1);
    assert_eq!(t.lookup(b'A'), 0);
    assert_eq!(t.lookup(b'T'), 0);
    assert_eq!(t.lookup(b'N'), 0);
    assert_eq!(t.lookup(b'\n'), 0);
    let mut ones: u64 = 0;
    for b in 0..=255u8 {
        ones += t.lookup(b);
    }
    assert_eq!(ones, 4);
}
