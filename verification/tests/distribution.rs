use ironlight::distribution::{
    build_instruction_array, build_weighted_table, names_freqs, OpcodeDistribution,
};
use ironlight::mnemonic::Mnemonic;

#[test]
fn declared_weights_sum_to_256() {
    let pairs = names_freqs();
    let total: u32 = pairs.iter().map(|&(_, w)| w as u32).sum();
    assert_eq!(total, 256);
}

#[test]
fn construction_succeeds_on_exact_sum() {
    let pairs = names_freqs();
    let table = build_weighted_table(&pairs);
    assert!(table.is_some());
    assert_eq!(table.unwrap().len(), 256);
}

#[test]
fn construction_fails_below_256() {
    let pairs = vec![(Mnemonic::Nop, 255u8)];
    assert!(build_weighted_table(&pairs).is_none());
}

#[test]
fn construction_fails_above_256() {
    let pairs = vec![(Mnemonic::IAddRs, 200u8), (Mnemonic::ISubR, 100u8)];
    assert!(build_weighted_table(&pairs).is_none());
}

#[test]
fn construction_fails_on_empty_list() {
    let pairs: Vec<(Mnemonic, u8)> = Vec::new();
    assert!(build_weighted_table(&pairs).is_none());
}

#[test]
fn construction_succeeds_on_other_exact_sum() {
    let pairs = vec![(Mnemonic::IAddRs, 255u8), (Mnemonic::Nop, 1u8)];
    let table = build_weighted_table(&pairs).unwrap();
    assert_eq!(table.len(), 256);
    assert_eq!(table[254], Mnemonic::IAddRs);
    assert_eq!(table[255], Mnemonic::Nop);
}

#[test]
fn table_reproduces_declared_order() {
    let arr = build_instruction_array();
    assert_eq!(arr.len(), 256);
    let mut expected: Vec<Mnemonic> = Vec::new();
    for (m, w) in names_freqs() {
        for _ in 0..w {
            expected.push(m);
        }
    }
    assert_eq!(arr, expected);
}

#[test]
fn table_prefix_and_boundaries() {
    let arr = build_instruction_array();
    for i in 0..16 {
        assert_eq!(arr[i], Mnemonic::IAddRs);
    }
    for i in 16..23 {
        assert_eq!(arr[i], Mnemonic::IAddM);
    }
    for i in 23..39 {
        assert_eq!(arr[i], Mnemonic::ISubR);
    }
    assert_eq!(arr[239], Mnemonic::CFround);
    for i in 240..256 {
        assert_eq!(arr[i], Mnemonic::IStore);
    }
}

#[test]
fn mnemonic_for_total_and_nonempty() {
    let d = OpcodeDistribution::new();
    let arr = build_instruction_array();
    for op in 0..=255u8 {
        let m = d.mnemonic_for(op);
        assert_eq!(m, arr[op as usize]);
        assert!(!m.name().is_empty());
    }
}

#[test]
fn mnemonic_for_deterministic() {
    let d1 = OpcodeDistribution::new();
    let d2 = OpcodeDistribution::new();
    for op in 0..=255u8 {
        assert_eq!(d1.mnemonic_for(op), d1.mnemonic_for(op));
        assert_eq!(d1.mnemonic_for(op), d2.mnemonic_for(op));
    }
}

#[test]
fn table_construction_idempotent() {
    assert_eq!(build_instruction_array(), build_instruction_array());
}

#[test]
fn occurrence_counts_match_weights() {
    let arr = build_instruction_array();
    for (m, w) in names_freqs() {
        let count = arr.iter().filter(|&&x| x == m).count();
        assert_eq!(count, w as usize);
    }
}
