use rust_optimizer::process::collect_reports;
use rust_optimizer::process::report_for;
use rust_optimizer::process::should_fingerprint;
use rust_optimizer::process::FileOutcome;

#[test]
fn fingerprint_matches_reference_hash() {
    let data = b"hello cache".to_vec();
    let outcome = FileOutcome::Loaded { size: data.len() as u64, data: data.clone() };
    let r = report_for("a".to_string(), &outcome, 0, None, 7);
    let expect = blake3::hash(&data).to_hex().to_string();
    let got = r.blake3_hex.expect("a loaded file at or above the threshold is hashed");
    assert_eq!(got, expect);
    assert_eq!(got.len(), 64);
    assert_eq!(r.size, data.len() as u64);
    assert_eq!(r.elapsed_ms, 7);
    assert_eq!(r.path, "a");
}

#[test]
fn identical_content_identical_digest() {
    let data = vec![42u8; 100];
    let o1 = FileOutcome::Loaded { size: 100, data: data.clone() };
    let o2 = FileOutcome::Loaded { size: 100, data };
    let r1 = report_for("x".to_string(), &o1, 0, None, 0);
    let r2 = report_for("y".to_string(), &o2, 0, None, 0);
    assert!(r1.blake3_hex.is_some());
    assert_eq!(r1.blake3_hex, r2.blake3_hex);
}

#[test]
fn small_files_carry_no_fingerprint() {
    let r = report_for("s".to_string(), &FileOutcome::Small { size: 10 }, 100, None, 1);
    assert_eq!(r.size, 10);
    assert!(r.blake3_hex.is_none());
    assert!(r.xor64_gpu.is_none());
    let below = FileOutcome::Loaded { size: 50, data: vec![0u8; 50] };
    let r2 = report_for("t".to_string(), &below, 100, Some(9), 1);
    assert!(r2.blake3_hex.is_none());
    assert!(r2.xor64_gpu.is_none());
}

#[test]
fn fallback_reports_on_errors() {
    let r = report_for("gone".to_string(), &FileOutcome::StatFailed, 0, None, 5);
    assert_eq!(r.size, 0);
    assert!(r.blake3_hex.is_none());
    assert!(r.xor64_gpu.is_none());
    assert_eq!(r.elapsed_ms, 0);
    let r2 = report_for("locked".to_string(), &FileOutcome::MapFailed { size: 33 }, 0, None, 5);
    assert_eq!(r2.size, 33);
    assert!(r2.blake3_hex.is_none());
    assert_eq!(r2.elapsed_ms, 0);
}

#[test]
fn threshold_decision() {
    assert!(should_fingerprint(100, 100));
    assert!(!should_fingerprint(99, 100));
    assert!(should_fingerprint(0, 0));
}

#[test]
fn scenario_min_size_filter() {
    let inputs = vec![
        ("a".to_string(), FileOutcome::Small { size: 10 }),
        ("b".to_string(), FileOutcome::Loaded { size: 2000, data: vec![7u8; 2000] }),
        ("c".to_string(), FileOutcome::Small { size: 50 }),
    ];
    let rs = collect_reports(&inputs, 100, false, 1);
    assert_eq!(rs.len(), 3);
    assert!(rs[0].blake3_hex.is_none());
    assert!(rs[1].blake3_hex.is_some());
    assert!(rs[2].blake3_hex.is_none());
    assert_eq!(rs[0].size, 10);
    assert_eq!(rs[1].size, 2000);
    assert_eq!(rs[2].size, 50);
    assert_eq!(rs[0].path, "a");
    assert_eq!(rs[1].path, "b");
    assert_eq!(rs[2].path, "c");
}

#[test]
fn scenario_one_denied_among_readable() {
    let mut inputs = Vec::new();
    for i in 0..5u8 {
        inputs.push((format!("ok{}", i), FileOutcome::Loaded { size: 8, data: vec![i; 8] }));
    }
    inputs.push(("denied".to_string(), FileOutcome::MapFailed { size: 8 }));
    let rs = collect_reports(&inputs, 0, false, 4);
    assert_eq!(rs.len(), 6);
    let mut fallbacks: usize = 0;
    for r in &rs {
        if r.blake3_hex.is_none() {
            fallbacks += 1;
            assert_eq!(r.path, "denied");
            assert_eq!(r.size, 8);
        }
    }
    assert_eq!(fallbacks, 1);
}

#[test]
fn failure_leaves_other_reports_unchanged() {
    let mut good: Vec<(String, FileOutcome)> = Vec::new();
    let mut faulty: Vec<(String, FileOutcome)> = Vec::new();
    for i in 0..4u8 {
        good.push((format!("f{}", i), FileOutcome::Loaded { size: 16, data: vec![i; 16] }));
        if i == 2 {
            faulty.push((format!("f{}", i), FileOutcome::StatFailed));
        } else {
            faulty.push((format!("f{}", i), FileOutcome::Loaded { size: 16, data: vec![i; 16] }));
        }
    }
    let rs_good = collect_reports(&good, 0, false, 2);
    let rs_faulty = collect_reports(&faulty, 0, false, 2);
    assert_eq!(rs_good.len(), 4);
    assert_eq!(rs_faulty.len(), 4);
    for i in 0..4 {
        if i == 2 {
            assert!(rs_faulty[i].blake3_hex.is_none());
            assert_eq!(rs_faulty[i].size, 0);
            continue;
        }
        assert_eq!(rs_good[i].path, rs_faulty[i].path);
        assert_eq!(rs_good[i].size, rs_faulty[i].size);
        assert_eq!(rs_good[i].blake3_hex, rs_faulty[i].blake3_hex);
        assert_eq!(rs_good[i].xor64_gpu, rs_faulty[i].xor64_gpu);
        assert_eq!(rs_good[i].elapsed_ms, rs_faulty[i].elapsed_ms);
    }
}

#[test]
fn gpu_checksum_recorded_when_requested() {
    let data = vec![1u8, 2, 3, 4, 5, 6, 7, 8];
    let inputs = vec![("g".to_string(), FileOutcome::Loaded { size: 8, data })];
    let rs = collect_reports(&inputs, 0, true, 64);
    assert_eq!(rs[0].xor64_gpu, Some(0x0807060504030201));
    let rs_off = collect_reports(&inputs, 0, false, 64);
    assert_eq!(rs_off[0].xor64_gpu, None);
}
