use base64::Engine;
use sha2::Digest;
use tecp::canonical::canonical_bytes;
use tecp::merkle::decode_digests;
use tecp::merkle::recompute_root;
use tecp::receipt::ReceiptSigner;
use tecp::types::CreateReceiptParams;
use tecp::types::FullReceipt;
use tecp::types::LogInclusion;
use tecp::types::StageReport;
use tecp::types::StageStatus;
use tecp::verification::check_transparency_log;
use tecp::verification::ReceiptVerifier;

const LOGGED_AT: i64 = 1_700_000_000_000;

fn sha(parts: &[&[u8]]) -> Vec<u8> {
    let mut hasher = sha2::Sha256::new();
    for part in parts {
        hasher.update(part);
    }
    hasher.finalize().to_vec()
}

fn b64(bytes: &[u8]) -> String {
    base64::engine::general_purpose::STANDARD.encode(bytes)
}

fn logged_receipt() -> FullReceipt {
    let params = CreateReceiptParams {
        code_ref: "git:abc123",
        input_data: b"hello world",
        output_data: b"Hello, World!",
        policy_ids: vec!["no_retention".to_string()],
        extensions: None,
        timestamp: Some(LOGGED_AT),
        nonce: Some("AAECAwQFBgcICQoLDA0ODw==".to_string()),
    };
    let mut full = ReceiptSigner::new([21u8; 32]).create_receipt(params, 0).unwrap();
    let leaf2 = sha(&[&canonical_bytes(&full.receipt)]);
    let leaf0 = sha(&[b"leaf zero"]);
    let leaf1 = sha(&[b"leaf one"]);
    let leaf3 = sha(&[b"leaf three"]);
    let left = sha(&[&leaf0, &leaf1]);
    let right = sha(&[&leaf2, &leaf3]);
    let root = sha(&[&left, &right]);
    full.extensions.log_inclusion = Some(LogInclusion {
        leaf_index: 2,
        merkle_proof: vec![b64(&leaf3), b64(&left)],
        log_root: b64(&root),
    });
    full
}

fn log_stage(full: &FullReceipt, required: bool) -> StageReport {
    check_transparency_log(&full.receipt, &full.extensions.log_inclusion, required)
}

fn only_code(report: &StageReport) -> (String, Option<String>) {
    assert_eq!(report.status, StageStatus::Invalid);
    assert_eq!(report.errors.len(), 1);
    (report.errors[0].code.clone(), report.errors[0].field.clone())
}

fn flip_char(text: &str, at: usize) -> String {
    let mut bytes = text.as_bytes().to_vec();
    bytes[at] = if bytes[at] == b'A' { b'B' } else { b'A' };
    String::from_utf8(bytes).unwrap()
}

#[test]
fn root_of_a_four_leaf_tree() {
    let leaves: Vec<Vec<u8>> = (0u8..4).map(|i| sha(&[&[i]])).collect();
    let left = sha(&[&leaves[0], &leaves[1]]);
    let right = sha(&[&leaves[2], &leaves[3]]);
    let root = sha(&[&left, &right]);
    let proofs: Vec<Vec<Vec<u8>>> = vec![
        vec![leaves[1].clone(), right.clone()],
        vec![leaves[0].clone(), right.clone()],
        vec![leaves[3].clone(), left.clone()],
        vec![leaves[2].clone(), left.clone()],
    ];
    for (index, proof) in proofs.iter().enumerate() {
        assert_eq!(recompute_root(leaves[index].clone(), index as u64, proof), root);
    }
    assert_ne!(recompute_root(leaves[0].clone(), 1, &proofs[0]), root);
    assert_ne!(recompute_root(leaves[0].clone(), 2, &proofs[0]), root);
}

#[test]
fn root_without_siblings_is_the_leaf() {
    let leaf = sha(&[b"only"]);
    assert_eq!(recompute_root(leaf.clone(), 0, &Vec::new()), leaf);
    assert_eq!(recompute_root(leaf.clone(), 7, &Vec::new()), leaf);
}

#[test]
fn root_of_one_level_follows_the_lowest_bit() {
    let leaf = sha(&[b"leaf"]);
    let sibling = sha(&[b"sibling"]);
    assert_eq!(recompute_root(leaf.clone(), 0, &vec![sibling.clone()]), sha(&[&leaf, &sibling]));
    assert_eq!(recompute_root(leaf.clone(), 1, &vec![sibling.clone()]), sha(&[&sibling, &leaf]));
    assert_eq!(recompute_root(leaf.clone(), 4, &vec![sibling.clone()]), sha(&[&leaf, &sibling]));
    assert_eq!(
        recompute_root(leaf.clone(), u64::MAX, &vec![sibling.clone()]),
        sha(&[&sibling, &leaf])
    );
}

#[test]
fn proof_entries_decode_to_digests() {
    let a = sha(&[b"a"]);
    let b = sha(&[b"b"]);
    assert_eq!(decode_digests(&vec![b64(&a), b64(&b)]), Some(vec![a.clone(), b.clone()]));
    assert_eq!(decode_digests(&Vec::new()), Some(Vec::new()));
    assert_eq!(decode_digests(&vec![b64(&a), "!".to_string()]), None);
    assert_eq!(decode_digests(&vec![b64(&a[..31])]), None);
    assert_eq!(decode_digests(&vec![String::new()]), None);
}

#[test]
fn valid_inclusion_proof_passes() {
    let full = logged_receipt();
    let report = log_stage(&full, false);
    assert_eq!(report.status, StageStatus::Passed);
    assert!(report.errors.is_empty());
    assert_eq!(log_stage(&full, true).status, StageStatus::Passed);

    let result = ReceiptVerifier::requiring_log_inclusion().verify(&full, LOGGED_AT);
    assert!(result.valid);
    assert!(result.errors.is_empty());
    assert_eq!(result.details.transparency_log, "OK");
    assert_eq!(result.details.signature, "OK");
}

#[test]
fn absent_proof_is_not_checked() {
    let mut full = logged_receipt();
    full.extensions.log_inclusion = None;
    let report = log_stage(&full, false);
    assert_eq!(report.status, StageStatus::NotChecked);
    assert!(report.errors.is_empty());
    let result = ReceiptVerifier::new().verify(&full, LOGGED_AT);
    assert!(result.valid);
    assert_eq!(result.details.transparency_log, "Not checked");
}

#[test]
fn absent_proof_fails_where_one_is_demanded() {
    let mut full = logged_receipt();
    full.extensions.log_inclusion = None;
    let report = log_stage(&full, true);
    assert_eq!(only_code(&report), ("E-LOG-001".to_string(), Some("log_inclusion".to_string())));
    assert_eq!(report.errors[0].message, "Log inclusion proof missing");
    let result = ReceiptVerifier::requiring_log_inclusion().verify(&full, LOGGED_AT);
    assert!(!result.valid);
    assert_eq!(result.details.transparency_log, "Invalid");
    assert_eq!(result.details.signature, "OK");
}

#[test]
fn any_changed_character_of_the_root_is_a_mismatch() {
    let full = logged_receipt();
    let root = full.extensions.log_inclusion.clone().unwrap().log_root;
    for at in 0..root.len() {
        let mut changed = full.clone();
        changed.extensions.log_inclusion.as_mut().unwrap().log_root = flip_char(&root, at);
        let report = log_stage(&changed, false);
        assert_eq!(only_code(&report), ("E-LOG-003".to_string(), Some("log_root".to_string())));
        assert_eq!(report.errors[0].message, "Root hash mismatch");
    }
    let mut changed = full.clone();
    changed.extensions.log_inclusion.as_mut().unwrap().log_root = String::new();
    assert_eq!(only_code(&log_stage(&changed, false)).0, "E-LOG-003");
    let mut changed = full.clone();
    changed.extensions.log_inclusion.as_mut().unwrap().log_root = "not base64".to_string();
    assert_eq!(only_code(&log_stage(&changed, false)).0, "E-LOG-003");
}

#[test]
fn malformed_proof_entry_is_an_invalid_proof() {
    let full = logged_receipt();
    for bad in ["", "@@@", "AAAA", "uU0nuZNNPgilLlLX2n2r+sSE7+N6U4DukIj3rOLvze=="] {
        for at in 0..2 {
            let mut changed = full.clone();
            changed.extensions.log_inclusion.as_mut().unwrap().merkle_proof[at] = bad.to_string();
            let report = log_stage(&changed, false);
            assert_eq!(
                only_code(&report),
                ("E-LOG-002".to_string(), Some("merkle_proof".to_string()))
            );
            assert_eq!(report.errors[0].message, "Log inclusion proof invalid");
        }
    }
}

#[test]
fn changed_proof_entry_never_passes() {
    let full = logged_receipt();
    let proof = full.extensions.log_inclusion.clone().unwrap().merkle_proof;
    for (at, entry) in proof.iter().enumerate() {
        for position in 0..entry.len() {
            let mut changed = full.clone();
            changed.extensions.log_inclusion.as_mut().unwrap().merkle_proof[at] =
                flip_char(entry, position);
            let report = log_stage(&changed, false);
            let (code, _) = only_code(&report);
            assert!(code == "E-LOG-002" || code == "E-LOG-003");
        }
    }
}

#[test]
fn wrong_index_or_missing_sibling_is_a_mismatch() {
    let full = logged_receipt();
    for index in [0u64, 1, 3, 4, 5, 7] {
        let mut changed = full.clone();
        changed.extensions.log_inclusion.as_mut().unwrap().leaf_index = index;
        assert_eq!(only_code(&log_stage(&changed, false)).0, "E-LOG-003");
    }
    let mut changed = full.clone();
    changed.extensions.log_inclusion.as_mut().unwrap().merkle_proof.pop();
    assert_eq!(only_code(&log_stage(&changed, false)).0, "E-LOG-003");
}

#[test]
fn only_one_index_bit_per_sibling_is_read() {
    let mut full = logged_receipt();
    full.extensions.log_inclusion.as_mut().unwrap().leaf_index = 6;
    assert_eq!(log_stage(&full, false).status, StageStatus::Passed);
    full.extensions.log_inclusion.as_mut().unwrap().leaf_index = 2 + (1 << 40);
    assert_eq!(log_stage(&full, false).status, StageStatus::Passed);
}

#[test]
fn proof_is_bound_to_the_signed_fields() {
    let mut full = logged_receipt();
    full.receipt.code_ref = "git:abc124".to_string();
    assert_eq!(only_code(&log_stage(&full, false)).0, "E-LOG-003");
    let result = ReceiptVerifier::new().verify(&full, LOGGED_AT);
    let found: Vec<&str> = result.errors.iter().map(|e| e.code.as_str()).collect();
    assert_eq!(found, vec!["E-SIG-002", "E-LOG-003"]);
}

#[test]
fn failed_log_stage_fails_the_result_alone() {
    let mut full = logged_receipt();
    full.extensions.log_inclusion.as_mut().unwrap().leaf_index = 3;
    let result = ReceiptVerifier::new().verify(&full, LOGGED_AT);
    assert!(!result.valid);
    assert_eq!(result.errors.len(), 1);
    assert_eq!(result.errors[0].code, "E-LOG-003");
    assert_eq!(result.details.signature, "OK");
    assert_eq!(result.details.timestamp, "OK");
    assert_eq!(result.details.schema, "OK");
    assert_eq!(result.details.transparency_log, "Invalid");
}
