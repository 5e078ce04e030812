use base64::Engine;
use tecp::error::ErrorCode;
use tecp::receipt::ReceiptSigner;
use tecp::types::CreateReceiptParams;
use tecp::types::FullReceipt;
use tecp::types::StageReport;
use tecp::types::StageStatus;
use tecp::types::VerificationDetails;
use tecp::types::VerificationError;
use tecp::types::VerificationResult;
use tecp::verification::check_schema;
use tecp::verification::check_signature;
use tecp::verification::check_timestamp;
use tecp::verification::same_text;
use tecp::verification::ReceiptVerifier;

const SIGNED_AT: i64 = 1_700_000_000_000;

fn issued() -> FullReceipt {
    let params = CreateReceiptParams {
        code_ref: "git:abc123",
        input_data: b"hello world",
        output_data: b"Hello, World!",
        policy_ids: vec!["no_retention".to_string()],
        extensions: None,
        timestamp: Some(SIGNED_AT),
        nonce: Some("AAECAwQFBgcICQoLDA0ODw==".to_string()),
    };
    ReceiptSigner::new([11u8; 32]).create_receipt(params, 0).unwrap()
}

fn codes(report: &StageReport) -> Vec<(String, Option<String>)> {
    report.errors.iter().map(|e| (e.code.clone(), e.field.clone())).collect()
}

fn one(code: &str, field: &str) -> Vec<(String, Option<String>)> {
    vec![(code.to_string(), Some(field.to_string()))]
}

#[test]
fn timestamp_boundaries_are_inclusive() {
    let now: i64 = 1_800_000_000_000;
    let at_age = check_timestamp(now - 86_400_000, now);
    assert_eq!(at_age.status, StageStatus::Passed);
    assert!(at_age.errors.is_empty());

    let past_age = check_timestamp(now - 86_400_001, now);
    assert_eq!(past_age.status, StageStatus::Invalid);
    assert_eq!(codes(&past_age), one("E-TS-003", "ts"));
    assert_eq!(past_age.errors[0].message, "Receipt expired (>24 hours)");

    let at_skew = check_timestamp(now + 300_000, now);
    assert_eq!(at_skew.status, StageStatus::Passed);
    assert!(at_skew.errors.is_empty());

    let past_skew = check_timestamp(now + 300_001, now);
    assert_eq!(past_skew.status, StageStatus::Invalid);
    assert_eq!(codes(&past_skew), one("E-AGE-002", "ts"));
    assert_eq!(past_skew.errors[0].message, "Receipt timestamp in future");

    assert_eq!(check_timestamp(now, now).status, StageStatus::Passed);
}

#[test]
fn timestamp_stage_at_the_ends_of_the_range() {
    assert_eq!(codes(&check_timestamp(i64::MIN, i64::MAX)), one("E-TS-003", "ts"));
    assert_eq!(codes(&check_timestamp(i64::MAX, i64::MIN)), one("E-AGE-002", "ts"));
    assert_eq!(check_timestamp(i64::MIN, i64::MIN).status, StageStatus::Passed);
    assert_eq!(check_timestamp(i64::MAX, i64::MAX - 300_000).status, StageStatus::Passed);
    assert_eq!(check_timestamp(i64::MIN, i64::MIN + 86_400_000).status, StageStatus::Passed);
    assert_eq!(check_timestamp(-1, 86_399_999).status, StageStatus::Passed);
    assert_eq!(check_timestamp(-2, 86_399_999).status, StageStatus::Invalid);
}

#[test]
fn verify_reports_timestamp_boundaries() {
    let full = issued();
    let verifier = ReceiptVerifier::new();
    assert!(verifier.verify(&full, SIGNED_AT + 86_400_000).valid);
    let expired = verifier.verify(&full, SIGNED_AT + 86_400_001);
    assert!(!expired.valid);
    assert_eq!(expired.errors.len(), 1);
    assert_eq!(expired.errors[0].code, "E-TS-003");
    assert_eq!(expired.details.timestamp, "Invalid");
    assert_eq!(expired.details.signature, "OK");
    assert_eq!(expired.details.schema, "OK");
    assert_eq!(expired.details.transparency_log, "Not checked");

    assert!(verifier.verify(&full, SIGNED_AT - 300_000).valid);
    let ahead = verifier.verify(&full, SIGNED_AT - 300_001);
    assert!(!ahead.valid);
    assert_eq!(ahead.errors.len(), 1);
    assert_eq!(ahead.errors[0].code, "E-AGE-002");
}

#[test]
fn schema_accepts_an_issued_receipt() {
    let report = check_schema(&issued().receipt);
    assert_eq!(report.status, StageStatus::Passed);
    assert!(report.errors.is_empty());
}

#[test]
fn schema_rejects_unknown_version() {
    for version in ["TECP-0.2", "", "tecp-0.1", "TECP-0.1 ", "TECP-0.10"] {
        let mut full = issued();
        full.receipt.version = version.to_string();
        let report = check_schema(&full.receipt);
        assert_eq!(report.status, StageStatus::Invalid);
        assert_eq!(codes(&report), one("E-SCHEMA-004", "version"));
        assert_eq!(report.errors[0].message, "Unknown receipt version");
    }
}

#[test]
fn schema_reports_empty_fields_as_missing() {
    let mut full = issued();
    full.receipt.nonce = String::new();
    full.receipt.input_hash = String::new();
    full.receipt.output_hash = String::new();
    full.receipt.sig = String::new();
    full.receipt.pubkey = String::new();
    let report = check_schema(&full.receipt);
    assert_eq!(report.status, StageStatus::Invalid);
    let expected: Vec<(String, Option<String>)> =
        ["nonce", "input_hash", "output_hash", "sig", "pubkey"]
            .iter()
            .map(|f| ("E-SCHEMA-001".to_string(), Some(f.to_string())))
            .collect();
    assert_eq!(codes(&report), expected);
    assert_eq!(report.errors[0].message, "Missing required field");
}

#[test]
fn schema_reports_badly_encoded_fields() {
    let mut full = issued();
    full.receipt.input_hash = "***".to_string();
    assert_eq!(codes(&check_schema(&full.receipt)), one("E-SCHEMA-003", "input_hash"));

    let mut full = issued();
    full.receipt.output_hash = "AAAA".to_string();
    let report = check_schema(&full.receipt);
    assert_eq!(codes(&report), one("E-SCHEMA-003", "output_hash"));
    assert_eq!(report.errors[0].message, "Invalid field format");

    let mut full = issued();
    full.receipt.nonce = "AAECAwQFBgcICQoLDA0O".to_string();
    assert_eq!(codes(&check_schema(&full.receipt)), one("E-SCHEMA-003", "nonce"));

    let mut full = issued();
    full.receipt.sig = full.receipt.pubkey.clone();
    assert_eq!(codes(&check_schema(&full.receipt)), one("E-SCHEMA-003", "sig"));

    let mut full = issued();
    full.receipt.pubkey = full.receipt.sig.clone();
    assert_eq!(codes(&check_schema(&full.receipt)), one("E-SCHEMA-003", "pubkey"));

    let mut full = issued();
    full.receipt.input_hash.insert(3, ' ');
    assert_eq!(codes(&check_schema(&full.receipt)), one("E-SCHEMA-003", "input_hash"));
}

#[test]
fn schema_failure_stops_the_other_stages() {
    let mut full = issued();
    full.receipt.version = "TECP-9".to_string();
    full.receipt.sig = "???".to_string();
    full.receipt.ts = 0;
    let result = ReceiptVerifier::requiring_log_inclusion().verify(&full, SIGNED_AT);
    assert!(!result.valid);
    let found: Vec<&str> = result.errors.iter().map(|e| e.code.as_str()).collect();
    assert_eq!(found, vec!["E-SCHEMA-004", "E-SCHEMA-003"]);
    assert_eq!(result.details.schema, "Invalid");
    assert_eq!(result.details.signature, "Not checked");
    assert_eq!(result.details.timestamp, "Not checked");
    assert_eq!(result.details.transparency_log, "Not checked");
}

#[test]
fn errors_of_all_stages_are_collected_in_stage_order() {
    let mut full = issued();
    full.receipt.code_ref = "changed".to_string();
    let result = ReceiptVerifier::requiring_log_inclusion().verify(&full, SIGNED_AT + 90_000_000);
    assert!(!result.valid);
    let found: Vec<&str> = result.errors.iter().map(|e| e.code.as_str()).collect();
    assert_eq!(found, vec!["E-TS-003", "E-SIG-002", "E-LOG-001"]);
    assert_eq!(result.details.schema, "OK");
    assert_eq!(result.details.timestamp, "Invalid");
    assert_eq!(result.details.signature, "Invalid");
    assert_eq!(result.details.transparency_log, "Invalid");
}

#[test]
fn signature_stage_reports_malformed_encodings() {
    let mut full = issued();
    full.receipt.sig = "not base64".to_string();
    assert_eq!(codes(&check_signature(&full.receipt)), one("E-SIG-001", "sig"));

    let mut full = issued();
    full.receipt.sig = "AAAA".to_string();
    let report = check_signature(&full.receipt);
    assert_eq!(codes(&report), one("E-SIG-001", "sig"));
    assert_eq!(report.errors[0].message, "Invalid signature format");

    let mut full = issued();
    full.receipt.pubkey = "AAAA".to_string();
    let report = check_signature(&full.receipt);
    assert_eq!(codes(&report), one("E-SIG-003", "pubkey"));
    assert_eq!(report.errors[0].message, "Public key format invalid");

    let mut full = issued();
    full.receipt.pubkey = "%".to_string();
    full.receipt.sig = "%".to_string();
    let report = check_signature(&full.receipt);
    assert_eq!(report.status, StageStatus::Invalid);
    assert_eq!(
        codes(&report),
        vec![
            ("E-SIG-003".to_string(), Some("pubkey".to_string())),
            ("E-SIG-001".to_string(), Some("sig".to_string())),
        ]
    );
}

#[test]
fn signature_stage_rejects_bytes_that_are_no_curve_point() {
    let engine = base64::engine::general_purpose::STANDARD;
    let mut off_curve = None;
    for first in 0u8..=255 {
        let mut candidate = [0u8; 32];
        candidate[0] = first;
        if ed25519_dalek::VerifyingKey::from_bytes(&candidate).is_err() {
            off_curve = Some(candidate);
            break;
        }
    }
    let off_curve = off_curve.expect("some encoding is off the curve");
    let mut full = issued();
    full.receipt.pubkey = engine.encode(off_curve);
    assert_eq!(check_schema(&full.receipt).status, StageStatus::Passed);
    assert_eq!(codes(&check_signature(&full.receipt)), one("E-SIG-003", "pubkey"));
    let result = ReceiptVerifier::new().verify(&full, SIGNED_AT);
    assert!(!result.valid);
    assert_eq!(result.details.signature, "Invalid");
    assert_eq!(result.errors[0].code, "E-SIG-003");
}

#[test]
fn signature_stage_accepts_an_issued_receipt() {
    let report = check_signature(&issued().receipt);
    assert_eq!(report.status, StageStatus::Passed);
    assert!(report.errors.is_empty());
}

#[test]
fn flipped_signature_bit_fails() {
    let engine = base64::engine::general_purpose::STANDARD;
    let mut full = issued();
    let mut sig = engine.decode(&full.receipt.sig).unwrap();
    sig[10] ^= 0x01;
    full.receipt.sig = engine.encode(sig);
    assert_eq!(codes(&check_signature(&full.receipt)), one("E-SIG-002", "sig"));
}

#[test]
fn same_text_compares_contents() {
    assert!(same_text("TECP-0.1", "TECP-0.1"));
    assert!(same_text("", ""));
    assert!(!same_text("TECP-0.1", "TECP-0.2"));
    assert!(!same_text("a", "ab"));
    assert!(same_text("\u{e9}", "\u{e9}"));
    assert!(!same_text("\u{e9}", "e"));
}

#[test]
fn baseline_details_and_result() {
    let details = VerificationDetails::default();
    assert_eq!(details.signature, "Invalid");
    assert_eq!(details.timestamp, "Not checked");
    assert_eq!(details.schema, "Not checked");
    assert_eq!(details.transparency_log, "Not checked");

    let result = VerificationResult::default();
    assert!(!result.valid);
    assert!(result.errors.is_empty());
    assert_eq!(result.details, details);
    assert!(result.performance.is_empty());
}

#[test]
fn status_labels() {
    assert_eq!(StageStatus::Passed.label(), "OK");
    assert_eq!(StageStatus::Invalid.label(), "Invalid");
    assert_eq!(StageStatus::NotChecked.label(), "Not checked");
}

#[test]
fn stage_report_constructors() {
    let passed = StageReport::passed();
    assert_eq!(passed.status, StageStatus::Passed);
    assert!(passed.errors.is_empty());

    let skipped = StageReport::skipped();
    assert_eq!(skipped.status, StageStatus::NotChecked);
    assert!(skipped.errors.is_empty());

    let failed = StageReport::failed(ErrorCode::LogUnavailable, "log_root");
    assert_eq!(failed.status, StageStatus::Invalid);
    assert_eq!(
        failed.errors,
        vec![VerificationError {
            code: "E-LOG-004".to_string(),
            message: "Log service unavailable".to_string(),
            field: Some("log_root".to_string()),
        }]
    );

    assert_eq!(StageReport::of_errors(Vec::new()).status, StageStatus::Passed);
    let some = StageReport::of_errors(vec![VerificationError::new(ErrorCode::TsSkew, "ts")]);
    assert_eq!(some.status, StageStatus::Invalid);
    assert_eq!(some.errors[0].code, "E-TS-002");
}

#[test]
fn results_from_stages() {
    let ok = VerificationResult::from_stages(
        StageReport::passed(),
        StageReport::passed(),
        StageReport::passed(),
        StageReport::passed(),
    );
    assert!(ok.valid);
    assert_eq!(ok.details.transparency_log, "OK");

    let unchecked_log = VerificationResult::from_stages(
        StageReport::passed(),
        StageReport::passed(),
        StageReport::passed(),
        StageReport::skipped(),
    );
    assert!(unchecked_log.valid);

    let bad_log = VerificationResult::from_stages(
        StageReport::passed(),
        StageReport::passed(),
        StageReport::passed(),
        StageReport::failed(ErrorCode::LogRootMismatch, "log_root"),
    );
    assert!(!bad_log.valid);
    assert_eq!(bad_log.errors.len(), 1);

    let unchecked_signature = VerificationResult::from_stages(
        StageReport::passed(),
        StageReport::passed(),
        StageReport::skipped(),
        StageReport::passed(),
    );
    assert!(!unchecked_signature.valid);

    let all_bad = VerificationResult::from_stages(
        StageReport::failed(ErrorCode::SchemaFieldType, "ts"),
        StageReport::failed(ErrorCode::TsExpired, "ts"),
        StageReport::failed(ErrorCode::SigFailed, "sig"),
        StageReport::failed(ErrorCode::LogProofInvalid, "merkle_proof"),
    );
    assert!(!all_bad.valid);
    let found: Vec<&str> = all_bad.errors.iter().map(|e| e.code.as_str()).collect();
    assert_eq!(found, vec!["E-SCHEMA-002", "E-TS-003", "E-SIG-002", "E-LOG-002"]);

    let schema_only =
        VerificationResult::schema_failure(StageReport::failed(ErrorCode::SchemaVersion, "version"));
    assert!(!schema_only.valid);
    assert_eq!(schema_only.errors.len(), 1);
    assert_eq!(schema_only.details.schema, "Invalid");
    assert_eq!(schema_only.details.signature, "Not checked");
}

#[test]
fn timings_are_recorded_in_order() {
    let mut result = ReceiptVerifier::new().verify(&issued(), SIGNED_AT);
    let before = result.clone();
    result.record_timing("schema_ms", 1);
    result.record_timing("total_ms", 4);
    assert_eq!(result.performance.len(), 2);
    assert_eq!(result.performance[0].name, "schema_ms");
    assert_eq!(result.performance[0].millis, 1);
    assert_eq!(result.performance[1].name, "total_ms");
    assert_eq!(result.performance[1].millis, 4);
    assert_eq!(result.valid, before.valid);
    assert_eq!(result.errors, before.errors);
    assert_eq!(result.details, before.details);
}

#[test]
fn error_table_is_complete() {
    let table: Vec<(&str, &str)> =
        ErrorCode::all().iter().map(|c| (c.code(), c.message())).collect();
    let expected = vec![
        ("E-SIG-001", "Invalid signature format"),
        ("E-SIG-002", "Signature verification failed"),
        ("E-SIG-003", "Public key format invalid"),
        ("E-TS-001", "Timestamp format invalid"),
        ("E-TS-002", "Clock skew exceeded (>5 minutes)"),
        ("E-TS-003", "Receipt expired (>24 hours)"),
        ("E-AGE-001", "Receipt too old"),
        ("E-AGE-002", "Receipt timestamp in future"),
        ("E-SCHEMA-001", "Missing required field"),
        ("E-SCHEMA-002", "Invalid field type"),
        ("E-SCHEMA-003", "Invalid field format"),
        ("E-SCHEMA-004", "Unknown receipt version"),
        ("E-LOG-001", "Log inclusion proof missing"),
        ("E-LOG-002", "Log inclusion proof invalid"),
        ("E-LOG-003", "Root hash mismatch"),
        ("E-LOG-004", "Log service unavailable"),
        ("E-POLICY-001", "Unknown policy ID"),
        ("E-POLICY-002", "Policy validation failed"),
        ("E-POLICY-003", "Policy requirements not met"),
    ];
    assert_eq!(table, expected);
}

#[test]
fn protocol_constants() {
    assert_eq!(tecp::TECP_VERSION, "TECP-0.1");
    assert_eq!(tecp::MAX_RECEIPT_AGE_MS, 86_400_000);
    assert_eq!(tecp::MAX_CLOCK_SKEW_MS, 300_000);
    assert_eq!(tecp::MAX_RECEIPT_SIZE_BYTES, 8192);
}
