use tecp::pipeline::RootLookup;
use tecp::pipeline::Stage;
use tecp::pipeline::VerificationRun;
use tecp::receipt::ReceiptSigner;
use tecp::types::CreateReceiptParams;
use tecp::types::FullReceipt;
use tecp::types::LogInclusion;
use tecp::types::StageStatus;
use tecp::verification::ReceiptVerifier;

const STEPPED_AT: i64 = 1_700_000_000_000;

fn stepped_receipt() -> FullReceipt {
    let params = CreateReceiptParams {
        code_ref: "git:abc123",
        input_data: b"hello world",
        output_data: b"Hello, World!",
        policy_ids: vec!["no_retention".to_string()],
        extensions: None,
        timestamp: Some(STEPPED_AT),
        nonce: Some("AAECAwQFBgcICQoLDA0ODw==".to_string()),
    };
    ReceiptSigner::new([33u8; 32]).create_receipt(params, 0).unwrap()
}

fn with_trivial_log_proof(mut full: FullReceipt) -> FullReceipt {
    use_leaf_as_root(&mut full);
    full
}

fn use_leaf_as_root(full: &mut FullReceipt) {
    let leaf = tecp::crypto::hash_payload(&tecp::canonical::canonical_bytes(&full.receipt));
    full.extensions.log_inclusion =
        Some(LogInclusion { leaf_index: 0, merkle_proof: Vec::new(), log_root: leaf });
}

fn run_all(verifier: &ReceiptVerifier, full: &FullReceipt, now: i64) -> (VerificationRun, Vec<Stage>) {
    let mut run = VerificationRun::start();
    let mut ran = Vec::new();
    while let Some(stage) = run.step(verifier, full, now) {
        ran.push(stage);
        assert!(ran.len() <= 4);
    }
    (run, ran)
}

#[test]
fn stages_run_in_order() {
    let full = stepped_receipt();
    let verifier = ReceiptVerifier::new();
    let mut run = VerificationRun::start();
    assert_eq!(run.next_stage(), Some(Stage::Schema));
    assert_eq!(run.step(&verifier, &full, STEPPED_AT), Some(Stage::Schema));
    assert_eq!(run.next_stage(), Some(Stage::Timestamp));
    assert_eq!(run.step(&verifier, &full, STEPPED_AT), Some(Stage::Timestamp));
    assert_eq!(run.step(&verifier, &full, STEPPED_AT), Some(Stage::Signature));
    assert_eq!(run.step(&verifier, &full, STEPPED_AT), Some(Stage::TransparencyLog));
    assert_eq!(run.next_stage(), None);
    let before = run.clone();
    assert_eq!(run.step(&verifier, &full, STEPPED_AT), None);
    assert_eq!(run, before);
}

#[test]
fn stepped_run_gives_the_result_of_verify() {
    let good = stepped_receipt();
    let mut tampered = stepped_receipt();
    tampered.receipt.code_ref = "other".to_string();
    let mut malformed = stepped_receipt();
    malformed.receipt.version = "X".to_string();
    let logged = with_trivial_log_proof(stepped_receipt());
    for verifier in [ReceiptVerifier::new(), ReceiptVerifier::requiring_log_inclusion()] {
        for full in [&good, &tampered, &malformed, &logged] {
            for now in [STEPPED_AT, STEPPED_AT + 100_000_000, STEPPED_AT - 400_000] {
                let (run, _) = run_all(&verifier, full, now);
                assert_eq!(run.finish(), verifier.verify(full, now));
            }
        }
    }
}

#[test]
fn failed_schema_ends_the_run() {
    let mut full = stepped_receipt();
    full.receipt.pubkey = String::new();
    let (run, ran) = run_all(&ReceiptVerifier::new(), &full, STEPPED_AT);
    assert_eq!(ran, vec![Stage::Schema]);
    assert!(run.timestamp.is_none());
    assert!(run.signature.is_none());
    assert!(run.transparency_log.is_none());
    let result = run.finish();
    assert!(!result.valid);
    assert_eq!(result.errors.len(), 1);
    assert_eq!(result.errors[0].code, "E-SCHEMA-001");
    assert_eq!(result.details.schema, "Invalid");
    assert_eq!(result.details.signature, "Not checked");
}

#[test]
fn unfinished_run_is_not_valid() {
    let full = stepped_receipt();
    let verifier = ReceiptVerifier::new();
    let not_started = VerificationRun::start().finish();
    assert!(!not_started.valid);
    assert!(not_started.errors.is_empty());
    assert_eq!(not_started.details.schema, "Not checked");

    let mut run = VerificationRun::start();
    run.step(&verifier, &full, STEPPED_AT);
    run.step(&verifier, &full, STEPPED_AT);
    let halfway = run.finish();
    assert!(!halfway.valid);
    assert_eq!(halfway.details.schema, "OK");
    assert_eq!(halfway.details.timestamp, "OK");
    assert_eq!(halfway.details.signature, "Not checked");
}

#[test]
fn stage_names() {
    assert_eq!(Stage::Schema.name(), "schema");
    assert_eq!(Stage::Timestamp.name(), "timestamp");
    assert_eq!(Stage::Signature.name(), "signature");
    assert_eq!(Stage::TransparencyLog.name(), "transparency_log");
}

#[test]
fn root_lookup_is_wanted_only_after_a_passed_log_stage() {
    let verifier = ReceiptVerifier::new();
    let (run, _) = run_all(&verifier, &stepped_receipt(), STEPPED_AT);
    assert!(!run.wants_root_lookup());
    let (run, _) = run_all(&verifier, &with_trivial_log_proof(stepped_receipt()), STEPPED_AT);
    assert!(run.wants_root_lookup());
    let mut broken = with_trivial_log_proof(stepped_receipt());
    broken.extensions.log_inclusion.as_mut().unwrap().leaf_index = 0;
    broken.extensions.log_inclusion.as_mut().unwrap().merkle_proof = vec!["bad".to_string()];
    let (run, _) = run_all(&verifier, &broken, STEPPED_AT);
    assert!(!run.wants_root_lookup());
    assert!(!VerificationRun::start().wants_root_lookup());
}

#[test]
fn root_lookup_outcomes() {
    let verifier = ReceiptVerifier::new();
    let full = with_trivial_log_proof(stepped_receipt());
    let (done, _) = run_all(&verifier, &full, STEPPED_AT);

    for strict in [false, true] {
        let mut run = done.clone();
        run.settle_root_lookup(RootLookup::Confirmed, strict);
        assert_eq!(run, done);
        let result = run.finish();
        assert!(result.valid);
        assert_eq!(result.details.transparency_log, "OK");

        let mut run = done.clone();
        run.settle_root_lookup(RootLookup::Rejected, strict);
        let result = run.finish();
        assert!(!result.valid);
        assert_eq!(result.errors.len(), 1);
        assert_eq!(result.errors[0].code, "E-LOG-003");
        assert_eq!(result.details.transparency_log, "Invalid");
    }

    let mut run = done.clone();
    run.settle_root_lookup(RootLookup::Unavailable, false);
    let result = run.finish();
    assert!(result.valid);
    assert!(result.errors.is_empty());
    assert_eq!(result.details.transparency_log, "Not checked");

    let mut run = done.clone();
    run.settle_root_lookup(RootLookup::Unavailable, true);
    let result = run.finish();
    assert!(!result.valid);
    assert_eq!(result.errors.len(), 1);
    assert_eq!(result.errors[0].code, "E-LOG-004");
    assert_eq!(result.errors[0].message, "Log service unavailable");
    assert_eq!(result.details.transparency_log, "Invalid");
    assert_eq!(result.details.signature, "OK");
}

#[test]
fn root_lookup_leaves_other_runs_alone() {
    let verifier = ReceiptVerifier::requiring_log_inclusion();
    let (done, _) = run_all(&verifier, &stepped_receipt(), STEPPED_AT);
    assert_eq!(done.transparency_log.as_ref().unwrap().status, StageStatus::Invalid);
    for lookup in [RootLookup::Confirmed, RootLookup::Rejected, RootLookup::Unavailable] {
        for strict in [false, true] {
            let mut run = done.clone();
            run.settle_root_lookup(lookup, strict);
            assert_eq!(run, done);
            let mut fresh = VerificationRun::start();
            fresh.settle_root_lookup(lookup, strict);
            assert_eq!(fresh, VerificationRun::start());
        }
    }
}
