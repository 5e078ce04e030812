//! Verification of a receipt in four stages (schema, timestamp, signature,
//! transparency log) and the result they add up to.

use crate::canonical::canonical_bytes;
use crate::canonical::canonical_encoding;
use crate::canonical::lemma_canonical_encoding_injective;
use crate::crypto::base64_decode;
use crate::crypto::base64_decoded;
use crate::crypto::bytes_equal;
use crate::crypto::check_nonce_text;
use crate::crypto::decode_fixed;
use crate::crypto::decodes_to_len;
use crate::crypto::ed25519_accepts;
use crate::crypto::ed25519_check_key;
use crate::crypto::ed25519_key_valid;
use crate::crypto::ed25519_verify;
use crate::crypto::is_nonce_text;
use crate::crypto::sha256;
use crate::crypto::sha256_digest;
use crate::crypto::to_array_32;
use crate::crypto::to_array_64;
use crate::crypto::DIGEST_LEN;
use crate::crypto::KEY_LEN;
use crate::crypto::SIGNATURE_LEN;
use crate::error::ErrorCode;
use crate::merkle::all_digest_texts;
use crate::merkle::decode_digests;
use crate::merkle::decoded_each;
use crate::merkle::merkle_root;
use crate::merkle::recompute_root;
use crate::text::lemma_utf8_injective;
use crate::types::error_views;
use crate::types::finding;
use crate::types::FullReceipt;
use crate::types::FullReceiptView;
use crate::types::LogInclusion;
use crate::types::LogInclusionView;
use crate::types::Receipt;
use crate::types::ReceiptView;
use crate::types::StageReport;
use crate::types::StageReportView;
use crate::types::StageStatus;
use crate::types::ReceiptExtensionsView;
use crate::types::VerificationDetailsView;
use crate::types::VerificationError;
use crate::types::VerificationErrorView;
use crate::types::VerificationResult;
use crate::types::VerificationResultView;
use crate::MAX_CLOCK_SKEW_MS;
use crate::MAX_RECEIPT_AGE_MS;
use crate::TECP_VERSION;
use vstd::prelude::*;

verus! {

/// Whether two strings hold the same text.
pub fn same_text(a: &str, b: &str) -> (same: bool)
    ensures
        same == (a@ == b@),
{
    let same = bytes_equal(a.as_bytes(), b.as_bytes());
    proof {
        if same {
            lemma_utf8_injective(a@, b@);
        }
    }
    same
}

/// What the schema stage finds in the version: nothing where it is the
/// supported protocol version, `E-SCHEMA-004` otherwise.
pub open spec fn version_findings(version: Seq<char>) -> Seq<VerificationErrorView> {
    if version == TECP_VERSION@ {
        Seq::empty()
    } else {
        seq![finding(ErrorCode::SchemaVersion, "version"@)]
    }
}

/// What the schema stage finds in a binary field: nothing where the text is
/// acceptable; otherwise `E-SCHEMA-001` where it is empty and `E-SCHEMA-003`
/// where it is not.
pub open spec fn field_findings(text: Seq<char>, name: Seq<char>, acceptable: bool) -> Seq<
    VerificationErrorView,
> {
    if acceptable {
        Seq::empty()
    } else if text.len() == 0 {
        seq![finding(ErrorCode::SchemaMissingField, name)]
    } else {
        seq![finding(ErrorCode::SchemaFieldFormat, name)]
    }
}

/// Everything the schema stage finds, field by field: the version must be
/// the supported one, the nonce the base64 text of at least 16 bytes, each
/// hash that of 32 bytes, the signature that of 64 bytes and the public key
/// that of 32 bytes.
pub open spec fn schema_findings(r: ReceiptView) -> Seq<VerificationErrorView> {
    version_findings(r.version) + field_findings(r.nonce, "nonce"@, is_nonce_text(r.nonce))
        + field_findings(
        r.input_hash,
        "input_hash"@,
        decodes_to_len(r.input_hash, DIGEST_LEN as nat),
    ) + field_findings(
        r.output_hash,
        "output_hash"@,
        decodes_to_len(r.output_hash, DIGEST_LEN as nat),
    ) + field_findings(r.sig, "sig"@, decodes_to_len(r.sig, SIGNATURE_LEN as nat))
        + field_findings(r.pubkey, "pubkey"@, decodes_to_len(r.pubkey, KEY_LEN as nat))
}

/// The report of the schema stage: `OK` where nothing is found, `Invalid`
/// with the findings otherwise.
pub open spec fn schema_report(r: ReceiptView) -> StageReportView {
    StageReportView::of_errors(schema_findings(r))
}

/// The report of the timestamp stage for a receipt signed at `ts` and seen
/// at `now`: expired where it is more than 24 hours old, in the future where
/// it is more than 5 minutes ahead; both limits are themselves accepted.
pub open spec fn timestamp_report(ts: i64, now: i64) -> StageReportView {
    if now - ts > MAX_RECEIPT_AGE_MS {
        StageReportView::failed(ErrorCode::TsExpired, "ts"@)
    } else if ts - now > MAX_CLOCK_SKEW_MS {
        StageReportView::failed(ErrorCode::AgeFuture, "ts"@)
    } else {
        StageReportView::passed()
    }
}

/// Whether `text` is the base64 text of 32 bytes that are a usable public
/// key.
pub open spec fn is_key_text(text: Seq<char>) -> bool {
    base64_decoded(text) matches Some(k) && k.len() == KEY_LEN && ed25519_key_valid(k)
}

/// What the signature stage finds wrong with the encodings: `E-SIG-003` for
/// the public key, then `E-SIG-001` for the signature.
pub open spec fn signature_format_findings(r: ReceiptView) -> Seq<VerificationErrorView> {
    (if is_key_text(r.pubkey) {
        Seq::empty()
    } else {
        seq![finding(ErrorCode::SigKeyFormat, "pubkey"@)]
    }) + (if decodes_to_len(r.sig, SIGNATURE_LEN as nat) {
        Seq::empty()
    } else {
        seq![finding(ErrorCode::SigFormat, "sig"@)]
    })
}

/// Whether the signature of a receipt, both encodings being in order,
/// verifies over the canonical encoding of the receipt's signed fields.
pub open spec fn signature_holds(r: ReceiptView) -> bool {
    ed25519_accepts(
        base64_decoded(r.pubkey).unwrap(),
        canonical_encoding(r.signed_fields()),
        base64_decoded(r.sig).unwrap(),
    )
}

/// The report of the signature stage: the format findings where there are
/// any; else `E-SIG-002` where the signature does not verify; else `OK`.
pub open spec fn signature_report(r: ReceiptView) -> StageReportView {
    if signature_format_findings(r).len() > 0 {
        StageReportView::of_errors(signature_format_findings(r))
    } else if signature_holds(r) {
        StageReportView::passed()
    } else {
        StageReportView::failed(ErrorCode::SigFailed, "sig"@)
    }
}

/// The leaf that stands for a receipt in the transparency log: the digest of
/// its canonical encoding.
pub open spec fn log_leaf(r: ReceiptView) -> Seq<u8> {
    sha256_digest(canonical_encoding(r.signed_fields()))
}

/// The report of the transparency log stage. Without a proof: not checked,
/// or `E-LOG-001` where one is demanded. With a proof: `E-LOG-002` where an
/// entry is not the text of a digest; else `E-LOG-003` where the stated root
/// is not the text of the recomputed root; else `OK`.
pub open spec fn log_report(
    r: ReceiptView,
    inclusion: Option<LogInclusionView>,
    required: bool,
) -> StageReportView {
    match inclusion {
        None => if required {
            StageReportView::failed(ErrorCode::LogProofMissing, "log_inclusion"@)
        } else {
            StageReportView::skipped()
        },
        Some(proof_of) => if !all_digest_texts(proof_of.merkle_proof) {
            StageReportView::failed(ErrorCode::LogProofInvalid, "merkle_proof"@)
        } else if base64_decoded(proof_of.log_root) == Some(
            merkle_root(
                log_leaf(r),
                proof_of.leaf_index as nat,
                decoded_each(proof_of.merkle_proof),
            ),
        ) {
            StageReportView::passed()
        } else {
            StageReportView::failed(ErrorCode::LogRootMismatch, "log_root"@)
        },
    }
}

/// The result of verifying a receipt at time `now`. Where the schema stage
/// fails, only it runs. Otherwise all four stages run and are taken
/// together.
pub open spec fn verdict(full: FullReceiptView, now: i64, require_log: bool) -> VerificationResultView {
    let schema = schema_report(full.receipt);
    if schema.status != StageStatus::Passed {
        VerificationResultView::schema_failure(schema)
    } else {
        VerificationResultView::from_stages(
            schema,
            timestamp_report(full.receipt.ts, now),
            signature_report(full.receipt),
            log_report(full.receipt, full.extensions.log_inclusion, require_log),
        )
    }
}

/// Whether a receipt signed at `ts` is neither too old nor too far ahead
/// when seen at `now`.
pub open spec fn fresh_at(ts: i64, now: i64) -> bool {
    now - ts <= MAX_RECEIPT_AGE_MS && ts - now <= MAX_CLOCK_SKEW_MS
}

/// The result that accepts a receipt without a log proof: valid, no error,
/// schema, timestamp and signature `OK`, the transparency log not checked.
pub open spec fn accepted() -> VerificationResultView {
    VerificationResultView {
        valid: true,
        errors: Seq::empty(),
        details: VerificationDetailsView::of(
            StageStatus::Passed,
            StageStatus::Passed,
            StageStatus::Passed,
            StageStatus::NotChecked,
        ),
        performance: Seq::empty(),
    }
}

/// Whether a receipt with its extensions is accepted, by a verifier that
/// demands no log proof, at every time at which it is fresh.
pub open spec fn accepted_when_fresh(full: FullReceiptView) -> bool {
    forall|now: i64| fresh_at(full.receipt.ts, now) ==> #[trigger] verdict(full, now, false) == accepted()
}

/// Adds what the schema stage finds in one binary field.
fn push_field_findings(
    errors: &mut Vec<VerificationError>,
    text: &str,
    name: &str,
    acceptable: bool,
)
    ensures
        error_views(final(errors)@) == error_views(old(errors)@) + field_findings(
            text@,
            name@,
            acceptable,
        ),
{
    if !acceptable {
        if text.is_empty() {
            errors.push(VerificationError::new(ErrorCode::SchemaMissingField, name));
        } else {
            errors.push(VerificationError::new(ErrorCode::SchemaFieldFormat, name));
        }
    }
    assert(error_views(errors@) =~= error_views(old(errors)@) + field_findings(
        text@,
        name@,
        acceptable,
    ));
}

/// Whether `text` is the base64 text of exactly `len` bytes.
pub fn check_fixed_text(text: &str, len: usize) -> (ok: bool)
    ensures
        ok == decodes_to_len(text@, len as nat),
{
    decode_fixed(text, len).is_some()
}

/// Stage A: the shape of every mandatory field.
pub fn check_schema(receipt: &Receipt) -> (report: StageReport)
    ensures
        report@ == schema_report(receipt@),
{
    let mut errors: Vec<VerificationError> = Vec::new();
    if !same_text(receipt.version.as_str(), TECP_VERSION) {
        errors.push(VerificationError::new(ErrorCode::SchemaVersion, "version"));
    }
    assert(error_views(errors@) =~= version_findings(receipt@.version));
    let nonce_ok = check_nonce_text(receipt.nonce.as_str());
    push_field_findings(&mut errors, receipt.nonce.as_str(), "nonce", nonce_ok);
    let input_ok = check_fixed_text(receipt.input_hash.as_str(), DIGEST_LEN);
    push_field_findings(&mut errors, receipt.input_hash.as_str(), "input_hash", input_ok);
    let output_ok = check_fixed_text(receipt.output_hash.as_str(), DIGEST_LEN);
    push_field_findings(&mut errors, receipt.output_hash.as_str(), "output_hash", output_ok);
    let sig_ok = check_fixed_text(receipt.sig.as_str(), SIGNATURE_LEN);
    push_field_findings(&mut errors, receipt.sig.as_str(), "sig", sig_ok);
    let key_ok = check_fixed_text(receipt.pubkey.as_str(), KEY_LEN);
    push_field_findings(&mut errors, receipt.pubkey.as_str(), "pubkey", key_ok);
    StageReport::of_errors(errors)
}

/// Stage B: the age of the receipt, seen from `now`.
pub fn check_timestamp(ts: i64, now: i64) -> (report: StageReport)
    ensures
        report@ == timestamp_report(ts, now),
{
    let age: i128 = now as i128 - ts as i128;
    if age > MAX_RECEIPT_AGE_MS as i128 {
        StageReport::failed(ErrorCode::TsExpired, "ts")
    } else if -age > MAX_CLOCK_SKEW_MS as i128 {
        StageReport::failed(ErrorCode::AgeFuture, "ts")
    } else {
        StageReport::passed()
    }
}

/// Decodes the public key of a receipt; `None` where it is not the text of
/// a usable key.
fn decode_key(text: &str) -> (key: Option<[u8; 32]>)
    ensures
        match key {
            Some(k) => is_key_text(text@) && base64_decoded(text@) == Some(k@),
            None => !is_key_text(text@),
        },
{
    let bytes = match base64_decode(text) {
        Some(b) => b,
        None => {
            return None;
        },
    };
    match to_array_32(bytes.as_slice()) {
        Some(key) => if ed25519_check_key(&key) {
            Some(key)
        } else {
            None
        },
        None => None,
    }
}

/// Decodes the signature of a receipt; `None` where it is not the text of
/// 64 bytes.
fn decode_signature(text: &str) -> (signature: Option<[u8; 64]>)
    ensures
        match signature {
            Some(s) => base64_decoded(text@) == Some(s@),
            None => !decodes_to_len(text@, SIGNATURE_LEN as nat),
        },
{
    match base64_decode(text) {
        Some(bytes) => to_array_64(bytes.as_slice()),
        None => None,
    }
}

/// Stage C: the signature over the canonical bytes of the receipt as it is
/// now.
pub fn check_signature(receipt: &Receipt) -> (report: StageReport)
    ensures
        report@ == signature_report(receipt@),
{
    let key = decode_key(receipt.pubkey.as_str());
    let signature = decode_signature(receipt.sig.as_str());
    let mut errors: Vec<VerificationError> = Vec::new();
    if key.is_none() {
        errors.push(VerificationError::new(ErrorCode::SigKeyFormat, "pubkey"));
    }
    if signature.is_none() {
        errors.push(VerificationError::new(ErrorCode::SigFormat, "sig"));
    }
    assert(error_views(errors@) =~= signature_format_findings(receipt@));
    match (key, signature) {
        (Some(k), Some(s)) => {
            let message = canonical_bytes(receipt);
            if ed25519_verify(&k, message.as_slice(), &s) {
                StageReport::passed()
            } else {
                StageReport::failed(ErrorCode::SigFailed, "sig")
            }
        },
        _ => StageReport::of_errors(errors),
    }
}

/// The inclusion proof `proof_of` with another text as its log root.
pub open spec fn with_log_root(proof_of: LogInclusionView, log_root: Seq<char>) -> LogInclusionView {
    LogInclusionView { log_root, ..proof_of }
}

/// Stage D: the inclusion proof, where there is one. `required` says
/// whether a receipt without a proof is at fault.
///
/// Where the stage passes, the stated root is the only text that passes
/// with this receipt, index and proof: with any other text in its place the
/// stage reports a root mismatch.
pub fn check_transparency_log(
    receipt: &Receipt,
    inclusion: &Option<LogInclusion>,
    required: bool,
) -> (report: StageReport)
    ensures
        report@ == log_report(
            receipt@,
            match inclusion {
                Some(l) => Some(l@),
                None => None,
            },
            required,
        ),
        report@.status == StageStatus::Passed ==> forall|other: Seq<char>|
            other != inclusion.unwrap()@.log_root ==> #[trigger] log_report(
                receipt@,
                Some(with_log_root(inclusion.unwrap()@, other)),
                required,
            ) == StageReportView::failed(ErrorCode::LogRootMismatch, "log_root"@),
{
    match inclusion {
        None => {
            if required {
                StageReport::failed(ErrorCode::LogProofMissing, "log_inclusion")
            } else {
                StageReport::skipped()
            }
        },
        Some(proof_of) => {
            match decode_digests(&proof_of.merkle_proof) {
                None => StageReport::failed(ErrorCode::LogProofInvalid, "merkle_proof"),
                Some(siblings) => {
                    let message = canonical_bytes(receipt);
                    let leaf = sha256(message.as_slice());
                    let root = recompute_root(leaf, proof_of.leaf_index, &siblings);
                    let matches = match base64_decode(proof_of.log_root.as_str()) {
                        Some(stated) => bytes_equal(stated.as_slice(), root.as_slice()),
                        None => false,
                    };
                    if matches {
                        StageReport::passed()
                    } else {
                        StageReport::failed(ErrorCode::LogRootMismatch, "log_root")
                    }
                },
            }
        },
    }
}

/// Verifies receipts. Holds the one choice a relying party has: whether a
/// receipt must carry a transparency log proof.
#[derive(Debug, Clone, Copy, PartialEq, Eq, Structural)]
pub struct ReceiptVerifier {
    /// Whether a receipt without a log inclusion proof is rejected.
    pub require_log_inclusion: bool,
}

impl ReceiptVerifier {
    /// A verifier that does not demand a log inclusion proof.
    pub fn new() -> (verifier: ReceiptVerifier)
        ensures
            !verifier.require_log_inclusion,
    {
        ReceiptVerifier { require_log_inclusion: false }
    }

    /// A verifier that rejects receipts without a log inclusion proof.
    pub fn requiring_log_inclusion() -> (verifier: ReceiptVerifier)
        ensures
            verifier.require_log_inclusion,
    {
        ReceiptVerifier { require_log_inclusion: true }
    }

    /// Verifies a receipt at the time `now_ms`, in milliseconds since the
    /// Unix epoch. Every violation is reported in the result; the receipt
    /// is not changed.
    pub fn verify(&self, full: &FullReceipt, now_ms: i64) -> (result: VerificationResult)
        ensures
            result@ == verdict(full@, now_ms, self.require_log_inclusion),
    {
        let schema = check_schema(&full.receipt);
        match schema.status {
            StageStatus::Passed => {
                let timestamp = check_timestamp(full.receipt.ts, now_ms);
                let signature = check_signature(&full.receipt);
                let transparency_log = check_transparency_log(
                    &full.receipt,
                    &full.extensions.log_inclusion,
                    self.require_log_inclusion,
                );
                VerificationResult::from_stages(schema, timestamp, signature, transparency_log)
            },
            _ => VerificationResult::schema_failure(schema),
        }
    }
}

/// A change to any signed field of a receipt changes the bytes that its
/// signature is checked against.
pub proof fn lemma_tampering_changes_signed_bytes(signed: ReceiptView, tampered: ReceiptView)
    requires
        signed.signed_fields() != tampered.signed_fields(),
    ensures
        canonical_encoding(signed.signed_fields()) != canonical_encoding(
            tampered.signed_fields(),
        ),
{
    if canonical_encoding(signed.signed_fields()) == canonical_encoding(
        tampered.signed_fields(),
    ) {
        lemma_canonical_encoding_injective(signed.signed_fields(), tampered.signed_fields());
    }
}

/// Where the encodings of key and signature are in order and the signature
/// does not verify over the canonical encoding of the receipt as it is now,
/// the signature stage reports exactly `E-SIG-002`, whatever the time and
/// the extensions; and where the schema holds, so does the result of the
/// whole verification, among its errors.
pub proof fn lemma_unverified_signature_is_reported(
    full: FullReceiptView,
    now: i64,
    require_log: bool,
)
    requires
        is_key_text(full.receipt.pubkey),
        decodes_to_len(full.receipt.sig, SIGNATURE_LEN as nat),
        !signature_holds(full.receipt),
    ensures
        signature_report(full.receipt) == StageReportView::failed(ErrorCode::SigFailed, "sig"@),
        schema_report(full.receipt).status == StageStatus::Passed ==> ({
            let result = verdict(full, now, require_log);
            &&& !result.valid
            &&& result.details.signature == StageStatus::Invalid.label_text()
            &&& result.errors.contains(finding(ErrorCode::SigFailed, "sig"@))
        }),
{
    assert(signature_format_findings(full.receipt) =~= Seq::empty());
    if schema_report(full.receipt).status == StageStatus::Passed {
        let schema = schema_report(full.receipt);
        let timestamp = timestamp_report(full.receipt.ts, now);
        let log = log_report(full.receipt, full.extensions.log_inclusion, require_log);
        let result = verdict(full, now, require_log);
        let at = schema.errors.len() + timestamp.errors.len();
        assert(result.errors[at as int] == finding(ErrorCode::SigFailed, "sig"@));
    }
}

/// Extensions are not signed: putting other extensions beside a receipt
/// changes nothing in what the schema, timestamp and signature stages
/// report of it.
pub proof fn lemma_extensions_are_unsigned(
    full: FullReceiptView,
    other: ReceiptExtensionsView,
    now: i64,
    require_log: bool,
)
    ensures
        ({
            let before = verdict(full, now, require_log);
            let after = verdict(
                FullReceiptView { receipt: full.receipt, extensions: other },
                now,
                require_log,
            );
            &&& after.details.schema == before.details.schema
            &&& after.details.timestamp == before.details.timestamp
            &&& after.details.signature == before.details.signature
            &&& (other.log_inclusion == full.extensions.log_inclusion ==> after == before)
        }),
{
}

/// The limits of the timestamp stage are themselves accepted: a receipt
/// exactly 24 hours old passes and one a millisecond older has expired; a
/// receipt exactly 5 minutes ahead passes and one a millisecond further
/// ahead lies in the future.
pub proof fn lemma_timestamp_boundaries(ts: i64, now: i64)
    ensures
        now - ts == MAX_RECEIPT_AGE_MS ==> timestamp_report(ts, now) == StageReportView::passed(),
        now - ts == MAX_RECEIPT_AGE_MS + 1 ==> timestamp_report(ts, now)
            == StageReportView::failed(ErrorCode::TsExpired, "ts"@),
        ts - now == MAX_CLOCK_SKEW_MS ==> timestamp_report(ts, now) == StageReportView::passed(),
        ts - now == MAX_CLOCK_SKEW_MS + 1 ==> timestamp_report(ts, now)
            == StageReportView::failed(ErrorCode::AgeFuture, "ts"@),
        timestamp_report(ts, now) == StageReportView::passed() <==> fresh_at(ts, now),
{
}

/// Without a log inclusion proof, and none demanded, the transparency log
/// stage is not checked and reports no error.
pub proof fn lemma_log_absent_not_checked(r: ReceiptView)
    ensures
        log_report(r, None, false) == StageReportView::skipped(),
        log_report(r, None, false).errors.len() == 0,
{
}

/// A proof with an entry that is not the base64 text of a digest is
/// reported as invalid, `E-LOG-002`, whatever the stated root.
pub proof fn lemma_log_malformed_entry(
    r: ReceiptView,
    proof_of: LogInclusionView,
    at: int,
    required: bool,
)
    requires
        0 <= at < proof_of.merkle_proof.len(),
        !decodes_to_len(proof_of.merkle_proof[at], DIGEST_LEN as nat),
    ensures
        log_report(r, Some(proof_of), required) == StageReportView::failed(
            ErrorCode::LogProofInvalid,
            "merkle_proof"@,
        ),
{
}

/// With a well-formed proof the stage passes exactly where the stated root
/// is the text of the recomputed root, and reports `E-LOG-003` otherwise.
pub proof fn lemma_log_root_decides(r: ReceiptView, proof_of: LogInclusionView, required: bool)
    requires
        all_digest_texts(proof_of.merkle_proof),
    ensures
        ({
            let root = merkle_root(
                log_leaf(r),
                proof_of.leaf_index as nat,
                decoded_each(proof_of.merkle_proof),
            );
            if base64_decoded(proof_of.log_root) == Some(root) {
                log_report(r, Some(proof_of), required) == StageReportView::passed()
            } else {
                log_report(r, Some(proof_of), required) == StageReportView::failed(
                    ErrorCode::LogRootMismatch,
                    "log_root"@,
                )
            }
        }),
{
}

/// The result is valid exactly where schema, timestamp and signature pass
/// and the transparency log passes or is not checked; and a valid result
/// carries no error.
pub proof fn lemma_valid_iff_stages_pass(full: FullReceiptView, now: i64, require_log: bool)
    ensures
        ({
            let log = log_report(full.receipt, full.extensions.log_inclusion, require_log);
            verdict(full, now, require_log).valid <==> {
                &&& schema_report(full.receipt).status == StageStatus::Passed
                &&& timestamp_report(full.receipt.ts, now).status == StageStatus::Passed
                &&& signature_report(full.receipt).status == StageStatus::Passed
                &&& (log.status == StageStatus::Passed || log.status == StageStatus::NotChecked)
            }
        }),
        verdict(full, now, require_log).valid ==> verdict(full, now, require_log).errors.len() == 0,
{
}

} // verus!
