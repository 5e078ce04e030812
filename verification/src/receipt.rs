//! Issuing receipts: hashing the payloads, signing the canonical bytes and
//! holding the result to the size limit.

use crate::canonical::canonical_bytes;
use crate::canonical::canonical_encoding;
use crate::canonical::SignedFields;
use crate::crypto::base64_decoded;
use crate::crypto::base64_encode;
use crate::crypto::base64_text;
use crate::crypto::check_nonce_text;
use crate::crypto::decodes_to_len;
use crate::crypto::ed25519_accepts;
use crate::crypto::ed25519_derive_public;
use crate::crypto::ed25519_key_valid;
use crate::crypto::ed25519_public_key;
use crate::crypto::ed25519_sign;
use crate::crypto::ed25519_signature;
use crate::crypto::hash_payload;
use crate::crypto::bytes_equal;
use crate::crypto::is_nonce_text;
use crate::crypto::random_bytes;
use crate::crypto::sha256_digest;
use crate::crypto::DIGEST_LEN;
use crate::crypto::KEY_LEN;
use crate::crypto::NONCE_LEN;
use crate::crypto::SIGNATURE_LEN;
use crate::error::TECPError;
use crate::text::texts;
use crate::types::CreateReceiptParams;
use crate::types::FullReceipt;
use crate::types::FullReceiptView;
use crate::types::Receipt;
use crate::types::ReceiptExtensions;
use crate::types::ReceiptExtensionsView;
use crate::types::ReceiptView;
use crate::types::StageReportView;
use crate::verification::accepted;
use crate::verification::fresh_at;
use crate::verification::log_report;
use crate::verification::schema_findings;
use crate::verification::schema_report;
use crate::verification::signature_format_findings;
use crate::verification::signature_report;
use crate::verification::timestamp_report;
use crate::verification::verdict;
use crate::verification::accepted_when_fresh;
use crate::wire::wire_encoding;
use crate::wire::wire_size;
use crate::wire::within_size_limit;
use crate::MAX_RECEIPT_SIZE_BYTES;
use crate::TECP_VERSION;
use vstd::prelude::*;

verus! {

/// The receipt that the holder of `secret` issues for the given code
/// reference, payloads, policies, time and nonce: the hashes are the base64
/// text of the SHA-256 digests of the payloads, the signature is the base64
/// text of the Ed25519 signature of the canonical encoding, and the public
/// key is the base64 text of the key that belongs to `secret`.
pub open spec fn issued_receipt(
    secret: Seq<u8>,
    code_ref: Seq<char>,
    input_data: Seq<u8>,
    output_data: Seq<u8>,
    policy_ids: Seq<Seq<char>>,
    ts: i64,
    nonce: Seq<char>,
) -> ReceiptView {
    let fields = SignedFields {
        version: TECP_VERSION@,
        code_ref,
        ts,
        nonce,
        input_hash: base64_text(sha256_digest(input_data)),
        output_hash: base64_text(sha256_digest(output_data)),
        policy_ids,
    };
    ReceiptView {
        version: fields.version,
        code_ref: fields.code_ref,
        ts: fields.ts,
        nonce: fields.nonce,
        input_hash: fields.input_hash,
        output_hash: fields.output_hash,
        policy_ids: fields.policy_ids,
        sig: base64_text(ed25519_signature(secret, canonical_encoding(fields))),
        pubkey: base64_text(ed25519_public_key(secret)),
    }
}

/// How issuing ends for a given time and nonce: with `InvalidNonce` where
/// the nonce is not the text of at least sixteen bytes; else with
/// `ReceiptTooLarge` where the receipt with its extensions would exceed the
/// size limit on the wire; else with the issued receipt and the extensions,
/// unchanged and unsigned.
pub open spec fn creation_outcome(
    secret: Seq<u8>,
    code_ref: Seq<char>,
    input_data: Seq<u8>,
    output_data: Seq<u8>,
    policy_ids: Seq<Seq<char>>,
    extensions: ReceiptExtensionsView,
    ts: i64,
    nonce: Seq<char>,
) -> Result<FullReceiptView, TECPError> {
    let full = FullReceiptView {
        receipt: issued_receipt(secret, code_ref, input_data, output_data, policy_ids, ts, nonce),
        extensions,
    };
    if !is_nonce_text(nonce) {
        Err(TECPError::InvalidNonce)
    } else if !within_size_limit(full) {
        Err(TECPError::ReceiptTooLarge { size: wire_encoding(full).len() as usize })
    } else {
        Ok(full)
    }
}

/// The value of the result of issuing.
pub open spec fn outcome_view(result: Result<FullReceipt, TECPError>) -> Result<
    FullReceiptView,
    TECPError,
> {
    match result {
        Ok(full) => Ok(full@),
        Err(e) => Err(e),
    }
}

/// The value of optional extensions: none where there are none.
pub open spec fn extensions_or_none(extensions: Option<ReceiptExtensions>) -> ReceiptExtensionsView {
    match extensions {
        Some(x) => x@,
        None => ReceiptExtensionsView::none(),
    }
}

/// Issues receipts with one Ed25519 key pair. The public key always belongs
/// to the secret key.
pub struct ReceiptSigner {
    secret_key: [u8; 32],
    public_key: [u8; 32],
}

impl ReceiptSigner {
    #[verifier::type_invariant]
    spec fn key_pair_matches(self) -> bool {
        self.public_key@ == ed25519_public_key(self.secret_key@) && ed25519_key_valid(
            self.public_key@,
        )
    }

    /// The secret key.
    pub closed spec fn secret(self) -> Seq<u8> {
        self.secret_key@
    }

    /// A signer for the secret key, with the public key derived from it.
    pub fn new(secret_key: [u8; 32]) -> (signer: ReceiptSigner)
        ensures
            signer.secret() == secret_key@,
    {
        let public_key = ed25519_derive_public(&secret_key);
        ReceiptSigner { secret_key, public_key }
    }

    /// A signer for a key pair; `None` where the public key is not the one
    /// that belongs to the secret key.
    pub fn from_key_pair(secret_key: [u8; 32], public_key: [u8; 32]) -> (signer: Option<
        ReceiptSigner,
    >)
        ensures
            signer is Some <==> public_key@ == ed25519_public_key(secret_key@),
            signer matches Some(s) ==> s.secret() == secret_key@,
    {
        let derived = ed25519_derive_public(&secret_key);
        if bytes_equal(derived.as_slice(), public_key.as_slice()) {
            Some(ReceiptSigner { secret_key, public_key: derived })
        } else {
            None
        }
    }

    /// The public key under which the receipts of this signer verify.
    pub fn public_key(&self) -> (key: [u8; 32])
        ensures
            key@ == ed25519_public_key(self.secret()),
    {
        proof {
            use_type_invariant(self);
        }
        self.public_key
    }

    /// Issues a receipt for the given time and nonce.
    ///
    /// The result is the one that [`creation_outcome`] names. A receipt that
    /// is issued keeps to the size limit and, without a log inclusion proof
    /// among its extensions, is accepted by verification at every time at
    /// which it is fresh.
    pub fn create_receipt_with(
        &self,
        code_ref: &str,
        input_data: &[u8],
        output_data: &[u8],
        policy_ids: Vec<String>,
        extensions: ReceiptExtensions,
        ts: i64,
        nonce: String,
    ) -> (result: Result<FullReceipt, TECPError>)
        ensures
            outcome_view(result) == creation_outcome(
                self.secret(),
                code_ref@,
                input_data@,
                output_data@,
                texts(policy_ids@),
                extensions@,
                ts,
                nonce@,
            ),
            result matches Ok(full) ==> within_size_limit(full@) && (
            full@.extensions.log_inclusion is None ==> accepted_when_fresh(full@)),
    {
        proof {
            use_type_invariant(self);
        }
        if !check_nonce_text(nonce.as_str()) {
            return Err(TECPError::InvalidNonce);
        }
        let mut receipt = Receipt {
            version: TECP_VERSION.to_owned(),
            code_ref: code_ref.to_owned(),
            ts,
            nonce,
            input_hash: hash_payload(input_data),
            output_hash: hash_payload(output_data),
            policy_ids,
            sig: String::new(),
            pubkey: base64_encode(self.public_key.as_slice()),
        };
        let ghost fields = receipt@.signed_fields();
        let message = canonical_bytes(&receipt);
        let signature = ed25519_sign(&self.secret_key, message.as_slice());
        receipt.sig = base64_encode(signature.as_slice());
        assert(receipt@.signed_fields() == fields);
        let full = FullReceipt { receipt, extensions };
        proof {
            lemma_issued_receipt_verifies(full@, self.public_key@, signature@);
        }
        let size = wire_size(&full);
        if size > MAX_RECEIPT_SIZE_BYTES {
            return Err(TECPError::ReceiptTooLarge { size });
        }
        Ok(full)
    }

    /// Issues a receipt. The time of signing is `params.timestamp` where it
    /// is given and `now_ms` otherwise; the nonce is `params.nonce` where it
    /// is given and sixteen fresh random bytes otherwise.
    ///
    /// With a nonce given the result is the one that [`creation_outcome`]
    /// names. Without one, issuing fails with `RandomnessUnavailable` where
    /// the system gives no random bytes, and otherwise ends as
    /// [`creation_outcome`] says for the nonce that was drawn, which is the
    /// text of sixteen bytes. A receipt that is issued is the one that
    /// [`issued_receipt`] names for its nonce, keeps to the size limit and,
    /// without a log inclusion proof among its extensions, is accepted by
    /// verification at every time at which it is fresh.
    pub fn create_receipt(&self, params: CreateReceiptParams<'_>, now_ms: i64) -> (result: Result<
        FullReceipt,
        TECPError,
    >)
        ensures
            match params.nonce {
                Some(n) => outcome_view(result) == creation_outcome(
                    self.secret(),
                    params.code_ref@,
                    params.input_data@,
                    params.output_data@,
                    texts(params.policy_ids@),
                    extensions_or_none(params.extensions),
                    signing_time(params.timestamp, now_ms),
                    n@,
                ),
                None => result == Err::<FullReceipt, TECPError>(TECPError::RandomnessUnavailable)
                    || exists|nonce: Seq<char>|
                    decodes_to_len(nonce, NONCE_LEN as nat) && outcome_view(result)
                        == #[trigger] creation_outcome(
                        self.secret(),
                        params.code_ref@,
                        params.input_data@,
                        params.output_data@,
                        texts(params.policy_ids@),
                        extensions_or_none(params.extensions),
                        signing_time(params.timestamp, now_ms),
                        nonce,
                    ),
            },
            result matches Ok(full) ==> full@ == (FullReceiptView {
                receipt: issued_receipt(
                    self.secret(),
                    params.code_ref@,
                    params.input_data@,
                    params.output_data@,
                    texts(params.policy_ids@),
                    signing_time(params.timestamp, now_ms),
                    full@.receipt.nonce,
                ),
                extensions: extensions_or_none(params.extensions),
            }),
            result matches Ok(full) ==> within_size_limit(full@) && (
            full@.extensions.log_inclusion is None ==> accepted_when_fresh(full@)),
    {
        let CreateReceiptParams {
            code_ref,
            input_data,
            output_data,
            policy_ids,
            extensions,
            timestamp,
            nonce,
        } = params;
        let ts = match timestamp {
            Some(t) => t,
            None => now_ms,
        };
        let extensions = match extensions {
            Some(x) => x,
            None => ReceiptExtensions::default(),
        };
        let nonce = match nonce {
            Some(n) => n,
            None => match random_bytes(NONCE_LEN) {
                Some(bytes) => base64_encode(bytes.as_slice()),
                None => {
                    return Err(TECPError::RandomnessUnavailable);
                },
            },
        };
        self.create_receipt_with(
            code_ref,
            input_data,
            output_data,
            policy_ids,
            extensions,
            ts,
            nonce,
        )
    }
}

/// The time of signing: the one given, or the clock's.
pub open spec fn signing_time(timestamp: Option<i64>, now_ms: i64) -> i64 {
    match timestamp {
        Some(t) => t,
        None => now_ms,
    }
}

/// A receipt of the supported version, whose nonce and hashes are well
/// formed, whose public key is the text of a usable key and whose signature
/// is the text of a signature that the key accepts for the canonical
/// encoding, passes schema and signature stage; without a log inclusion
/// proof it is accepted at every time at which it is fresh.
pub proof fn lemma_issued_receipt_verifies(
    full: FullReceiptView,
    public_key: Seq<u8>,
    signature: Seq<u8>,
)
    requires
        full.receipt.version == TECP_VERSION@,
        is_nonce_text(full.receipt.nonce),
        decodes_to_len(full.receipt.input_hash, DIGEST_LEN as nat),
        decodes_to_len(full.receipt.output_hash, DIGEST_LEN as nat),
        base64_decoded(full.receipt.pubkey) == Some(public_key),
        public_key.len() == KEY_LEN,
        ed25519_key_valid(public_key),
        base64_decoded(full.receipt.sig) == Some(signature),
        signature.len() == SIGNATURE_LEN,
        ed25519_accepts(public_key, canonical_encoding(full.receipt.signed_fields()), signature),
    ensures
        schema_report(full.receipt) == StageReportView::passed(),
        signature_report(full.receipt) == StageReportView::passed(),
        full.extensions.log_inclusion is None ==> accepted_when_fresh(full),
{
    let r = full.receipt;
    assert(schema_findings(r) =~= Seq::empty());
    assert(signature_format_findings(r) =~= Seq::empty());
    if full.extensions.log_inclusion is None {
        assert forall|now: i64| fresh_at(r.ts, now) implies #[trigger] verdict(full, now, false)
            == accepted() by {
            let v = verdict(full, now, false);
            assert(timestamp_report(r.ts, now) == StageReportView::passed());
            assert(log_report(r, None, false) == StageReportView::skipped());
            assert(v.errors =~= Seq::empty());
            assert(v.performance =~= Seq::empty());
        }
    }
}

} // verus!
