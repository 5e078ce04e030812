//! The wire encoding: a receipt and its extensions merged into one flat,
//! compact JSON object, and the size limit that it is held to.

use crate::canonical::piece;
use crate::json::append_bytes;
use crate::json::decimal_int;
use crate::json::decimal_nat;
use crate::json::push_decimal_i64;
use crate::json::push_decimal_u64;
use crate::json::RBRACE;
use crate::text::json_text;
use crate::text::json_text_array;
use crate::text::push_json_text;
use crate::text::push_json_text_array;
use crate::types::Environment;
use crate::types::EnvironmentView;
use crate::types::FullReceipt;
use crate::types::FullReceiptView;
use crate::types::KeyErasureProof;
use crate::types::KeyErasureProofView;
use crate::types::LogInclusion;
use crate::types::LogInclusionView;
use crate::types::Receipt;
use crate::types::ReceiptExtensions;
use crate::types::ReceiptExtensionsView;
use crate::types::ReceiptView;
use crate::MAX_RECEIPT_SIZE_BYTES;
use vstd::prelude::*;

verus! {

/// An optional text on the wire: its string literal, or `null`.
pub open spec fn optional_text_json(text: Option<Seq<char>>) -> Seq<u8> {
    match text {
        Some(t) => json_text(t),
        None => piece("null"),
    }
}

/// The key erasure proof on the wire: `{"scheme":..,"evidence":..}`, or
/// `null`.
pub open spec fn key_erasure_json(proof_of: Option<KeyErasureProofView>) -> Seq<u8> {
    match proof_of {
        Some(p) => piece("{\"scheme\":") + json_text(p.scheme.tag_text()) + piece(",\"evidence\":")
            + json_text(p.evidence) + seq![RBRACE],
        None => piece("null"),
    }
}

/// The environment on the wire: `{"region":..,"provider":..}`, or `null`.
pub open spec fn environment_json(environment: Option<EnvironmentView>) -> Seq<u8> {
    match environment {
        Some(e) => piece("{\"region\":") + optional_text_json(e.region) + piece(",\"provider\":")
            + optional_text_json(e.provider) + seq![RBRACE],
        None => piece("null"),
    }
}

/// The log inclusion proof on the wire:
/// `{"leaf_index":..,"merkle_proof":[..],"log_root":..}`, or `null`.
pub open spec fn log_inclusion_json(inclusion: Option<LogInclusionView>) -> Seq<u8> {
    match inclusion {
        Some(l) => piece("{\"leaf_index\":") + decimal_nat(l.leaf_index as nat) + piece(
            ",\"merkle_proof\":",
        ) + json_text_array(l.merkle_proof) + piece(",\"log_root\":") + json_text(l.log_root)
            + seq![RBRACE],
        None => piece("null"),
    }
}

/// The fields of the signed core on the wire, in the order of the record,
/// without the closing brace.
pub open spec fn receipt_json_open(r: ReceiptView) -> Seq<u8> {
    piece("{\"version\":") + json_text(r.version) + piece(",\"code_ref\":") + json_text(r.code_ref)
        + piece(",\"ts\":") + decimal_int(r.ts as int) + piece(",\"nonce\":") + json_text(r.nonce)
        + piece(",\"input_hash\":") + json_text(r.input_hash) + piece(",\"output_hash\":")
        + json_text(r.output_hash) + piece(",\"policy_ids\":") + json_text_array(r.policy_ids)
        + piece(",\"sig\":") + json_text(r.sig) + piece(",\"pubkey\":") + json_text(r.pubkey)
}

/// The extension fields on the wire, each led by a comma, without the
/// closing brace.
pub open spec fn extensions_json(x: ReceiptExtensionsView) -> Seq<u8> {
    piece(",\"key_erasure\":") + key_erasure_json(x.key_erasure) + piece(",\"environment\":")
        + environment_json(x.environment) + piece(",\"log_inclusion\":") + log_inclusion_json(
        x.log_inclusion,
    )
}

/// The wire encoding of a receipt with its extensions: one flat object that
/// holds the fields of the signed core and then the three extension fields.
pub open spec fn wire_encoding(full: FullReceiptView) -> Seq<u8> {
    receipt_json_open(full.receipt) + extensions_json(full.extensions) + seq![RBRACE]
}

/// Whether a receipt with its extensions keeps to the size limit of the
/// protocol.
pub open spec fn within_size_limit(full: FullReceiptView) -> bool {
    wire_encoding(full).len() <= MAX_RECEIPT_SIZE_BYTES
}

/// Appends an optional text: its string literal, or `null`.
fn push_optional_text(out: &mut Vec<u8>, text: &Option<String>)
    ensures
        final(out)@ == old(out)@ + optional_text_json(crate::text::optional_text(*text)),
{
    match text {
        Some(t) => push_json_text(out, t.as_str()),
        None => append_bytes(out, "null".as_bytes()),
    }
}

/// Appends the key erasure proof.
fn push_key_erasure(out: &mut Vec<u8>, proof_of: &Option<KeyErasureProof>)
    ensures
        final(out)@ == old(out)@ + key_erasure_json(
            match proof_of {
                Some(p) => Some(p@),
                None => None,
            },
        ),
{
    match proof_of {
        Some(p) => {
            let mut part: Vec<u8> = Vec::new();
            append_bytes(&mut part, "{\"scheme\":".as_bytes());
            push_json_text(&mut part, p.scheme.tag());
            append_bytes(&mut part, ",\"evidence\":".as_bytes());
            push_json_text(&mut part, p.evidence.as_str());
            part.push(RBRACE);
            assert(part@ =~= key_erasure_json(Some(p@)));
            append_bytes(out, part.as_slice());
        },
        None => append_bytes(out, "null".as_bytes()),
    }
}

/// Appends the environment.
fn push_environment(out: &mut Vec<u8>, environment: &Option<Environment>)
    ensures
        final(out)@ == old(out)@ + environment_json(
            match environment {
                Some(e) => Some(e@),
                None => None,
            },
        ),
{
    match environment {
        Some(e) => {
            let mut part: Vec<u8> = Vec::new();
            append_bytes(&mut part, "{\"region\":".as_bytes());
            push_optional_text(&mut part, &e.region);
            append_bytes(&mut part, ",\"provider\":".as_bytes());
            push_optional_text(&mut part, &e.provider);
            part.push(RBRACE);
            assert(part@ =~= environment_json(Some(e@)));
            append_bytes(out, part.as_slice());
        },
        None => append_bytes(out, "null".as_bytes()),
    }
}

/// Appends the log inclusion proof.
fn push_log_inclusion(out: &mut Vec<u8>, inclusion: &Option<LogInclusion>)
    ensures
        final(out)@ == old(out)@ + log_inclusion_json(
            match inclusion {
                Some(l) => Some(l@),
                None => None,
            },
        ),
{
    match inclusion {
        Some(l) => {
            let mut part: Vec<u8> = Vec::new();
            append_bytes(&mut part, "{\"leaf_index\":".as_bytes());
            push_decimal_u64(&mut part, l.leaf_index);
            append_bytes(&mut part, ",\"merkle_proof\":".as_bytes());
            push_json_text_array(&mut part, &l.merkle_proof);
            append_bytes(&mut part, ",\"log_root\":".as_bytes());
            push_json_text(&mut part, l.log_root.as_str());
            part.push(RBRACE);
            assert(part@ =~= log_inclusion_json(Some(l@)));
            append_bytes(out, part.as_slice());
        },
        None => append_bytes(out, "null".as_bytes()),
    }
}

/// The fields of the signed core, without the closing brace.
fn receipt_bytes_open(receipt: &Receipt) -> (out: Vec<u8>)
    ensures
        out@ == receipt_json_open(receipt@),
{
    let mut out: Vec<u8> = Vec::new();
    append_bytes(&mut out, "{\"version\":".as_bytes());
    push_json_text(&mut out, receipt.version.as_str());
    append_bytes(&mut out, ",\"code_ref\":".as_bytes());
    push_json_text(&mut out, receipt.code_ref.as_str());
    append_bytes(&mut out, ",\"ts\":".as_bytes());
    push_decimal_i64(&mut out, receipt.ts);
    append_bytes(&mut out, ",\"nonce\":".as_bytes());
    push_json_text(&mut out, receipt.nonce.as_str());
    append_bytes(&mut out, ",\"input_hash\":".as_bytes());
    push_json_text(&mut out, receipt.input_hash.as_str());
    append_bytes(&mut out, ",\"output_hash\":".as_bytes());
    push_json_text(&mut out, receipt.output_hash.as_str());
    append_bytes(&mut out, ",\"policy_ids\":".as_bytes());
    push_json_text_array(&mut out, &receipt.policy_ids);
    append_bytes(&mut out, ",\"sig\":".as_bytes());
    push_json_text(&mut out, receipt.sig.as_str());
    append_bytes(&mut out, ",\"pubkey\":".as_bytes());
    push_json_text(&mut out, receipt.pubkey.as_str());
    assert(out@ =~= receipt_json_open(receipt@));
    out
}

/// Appends the three extension fields.
fn push_extensions(out: &mut Vec<u8>, extensions: &ReceiptExtensions)
    ensures
        final(out)@ == old(out)@ + extensions_json(extensions@),
{
    let mut part: Vec<u8> = Vec::new();
    append_bytes(&mut part, ",\"key_erasure\":".as_bytes());
    push_key_erasure(&mut part, &extensions.key_erasure);
    append_bytes(&mut part, ",\"environment\":".as_bytes());
    push_environment(&mut part, &extensions.environment);
    append_bytes(&mut part, ",\"log_inclusion\":".as_bytes());
    push_log_inclusion(&mut part, &extensions.log_inclusion);
    assert(part@ =~= extensions_json(extensions@));
    append_bytes(out, part.as_slice());
}

/// The wire bytes of a receipt with its extensions.
pub fn wire_bytes(full: &FullReceipt) -> (bytes: Vec<u8>)
    ensures
        bytes@ == wire_encoding(full@),
{
    let mut out = receipt_bytes_open(&full.receipt);
    push_extensions(&mut out, &full.extensions);
    out.push(RBRACE);
    out
}

/// The length of the wire bytes of a receipt with its extensions.
pub fn wire_size(full: &FullReceipt) -> (size: usize)
    ensures
        size == wire_encoding(full@).len(),
{
    wire_bytes(full).len()
}

/// Whether a receipt with its extensions keeps to the size limit.
pub fn fits_size_limit(full: &FullReceipt) -> (ok: bool)
    ensures
        ok == within_size_limit(full@),
{
    wire_size(full) <= MAX_RECEIPT_SIZE_BYTES
}

} // verus!
