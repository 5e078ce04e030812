//! The canonical encoding: the one byte sequence that stands for the signed
//! fields of a receipt, the same for signer and verifier. It is a compact
//! JSON object with the seven fields in the alphabetical order of their
//! names, strings as their escaped UTF-8 bytes, the timestamp in decimal,
//! and no white space. Extensions are not part of it.

use crate::json::append_bytes;
use crate::json::decimal_int;
use crate::json::lemma_decimal_int_prefix_free;
use crate::json::lemma_json_string_array_prefix_free;
use crate::json::lemma_json_string_prefix_free;
use crate::json::push_decimal_i64;
use crate::json::COMMA;
use crate::json::RBRACE;
use crate::text::json_text;
use crate::text::json_text_array;
use crate::text::lemma_utf8_each_injective;
use crate::text::lemma_utf8_injective;
use crate::text::push_json_text;
use crate::text::push_json_text_array;
use crate::text::utf8_each;
use crate::types::Receipt;
use crate::types::ReceiptView;
use vstd::prelude::*;
use vstd::utf8::encode_utf8;

verus! {

/// The start of the object and the name of its first field.
pub const OPEN_CODE_REF: &'static str = "{\"code_ref\":";

/// The name of the field `input_hash`, after a comma.
pub const NEXT_INPUT_HASH: &'static str = ",\"input_hash\":";

/// The name of the field `nonce`, after a comma.
pub const NEXT_NONCE: &'static str = ",\"nonce\":";

/// The name of the field `output_hash`, after a comma.
pub const NEXT_OUTPUT_HASH: &'static str = ",\"output_hash\":";

/// The name of the field `policy_ids`, after a comma.
pub const NEXT_POLICY_IDS: &'static str = ",\"policy_ids\":";

/// The name of the field `ts`, after a comma.
pub const NEXT_TS: &'static str = ",\"ts\":";

/// The name of the field `version`; the comma before it closes the timestamp.
pub const KEY_VERSION: &'static str = "\"version\":";

/// The seven fields of a receipt that its signature covers.
pub struct SignedFields {
    pub version: Seq<char>,
    pub code_ref: Seq<char>,
    pub ts: i64,
    pub nonce: Seq<char>,
    pub input_hash: Seq<char>,
    pub output_hash: Seq<char>,
    pub policy_ids: Seq<Seq<char>>,
}

impl ReceiptView {
    /// The fields that the signature covers.
    pub open spec fn signed_fields(self) -> SignedFields {
        SignedFields {
            version: self.version,
            code_ref: self.code_ref,
            ts: self.ts,
            nonce: self.nonce,
            input_hash: self.input_hash,
            output_hash: self.output_hash,
            policy_ids: self.policy_ids,
        }
    }
}

/// The bytes of a fixed piece of the encoding.
pub open spec fn piece(s: &str) -> Seq<u8> {
    encode_utf8(s@)
}

/// The end of the encoding: the version and the closing brace.
pub open spec fn from_version(f: SignedFields) -> Seq<u8> {
    json_text(f.version) + seq![RBRACE]
}

/// The encoding from the timestamp on.
pub open spec fn from_ts(f: SignedFields) -> Seq<u8> {
    decimal_int(f.ts as int) + seq![COMMA] + (piece(KEY_VERSION) + from_version(f))
}

/// The encoding from the policy identifiers on.
pub open spec fn from_policy_ids(f: SignedFields) -> Seq<u8> {
    json_text_array(f.policy_ids) + (piece(NEXT_TS) + from_ts(f))
}

/// The encoding from the output hash on.
pub open spec fn from_output_hash(f: SignedFields) -> Seq<u8> {
    json_text(f.output_hash) + (piece(NEXT_POLICY_IDS) + from_policy_ids(f))
}

/// The encoding from the nonce on.
pub open spec fn from_nonce(f: SignedFields) -> Seq<u8> {
    json_text(f.nonce) + (piece(NEXT_OUTPUT_HASH) + from_output_hash(f))
}

/// The encoding from the input hash on.
pub open spec fn from_input_hash(f: SignedFields) -> Seq<u8> {
    json_text(f.input_hash) + (piece(NEXT_NONCE) + from_nonce(f))
}

/// The encoding from the code reference on.
pub open spec fn from_code_ref(f: SignedFields) -> Seq<u8> {
    json_text(f.code_ref) + (piece(NEXT_INPUT_HASH) + from_input_hash(f))
}

/// The canonical encoding of the signed fields:
/// `{"code_ref":..,"input_hash":..,"nonce":..,"output_hash":..,"policy_ids":[..],"ts":..,"version":..}`.
pub open spec fn canonical_encoding(f: SignedFields) -> Seq<u8> {
    piece(OPEN_CODE_REF) + from_code_ref(f)
}

/// The canonical bytes of a receipt: what is signed and what is verified.
pub fn canonical_bytes(receipt: &Receipt) -> (bytes: Vec<u8>)
    ensures
        bytes@ == canonical_encoding(receipt@.signed_fields()),
{
    let ghost f = receipt@.signed_fields();
    let ghost all = canonical_encoding(f);
    let mut out: Vec<u8> = Vec::new();
    append_bytes(&mut out, OPEN_CODE_REF.as_bytes());
    assert(out@ + from_code_ref(f) =~= all);
    push_json_text(&mut out, receipt.code_ref.as_str());
    append_bytes(&mut out, NEXT_INPUT_HASH.as_bytes());
    assert(out@ + from_input_hash(f) =~= all);
    push_json_text(&mut out, receipt.input_hash.as_str());
    append_bytes(&mut out, NEXT_NONCE.as_bytes());
    assert(out@ + from_nonce(f) =~= all);
    push_json_text(&mut out, receipt.nonce.as_str());
    append_bytes(&mut out, NEXT_OUTPUT_HASH.as_bytes());
    assert(out@ + from_output_hash(f) =~= all);
    push_json_text(&mut out, receipt.output_hash.as_str());
    append_bytes(&mut out, NEXT_POLICY_IDS.as_bytes());
    assert(out@ + from_policy_ids(f) =~= all);
    push_json_text_array(&mut out, &receipt.policy_ids);
    append_bytes(&mut out, NEXT_TS.as_bytes());
    assert(out@ + from_ts(f) =~= all);
    push_decimal_i64(&mut out, receipt.ts);
    out.push(COMMA);
    append_bytes(&mut out, KEY_VERSION.as_bytes());
    assert(out@ + from_version(f) =~= all);
    push_json_text(&mut out, receipt.version.as_str());
    out.push(RBRACE);
    assert(out@ =~= all);
    out
}

/// Two sequences that are equal after the same prefix are equal.
pub proof fn lemma_cancel_prefix(p: Seq<u8>, x: Seq<u8>, y: Seq<u8>)
    requires
        p + x == p + y,
    ensures
        x == y,
{
    assert(x =~= (p + x).subrange(p.len() as int, (p + x).len() as int));
    assert(y =~= (p + y).subrange(p.len() as int, (p + y).len() as int));
}

/// The canonical encoding is unambiguous: two sets of signed fields with the
/// same canonical bytes are the same in every field. So a change to any
/// signed field changes the bytes that the signature is checked against.
pub proof fn lemma_canonical_encoding_injective(a: SignedFields, b: SignedFields)
    requires
        canonical_encoding(a) == canonical_encoding(b),
    ensures
        a == b,
{
    lemma_cancel_prefix(piece(OPEN_CODE_REF), from_code_ref(a), from_code_ref(b));
    let xa = piece(NEXT_INPUT_HASH) + from_input_hash(a);
    let xb = piece(NEXT_INPUT_HASH) + from_input_hash(b);
    lemma_json_string_prefix_free(encode_utf8(a.code_ref), encode_utf8(b.code_ref), xa, xb);
    lemma_utf8_injective(a.code_ref, b.code_ref);
    lemma_cancel_prefix(piece(NEXT_INPUT_HASH), from_input_hash(a), from_input_hash(b));

    let xa = piece(NEXT_NONCE) + from_nonce(a);
    let xb = piece(NEXT_NONCE) + from_nonce(b);
    lemma_json_string_prefix_free(encode_utf8(a.input_hash), encode_utf8(b.input_hash), xa, xb);
    lemma_utf8_injective(a.input_hash, b.input_hash);
    lemma_cancel_prefix(piece(NEXT_NONCE), from_nonce(a), from_nonce(b));

    let xa = piece(NEXT_OUTPUT_HASH) + from_output_hash(a);
    let xb = piece(NEXT_OUTPUT_HASH) + from_output_hash(b);
    lemma_json_string_prefix_free(encode_utf8(a.nonce), encode_utf8(b.nonce), xa, xb);
    lemma_utf8_injective(a.nonce, b.nonce);
    lemma_cancel_prefix(piece(NEXT_OUTPUT_HASH), from_output_hash(a), from_output_hash(b));

    let xa = piece(NEXT_POLICY_IDS) + from_policy_ids(a);
    let xb = piece(NEXT_POLICY_IDS) + from_policy_ids(b);
    lemma_json_string_prefix_free(encode_utf8(a.output_hash), encode_utf8(b.output_hash), xa, xb);
    lemma_utf8_injective(a.output_hash, b.output_hash);
    lemma_cancel_prefix(piece(NEXT_POLICY_IDS), from_policy_ids(a), from_policy_ids(b));

    let xa = piece(NEXT_TS) + from_ts(a);
    let xb = piece(NEXT_TS) + from_ts(b);
    lemma_json_string_array_prefix_free(utf8_each(a.policy_ids), utf8_each(b.policy_ids), xa, xb);
    lemma_utf8_each_injective(a.policy_ids, b.policy_ids);
    lemma_cancel_prefix(piece(NEXT_TS), from_ts(a), from_ts(b));

    let xa = piece(KEY_VERSION) + from_version(a);
    let xb = piece(KEY_VERSION) + from_version(b);
    lemma_decimal_int_prefix_free(a.ts as int, b.ts as int, xa, xb);
    lemma_cancel_prefix(piece(KEY_VERSION), from_version(a), from_version(b));

    lemma_json_string_prefix_free(
        encode_utf8(a.version),
        encode_utf8(b.version),
        seq![RBRACE],
        seq![RBRACE],
    );
    lemma_utf8_injective(a.version, b.version);
}

} // verus!
