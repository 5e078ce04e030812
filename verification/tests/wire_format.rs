use tecp::crypto::bytes_equal;
use tecp::crypto::check_nonce_text;
use tecp::crypto::decode_fixed;
use tecp::crypto::to_array_32;
use tecp::crypto::to_array_64;
use tecp::json::append_bytes;
use tecp::types::Environment;
use tecp::types::FullReceipt;
use tecp::types::KeyErasureProof;
use tecp::types::KeyErasureScheme;
use tecp::types::LogInclusion;
use tecp::types::Receipt;
use tecp::types::ReceiptExtensions;
use tecp::wire::fits_size_limit;
use tecp::wire::wire_bytes;
use tecp::wire::wire_size;

fn small_receipt() -> Receipt {
    Receipt {
        version: "TECP-0.1".to_string(),
        code_ref: "c".to_string(),
        ts: -5,
        nonce: "n".to_string(),
        input_hash: "i".to_string(),
        output_hash: "o".to_string(),
        policy_ids: vec!["p".to_string(), "q".to_string()],
        sig: "s".to_string(),
        pubkey: "k".to_string(),
    }
}

fn wire_text(full: &FullReceipt) -> String {
    String::from_utf8(wire_bytes(full)).unwrap()
}

#[test]
fn wire_bytes_without_extensions() {
    let full = FullReceipt { receipt: small_receipt(), extensions: ReceiptExtensions::default() };
    let expected = "{\"version\":\"TECP-0.1\",\"code_ref\":\"c\",\"ts\":-5,\"nonce\":\"n\",\
\"input_hash\":\"i\",\"output_hash\":\"o\",\"policy_ids\":[\"p\",\"q\"],\"sig\":\"s\",\
\"pubkey\":\"k\",\"key_erasure\":null,\"environment\":null,\"log_inclusion\":null}";
    assert_eq!(wire_text(&full), expected);
    assert_eq!(wire_size(&full), expected.len());
    assert!(fits_size_limit(&full));
}

#[test]
fn wire_bytes_with_all_extensions() {
    let full = FullReceipt {
        receipt: small_receipt(),
        extensions: ReceiptExtensions {
            key_erasure: Some(KeyErasureProof {
                scheme: KeyErasureScheme::CounterSealTee,
                evidence: "ev".to_string(),
            }),
            environment: Some(Environment {
                region: Some("eu-west".to_string()),
                provider: None,
            }),
            log_inclusion: Some(LogInclusion {
                leaf_index: u64::MAX,
                merkle_proof: vec!["a".to_string(), "b".to_string()],
                log_root: "r".to_string(),
            }),
        },
    };
    let expected = "{\"version\":\"TECP-0.1\",\"code_ref\":\"c\",\"ts\":-5,\"nonce\":\"n\",\
\"input_hash\":\"i\",\"output_hash\":\"o\",\"policy_ids\":[\"p\",\"q\"],\"sig\":\"s\",\
\"pubkey\":\"k\",\"key_erasure\":{\"scheme\":\"counter+seal@tee\",\"evidence\":\"ev\"},\
\"environment\":{\"region\":\"eu-west\",\"provider\":null},\
\"log_inclusion\":{\"leaf_index\":18446744073709551615,\"merkle_proof\":[\"a\",\"b\"],\
\"log_root\":\"r\"}}";
    assert_eq!(wire_text(&full), expected);
    assert_eq!(wire_size(&full), expected.len());
}

#[test]
fn wire_bytes_are_one_flat_json_object() {
    let mut receipt = small_receipt();
    receipt.code_ref = "line\nbreak \"quoted\" \u{2603}".to_string();
    let full = FullReceipt {
        receipt,
        extensions: ReceiptExtensions {
            key_erasure: Some(KeyErasureProof {
                scheme: KeyErasureScheme::SoftwareSimulation,
                evidence: "e\\v".to_string(),
            }),
            environment: Some(Environment { region: None, provider: Some("p\t".to_string()) }),
            log_inclusion: None,
        },
    };
    let value: serde_json::Value = serde_json::from_slice(&wire_bytes(&full)).unwrap();
    let object = value.as_object().unwrap();
    assert_eq!(object.len(), 12);
    assert_eq!(object["version"].as_str(), Some("TECP-0.1"));
    assert_eq!(object["code_ref"].as_str(), Some("line\nbreak \"quoted\" \u{2603}"));
    assert_eq!(object["ts"].as_i64(), Some(-5));
    assert_eq!(object["policy_ids"].as_array().unwrap().len(), 2);
    assert_eq!(object["key_erasure"]["scheme"].as_str(), Some("sw-sim"));
    assert_eq!(object["key_erasure"]["evidence"].as_str(), Some("e\\v"));
    assert!(object["environment"]["region"].is_null());
    assert_eq!(object["environment"]["provider"].as_str(), Some("p\t"));
    assert!(object["log_inclusion"].is_null());
}

#[test]
fn size_limit_counts_escaped_bytes() {
    let mut full =
        FullReceipt { receipt: small_receipt(), extensions: ReceiptExtensions::default() };
    let base = wire_size(&full);
    full.receipt.code_ref = "\n".to_string();
    assert_eq!(wire_size(&full), base + 1);
    full.receipt.code_ref = "\u{1}".to_string();
    assert_eq!(wire_size(&full), base + 5);
    full.receipt.code_ref = "\u{2603}".to_string();
    assert_eq!(wire_size(&full), base + 2);
    full.receipt.code_ref = "x".repeat(8192 - base + 1);
    assert_eq!(wire_size(&full), 8192);
    assert!(fits_size_limit(&full));
    full.receipt.code_ref.push('x');
    assert_eq!(wire_size(&full), 8193);
    assert!(!fits_size_limit(&full));
}

#[test]
fn scheme_tags() {
    assert_eq!(KeyErasureScheme::CounterSealTee.tag(), "counter+seal@tee");
    assert_eq!(KeyErasureScheme::SoftwareSimulation.tag(), "sw-sim");
}

#[test]
fn byte_helpers() {
    assert!(bytes_equal(b"", b""));
    assert!(bytes_equal(b"abc", b"abc"));
    assert!(!bytes_equal(b"abc", b"abd"));
    assert!(!bytes_equal(b"abc", b"ab"));
    let mut out = b"ab".to_vec();
    append_bytes(&mut out, b"cd");
    assert_eq!(out, b"abcd".to_vec());
    append_bytes(&mut out, b"");
    assert_eq!(out, b"abcd".to_vec());
    let bytes: Vec<u8> = (0u8..64).collect();
    assert_eq!(to_array_32(&bytes[..32]).unwrap().to_vec(), bytes[..32].to_vec());
    assert_eq!(to_array_64(&bytes).unwrap().to_vec(), bytes);
    assert_eq!(to_array_32(&bytes), None);
    assert_eq!(to_array_32(&bytes[..31]), None);
    assert_eq!(to_array_64(&bytes[..63]), None);
    assert_eq!(to_array_64(b""), None);
}

#[test]
fn base64_fields_are_decoded_strictly() {
    assert_eq!(decode_fixed("AAECAw==", 4), Some(vec![0, 1, 2, 3]));
    assert_eq!(decode_fixed("AAECAw==", 3), None);
    assert_eq!(decode_fixed("AAECAw", 4), None);
    assert_eq!(decode_fixed("AAECAx==", 4), None);
    assert_eq!(decode_fixed("AAEC Aw==", 4), None);
    assert_eq!(decode_fixed("", 0), Some(Vec::new()));
    assert!(check_nonce_text("AAECAwQFBgcICQoLDA0ODw=="));
    assert!(check_nonce_text("AAECAwQFBgcICQoLDA0ODxA="));
    assert!(!check_nonce_text("AAECAwQFBgcICQoLDA0O"));
    assert!(!check_nonce_text(""));
    assert!(!check_nonce_text("AAECAwQFBgcICQoLDA0ODw"));
}
