//! The shared table of error codes and the failures of receipt creation.

use vstd::prelude::*;

verus! {

/// A code of the error table shared by all implementations of the protocol.
#[derive(Debug, Clone, Copy, PartialEq, Eq, Structural)]
pub enum ErrorCode {
    /// The signature is not the text of a 64-byte value.
    SigFormat,
    /// The signature does not verify over the canonical bytes.
    SigFailed,
    /// The public key is not the text of a usable 32-byte key.
    SigKeyFormat,
    /// The timestamp is not an integer of milliseconds.
    TsFormat,
    /// The timestamp is beyond the permitted clock skew.
    TsSkew,
    /// The receipt is older than the age limit.
    TsExpired,
    /// The receipt is too old.
    AgeTooOld,
    /// The timestamp lies too far in the future.
    AgeFuture,
    /// A mandatory field is absent or empty.
    SchemaMissingField,
    /// A field has the wrong type.
    SchemaFieldType,
    /// A field is not validly encoded.
    SchemaFieldFormat,
    /// The version is not the supported protocol version.
    SchemaVersion,
    /// A log inclusion proof is demanded and absent.
    LogProofMissing,
    /// The log inclusion proof is malformed.
    LogProofInvalid,
    /// The recomputed root differs from the stated log root.
    LogRootMismatch,
    /// The log service could not be reached.
    LogUnavailable,
    /// A policy identifier is not known to the registry.
    PolicyUnknown,
    /// Policy validation failed.
    PolicyFailed,
    /// Policy requirements are not met.
    PolicyUnmet,
}

impl ErrorCode {
    /// The stable code, such as `E-SIG-002`.
    pub open spec fn code_text(self) -> Seq<char> {
        match self {
            ErrorCode::SigFormat => "E-SIG-001"@,
            ErrorCode::SigFailed => "E-SIG-002"@,
            ErrorCode::SigKeyFormat => "E-SIG-003"@,
            ErrorCode::TsFormat => "E-TS-001"@,
            ErrorCode::TsSkew => "E-TS-002"@,
            ErrorCode::TsExpired => "E-TS-003"@,
            ErrorCode::AgeTooOld => "E-AGE-001"@,
            ErrorCode::AgeFuture => "E-AGE-002"@,
            ErrorCode::SchemaMissingField => "E-SCHEMA-001"@,
            ErrorCode::SchemaFieldType => "E-SCHEMA-002"@,
            ErrorCode::SchemaFieldFormat => "E-SCHEMA-003"@,
            ErrorCode::SchemaVersion => "E-SCHEMA-004"@,
            ErrorCode::LogProofMissing => "E-LOG-001"@,
            ErrorCode::LogProofInvalid => "E-LOG-002"@,
            ErrorCode::LogRootMismatch => "E-LOG-003"@,
            ErrorCode::LogUnavailable => "E-LOG-004"@,
            ErrorCode::PolicyUnknown => "E-POLICY-001"@,
            ErrorCode::PolicyFailed => "E-POLICY-002"@,
            ErrorCode::PolicyUnmet => "E-POLICY-003"@,
        }
    }

    /// The human-readable message that goes with the code.
    pub open spec fn message_text(self) -> Seq<char> {
        match self {
            ErrorCode::SigFormat => "Invalid signature format"@,
            ErrorCode::SigFailed => "Signature verification failed"@,
            ErrorCode::SigKeyFormat => "Public key format invalid"@,
            ErrorCode::TsFormat => "Timestamp format invalid"@,
            ErrorCode::TsSkew => "Clock skew exceeded (>5 minutes)"@,
            ErrorCode::TsExpired => "Receipt expired (>24 hours)"@,
            ErrorCode::AgeTooOld => "Receipt too old"@,
            ErrorCode::AgeFuture => "Receipt timestamp in future"@,
            ErrorCode::SchemaMissingField => "Missing required field"@,
            ErrorCode::SchemaFieldType => "Invalid field type"@,
            ErrorCode::SchemaFieldFormat => "Invalid field format"@,
            ErrorCode::SchemaVersion => "Unknown receipt version"@,
            ErrorCode::LogProofMissing => "Log inclusion proof missing"@,
            ErrorCode::LogProofInvalid => "Log inclusion proof invalid"@,
            ErrorCode::LogRootMismatch => "Root hash mismatch"@,
            ErrorCode::LogUnavailable => "Log service unavailable"@,
            ErrorCode::PolicyUnknown => "Unknown policy ID"@,
            ErrorCode::PolicyFailed => "Policy validation failed"@,
            ErrorCode::PolicyUnmet => "Policy requirements not met"@,
        }
    }

    /// The stable code, such as `E-SIG-002`.
    pub fn code(&self) -> (text: &'static str)
        ensures
            text@ == self.code_text(),
    {
        match self {
            ErrorCode::SigFormat => "E-SIG-001",
            ErrorCode::SigFailed => "E-SIG-002",
            ErrorCode::SigKeyFormat => "E-SIG-003",
            ErrorCode::TsFormat => "E-TS-001",
            ErrorCode::TsSkew => "E-TS-002",
            ErrorCode::TsExpired => "E-TS-003",
            ErrorCode::AgeTooOld => "E-AGE-001",
            ErrorCode::AgeFuture => "E-AGE-002",
            ErrorCode::SchemaMissingField => "E-SCHEMA-001",
            ErrorCode::SchemaFieldType => "E-SCHEMA-002",
            ErrorCode::SchemaFieldFormat => "E-SCHEMA-003",
            ErrorCode::SchemaVersion => "E-SCHEMA-004",
            ErrorCode::LogProofMissing => "E-LOG-001",
            ErrorCode::LogProofInvalid => "E-LOG-002",
            ErrorCode::LogRootMismatch => "E-LOG-003",
            ErrorCode::LogUnavailable => "E-LOG-004",
            ErrorCode::PolicyUnknown => "E-POLICY-001",
            ErrorCode::PolicyFailed => "E-POLICY-002",
            ErrorCode::PolicyUnmet => "E-POLICY-003",
        }
    }

    /// The human-readable message that goes with the code.
    pub fn message(&self) -> (text: &'static str)
        ensures
            text@ == self.message_text(),
    {
        match self {
            ErrorCode::SigFormat => "Invalid signature format",
            ErrorCode::SigFailed => "Signature verification failed",
            ErrorCode::SigKeyFormat => "Public key format invalid",
            ErrorCode::TsFormat => "Timestamp format invalid",
            ErrorCode::TsSkew => "Clock skew exceeded (>5 minutes)",
            ErrorCode::TsExpired => "Receipt expired (>24 hours)",
            ErrorCode::AgeTooOld => "Receipt too old",
            ErrorCode::AgeFuture => "Receipt timestamp in future",
            ErrorCode::SchemaMissingField => "Missing required field",
            ErrorCode::SchemaFieldType => "Invalid field type",
            ErrorCode::SchemaFieldFormat => "Invalid field format",
            ErrorCode::SchemaVersion => "Unknown receipt version",
            ErrorCode::LogProofMissing => "Log inclusion proof missing",
            ErrorCode::LogProofInvalid => "Log inclusion proof invalid",
            ErrorCode::LogRootMismatch => "Root hash mismatch",
            ErrorCode::LogUnavailable => "Log service unavailable",
            ErrorCode::PolicyUnknown => "Unknown policy ID",
            ErrorCode::PolicyFailed => "Policy validation failed",
            ErrorCode::PolicyUnmet => "Policy requirements not met",
        }
    }

    /// Every code of the table, in the table's order.
    pub open spec fn table() -> Seq<ErrorCode> {
        seq![
            ErrorCode::SigFormat,
            ErrorCode::SigFailed,
            ErrorCode::SigKeyFormat,
            ErrorCode::TsFormat,
            ErrorCode::TsSkew,
            ErrorCode::TsExpired,
            ErrorCode::AgeTooOld,
            ErrorCode::AgeFuture,
            ErrorCode::SchemaMissingField,
            ErrorCode::SchemaFieldType,
            ErrorCode::SchemaFieldFormat,
            ErrorCode::SchemaVersion,
            ErrorCode::LogProofMissing,
            ErrorCode::LogProofInvalid,
            ErrorCode::LogRootMismatch,
            ErrorCode::LogUnavailable,
            ErrorCode::PolicyUnknown,
            ErrorCode::PolicyFailed,
            ErrorCode::PolicyUnmet,
        ]
    }

    /// Every code of the table, in the table's order.
    pub fn all() -> (codes: Vec<ErrorCode>)
        ensures
            codes@ == Self::table(),
    {
        let mut codes: Vec<ErrorCode> = Vec::new();
        codes.push(ErrorCode::SigFormat);
        codes.push(ErrorCode::SigFailed);
        codes.push(ErrorCode::SigKeyFormat);
        codes.push(ErrorCode::TsFormat);
        codes.push(ErrorCode::TsSkew);
        codes.push(ErrorCode::TsExpired);
        codes.push(ErrorCode::AgeTooOld);
        codes.push(ErrorCode::AgeFuture);
        codes.push(ErrorCode::SchemaMissingField);
        codes.push(ErrorCode::SchemaFieldType);
        codes.push(ErrorCode::SchemaFieldFormat);
        codes.push(ErrorCode::SchemaVersion);
        codes.push(ErrorCode::LogProofMissing);
        codes.push(ErrorCode::LogProofInvalid);
        codes.push(ErrorCode::LogRootMismatch);
        codes.push(ErrorCode::LogUnavailable);
        codes.push(ErrorCode::PolicyUnknown);
        codes.push(ErrorCode::PolicyFailed);
        codes.push(ErrorCode::PolicyUnmet);
        assert(codes@ =~= Self::table());
        codes
    }
}

/// Why a receipt could not be issued.
#[derive(Debug, Clone, Copy, PartialEq, Eq, Structural)]
pub enum TECPError {
    /// The wire encoding of the receipt would exceed the size limit; `size`
    /// is the length it would have had.
    ReceiptTooLarge { size: usize },
    /// The nonce handed in is not the text of at least sixteen bytes.
    InvalidNonce,
    /// The system could not supply random bytes for a fresh nonce.
    RandomnessUnavailable,
}

impl TECPError {
    /// A short description of the failure.
    pub open spec fn description_text(self) -> Seq<char> {
        match self {
            TECPError::ReceiptTooLarge { .. } => "receipt exceeds the maximum encoded size"@,
            TECPError::InvalidNonce => "nonce is not base64 text of at least 16 bytes"@,
            TECPError::RandomnessUnavailable => "no random bytes available for the nonce"@,
        }
    }

    /// A short description of the failure.
    pub fn describe(&self) -> (text: &'static str)
        ensures
            text@ == self.description_text(),
    {
        match self {
            TECPError::ReceiptTooLarge { .. } => "receipt exceeds the maximum encoded size",
            TECPError::InvalidNonce => "nonce is not base64 text of at least 16 bytes",
            TECPError::RandomnessUnavailable => "no random bytes available for the nonce",
        }
    }
}

} // verus!
