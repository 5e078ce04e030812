//! Signed receipts for ephemeral computation: canonical encoding, issuing and
//! multi-stage verification.

use vstd::prelude::*;

pub mod canonical;
pub mod crypto;
pub mod error;
pub mod json;
pub mod merkle;
pub mod pipeline;
pub mod receipt;
pub mod text;
pub mod types;
pub mod verification;
pub mod wire;

verus! {

/// Protocol version string carried by every receipt.
pub const TECP_VERSION: &'static str = "TECP-0.1";

/// Oldest accepted receipt age in milliseconds (24 hours).
pub const MAX_RECEIPT_AGE_MS: i64 = 86_400_000;

/// Largest accepted distance into the future in milliseconds (5 minutes).
pub const MAX_CLOCK_SKEW_MS: i64 = 300_000;

/// Largest accepted wire size of a receipt in bytes.
pub const MAX_RECEIPT_SIZE_BYTES: usize = 8192;

/// Time in milliseconds within which issuing a receipt should end.
pub const PERFORMANCE_TARGET_CREATE_MS: u64 = 10;

/// Time in milliseconds within which verifying a receipt should end.
pub const PERFORMANCE_TARGET_VERIFY_MS: u64 = 5;

} // verus!

pub use error::ErrorCode;
pub use error::TECPError;
pub use pipeline::VerificationRun;
pub use receipt::ReceiptSigner;
pub use types::FullReceipt;
pub use types::Receipt;
pub use types::ReceiptExtensions;
pub use types::VerificationResult;
pub use verification::ReceiptVerifier;
