//! The receipt, its unsigned extensions and the result of verification,
//! each with the mathematical value that contracts speak of.

use crate::error::ErrorCode;
use crate::text::optional_text;
use crate::text::texts;
use vstd::prelude::*;

verus! {

/// The signed core of a receipt. All fields are mandatory; `sig` covers the
/// canonical encoding of the seven fields before it.
#[derive(Debug, Clone, PartialEq, Eq)]
pub struct Receipt {
    /// Protocol version.
    pub version: String,
    /// Reference to the code that ran.
    pub code_ref: String,
    /// Signing time in milliseconds since the Unix epoch.
    pub ts: i64,
    /// Random nonce, as base64 text.
    pub nonce: String,
    /// SHA-256 digest of the input, as base64 text.
    pub input_hash: String,
    /// SHA-256 digest of the output, as base64 text.
    pub output_hash: String,
    /// Policy identifiers, in the order given.
    pub policy_ids: Vec<String>,
    /// Ed25519 signature, as base64 text.
    pub sig: String,
    /// Ed25519 public key, as base64 text.
    pub pubkey: String,
}

/// The value of a [`Receipt`].
pub struct ReceiptView {
    pub version: Seq<char>,
    pub code_ref: Seq<char>,
    pub ts: i64,
    pub nonce: Seq<char>,
    pub input_hash: Seq<char>,
    pub output_hash: Seq<char>,
    pub policy_ids: Seq<Seq<char>>,
    pub sig: Seq<char>,
    pub pubkey: Seq<char>,
}

impl View for Receipt {
    type V = ReceiptView;

    open spec fn view(&self) -> ReceiptView {
        ReceiptView {
            version: self.version@,
            code_ref: self.code_ref@,
            ts: self.ts,
            nonce: self.nonce@,
            input_hash: self.input_hash@,
            output_hash: self.output_hash@,
            policy_ids: texts(self.policy_ids@),
            sig: self.sig@,
            pubkey: self.pubkey@,
        }
    }
}

/// The schemes by which key erasure can be attested.
#[derive(Debug, Clone, Copy, PartialEq, Eq, Structural)]
pub enum KeyErasureScheme {
    /// Monotonic counter and sealing inside a trusted execution environment.
    CounterSealTee,
    /// Simulation in software.
    SoftwareSimulation,
}

impl KeyErasureScheme {
    /// The tag that names the scheme on the wire.
    pub open spec fn tag_text(self) -> Seq<char> {
        match self {
            KeyErasureScheme::CounterSealTee => "counter+seal@tee"@,
            KeyErasureScheme::SoftwareSimulation => "sw-sim"@,
        }
    }

    /// The tag that names the scheme on the wire.
    pub fn tag(&self) -> (text: &'static str)
        ensures
            text@ == self.tag_text(),
    {
        match self {
            KeyErasureScheme::CounterSealTee => "counter+seal@tee",
            KeyErasureScheme::SoftwareSimulation => "sw-sim",
        }
    }
}

/// Evidence that key material was destroyed after use.
#[derive(Debug, Clone, PartialEq, Eq)]
pub struct KeyErasureProof {
    /// The scheme the evidence belongs to.
    pub scheme: KeyErasureScheme,
    /// The evidence, as base64 text.
    pub evidence: String,
}

/// The value of a [`KeyErasureProof`].
pub struct KeyErasureProofView {
    pub scheme: KeyErasureScheme,
    pub evidence: Seq<char>,
}

impl View for KeyErasureProof {
    type V = KeyErasureProofView;

    open spec fn view(&self) -> KeyErasureProofView {
        KeyErasureProofView { scheme: self.scheme, evidence: self.evidence@ }
    }
}

/// Where the computation ran.
#[derive(Debug, Clone, PartialEq, Eq)]
pub struct Environment {
    /// Geographic region.
    pub region: Option<String>,
    /// Service provider.
    pub provider: Option<String>,
}

/// The value of an [`Environment`].
pub struct EnvironmentView {
    pub region: Option<Seq<char>>,
    pub provider: Option<Seq<char>>,
}

impl View for Environment {
    type V = EnvironmentView;

    open spec fn view(&self) -> EnvironmentView {
        EnvironmentView {
            region: optional_text(self.region),
            provider: optional_text(self.provider),
        }
    }
}

/// Proof that a receipt is included in a transparency log.
#[derive(Debug, Clone, PartialEq, Eq)]
pub struct LogInclusion {
    /// Position of the receipt's leaf in the log.
    pub leaf_index: u64,
    /// Sibling hashes from the leaf up to the root, each as base64 text.
    pub merkle_proof: Vec<String>,
    /// Root hash of the log at the time of the proof, as base64 text.
    pub log_root: String,
}

/// The value of a [`LogInclusion`].
pub struct LogInclusionView {
    pub leaf_index: u64,
    pub merkle_proof: Seq<Seq<char>>,
    pub log_root: Seq<char>,
}

impl View for LogInclusion {
    type V = LogInclusionView;

    open spec fn view(&self) -> LogInclusionView {
        LogInclusionView {
            leaf_index: self.leaf_index,
            merkle_proof: texts(self.merkle_proof@),
            log_root: self.log_root@,
        }
    }
}

/// The unsigned extensions that may travel with a receipt.
#[derive(Debug, Clone, PartialEq, Eq)]
pub struct ReceiptExtensions {
    /// Key erasure proof.
    pub key_erasure: Option<KeyErasureProof>,
    /// Environment metadata.
    pub environment: Option<Environment>,
    /// Transparency log inclusion.
    pub log_inclusion: Option<LogInclusion>,
}

/// The value of a [`ReceiptExtensions`].
pub struct ReceiptExtensionsView {
    pub key_erasure: Option<KeyErasureProofView>,
    pub environment: Option<EnvironmentView>,
    pub log_inclusion: Option<LogInclusionView>,
}

impl View for ReceiptExtensions {
    type V = ReceiptExtensionsView;

    open spec fn view(&self) -> ReceiptExtensionsView {
        ReceiptExtensionsView {
            key_erasure: match self.key_erasure {
                Some(p) => Some(p@),
                None => None,
            },
            environment: match self.environment {
                Some(e) => Some(e@),
                None => None,
            },
            log_inclusion: match self.log_inclusion {
                Some(l) => Some(l@),
                None => None,
            },
        }
    }
}

impl ReceiptExtensionsView {
    /// No extension present.
    pub open spec fn none() -> ReceiptExtensionsView {
        ReceiptExtensionsView { key_erasure: None, environment: None, log_inclusion: None }
    }
}

impl Default for ReceiptExtensions {
    /// No extension present.
    fn default() -> (extensions: ReceiptExtensions)
        ensures
            extensions@ == ReceiptExtensionsView::none(),
    {
        ReceiptExtensions { key_erasure: None, environment: None, log_inclusion: None }
    }
}

/// A receipt together with its extensions; on the wire the two are merged
/// into one flat object.
#[derive(Debug, Clone, PartialEq, Eq)]
pub struct FullReceipt {
    /// The signed core.
    pub receipt: Receipt,
    /// The unsigned extensions.
    pub extensions: ReceiptExtensions,
}

/// The value of a [`FullReceipt`].
pub struct FullReceiptView {
    pub receipt: ReceiptView,
    pub extensions: ReceiptExtensionsView,
}

impl View for FullReceipt {
    type V = FullReceiptView;

    open spec fn view(&self) -> FullReceiptView {
        FullReceiptView { receipt: self.receipt@, extensions: self.extensions@ }
    }
}

/// What is needed to issue a receipt.
#[derive(Debug, Clone)]
pub struct CreateReceiptParams<'a> {
    /// Reference to the code that ran.
    pub code_ref: &'a str,
    /// The input of the computation.
    pub input_data: &'a [u8],
    /// The output of the computation.
    pub output_data: &'a [u8],
    /// Policy identifiers, in the order to be signed.
    pub policy_ids: Vec<String>,
    /// Extensions to attach, unsigned.
    pub extensions: Option<ReceiptExtensions>,
    /// Signing time to use in place of the clock.
    pub timestamp: Option<i64>,
    /// Nonce to use, as base64 text, in place of a random one.
    pub nonce: Option<String>,
}

/// How one stage of verification ended.
#[derive(Debug, Clone, Copy, PartialEq, Eq, Structural)]
pub enum StageStatus {
    /// The stage ran and found nothing wrong.
    Passed,
    /// The stage ran and found a violation.
    Invalid,
    /// The stage did not run, or had nothing to check.
    NotChecked,
}

impl StageStatus {
    /// The text that stands for the status in a result: `OK`, `Invalid` or
    /// `Not checked`.
    pub open spec fn label_text(self) -> Seq<char> {
        match self {
            StageStatus::Passed => "OK"@,
            StageStatus::Invalid => "Invalid"@,
            StageStatus::NotChecked => "Not checked"@,
        }
    }

    /// The text that stands for the status in a result.
    pub fn label(&self) -> (text: String)
        ensures
            text@ == self.label_text(),
    {
        match self {
            StageStatus::Passed => "OK".to_owned(),
            StageStatus::Invalid => "Invalid".to_owned(),
            StageStatus::NotChecked => "Not checked".to_owned(),
        }
    }
}

/// One violation found by verification.
#[derive(Debug, Clone, PartialEq, Eq)]
pub struct VerificationError {
    /// Stable error code.
    pub code: String,
    /// Human-readable message.
    pub message: String,
    /// The field at fault, where there is one.
    pub field: Option<String>,
}

/// The value of a [`VerificationError`].
pub struct VerificationErrorView {
    pub code: Seq<char>,
    pub message: Seq<char>,
    pub field: Option<Seq<char>>,
}

impl View for VerificationError {
    type V = VerificationErrorView;

    open spec fn view(&self) -> VerificationErrorView {
        VerificationErrorView {
            code: self.code@,
            message: self.message@,
            field: optional_text(self.field),
        }
    }
}

/// The error that reports `code` against the field `field`: the code and
/// its message as the table gives them.
pub open spec fn finding(code: ErrorCode, field: Seq<char>) -> VerificationErrorView {
    VerificationErrorView {
        code: code.code_text(),
        message: code.message_text(),
        field: Some(field),
    }
}

impl VerificationError {
    /// The error that reports `code` against the field `field`.
    pub fn new(code: ErrorCode, field: &str) -> (error: VerificationError)
        ensures
            error@ == finding(code, field@),
    {
        VerificationError {
            code: code.code().to_owned(),
            message: code.message().to_owned(),
            field: Some(field.to_owned()),
        }
    }
}

/// The values of a list of errors.
pub open spec fn error_views(errors: Seq<VerificationError>) -> Seq<VerificationErrorView> {
    errors.map_values(|e: VerificationError| e@)
}

/// The values of two lists of errors, one after the other, are those of
/// the joined list.
pub proof fn lemma_error_views_concat(a: Seq<VerificationError>, b: Seq<VerificationError>)
    ensures
        error_views(a + b) == error_views(a) + error_views(b),
{
    assert(error_views(a + b) =~= error_views(a) + error_views(b));
}

/// What one stage of verification reports: its status and the errors it
/// found.
#[derive(Debug, Clone, PartialEq, Eq)]
pub struct StageReport {
    /// How the stage ended.
    pub status: StageStatus,
    /// The errors the stage found, in the order found.
    pub errors: Vec<VerificationError>,
}

/// The value of a [`StageReport`].
pub struct StageReportView {
    pub status: StageStatus,
    pub errors: Seq<VerificationErrorView>,
}

impl View for StageReport {
    type V = StageReportView;

    open spec fn view(&self) -> StageReportView {
        StageReportView { status: self.status, errors: error_views(self.errors@) }
    }
}

impl StageReportView {
    /// A stage that found nothing wrong.
    pub open spec fn passed() -> StageReportView {
        StageReportView { status: StageStatus::Passed, errors: Seq::empty() }
    }

    /// A stage that did not run and reports nothing.
    pub open spec fn skipped() -> StageReportView {
        StageReportView { status: StageStatus::NotChecked, errors: Seq::empty() }
    }

    /// A stage that failed with one error.
    pub open spec fn failed(code: ErrorCode, field: Seq<char>) -> StageReportView {
        StageReportView { status: StageStatus::Invalid, errors: seq![finding(code, field)] }
    }

    /// Status `OK` where nothing was found, `Invalid` otherwise.
    pub open spec fn of_errors(errors: Seq<VerificationErrorView>) -> StageReportView {
        StageReportView {
            status: if errors.len() == 0 {
                StageStatus::Passed
            } else {
                StageStatus::Invalid
            },
            errors,
        }
    }
}

impl StageReport {
    /// A stage that found nothing wrong.
    pub fn passed() -> (report: StageReport)
        ensures
            report@ == StageReportView::passed(),
    {
        let report = StageReport { status: StageStatus::Passed, errors: Vec::new() };
        assert(report@.errors =~= Seq::empty());
        report
    }

    /// A stage that did not run and reports nothing.
    pub fn skipped() -> (report: StageReport)
        ensures
            report@ == StageReportView::skipped(),
    {
        let report = StageReport { status: StageStatus::NotChecked, errors: Vec::new() };
        assert(report@.errors =~= Seq::empty());
        report
    }

    /// A stage that failed with one error.
    pub fn failed(code: ErrorCode, field: &str) -> (report: StageReport)
        ensures
            report@ == StageReportView::failed(code, field@),
    {
        let mut errors: Vec<VerificationError> = Vec::new();
        errors.push(VerificationError::new(code, field));
        let report = StageReport { status: StageStatus::Invalid, errors };
        assert(report@.errors =~= seq![finding(code, field@)]);
        report
    }

    /// Status `OK` where the list is empty, `Invalid` otherwise.
    pub fn of_errors(errors: Vec<VerificationError>) -> (report: StageReport)
        ensures
            report@ == StageReportView::of_errors(error_views(errors@)),
    {
        let status = if errors.len() == 0 {
            StageStatus::Passed
        } else {
            StageStatus::Invalid
        };
        StageReport { status, errors }
    }
}

/// The status of each stage of a verification.
#[derive(Debug, Clone, PartialEq, Eq)]
pub struct VerificationDetails {
    /// Status of the signature stage.
    pub signature: String,
    /// Status of the timestamp stage.
    pub timestamp: String,
    /// Status of the schema stage.
    pub schema: String,
    /// Status of the transparency log stage.
    pub transparency_log: String,
}

/// The value of a [`VerificationDetails`].
pub struct VerificationDetailsView {
    pub signature: Seq<char>,
    pub timestamp: Seq<char>,
    pub schema: Seq<char>,
    pub transparency_log: Seq<char>,
}

impl View for VerificationDetails {
    type V = VerificationDetailsView;

    open spec fn view(&self) -> VerificationDetailsView {
        VerificationDetailsView {
            signature: self.signature@,
            timestamp: self.timestamp@,
            schema: self.schema@,
            transparency_log: self.transparency_log@,
        }
    }
}

impl VerificationDetailsView {
    /// The details that show the given status for each stage.
    pub open spec fn of(
        signature: StageStatus,
        timestamp: StageStatus,
        schema: StageStatus,
        transparency_log: StageStatus,
    ) -> VerificationDetailsView {
        VerificationDetailsView {
            signature: signature.label_text(),
            timestamp: timestamp.label_text(),
            schema: schema.label_text(),
            transparency_log: transparency_log.label_text(),
        }
    }

    /// The details before any stage has run: the signature counts as
    /// invalid until it is verified; timestamp, schema and transparency log
    /// are not checked.
    pub open spec fn baseline() -> VerificationDetailsView {
        Self::of(
            StageStatus::Invalid,
            StageStatus::NotChecked,
            StageStatus::NotChecked,
            StageStatus::NotChecked,
        )
    }
}

impl VerificationDetails {
    /// The details that show the given status for each stage.
    pub fn of(
        signature: StageStatus,
        timestamp: StageStatus,
        schema: StageStatus,
        transparency_log: StageStatus,
    ) -> (details: VerificationDetails)
        ensures
            details@ == VerificationDetailsView::of(signature, timestamp, schema, transparency_log),
    {
        VerificationDetails {
            signature: signature.label(),
            timestamp: timestamp.label(),
            schema: schema.label(),
            transparency_log: transparency_log.label(),
        }
    }
}

impl Default for VerificationDetails {
    /// The details before any stage has run.
    fn default() -> (details: VerificationDetails)
        ensures
            details@ == VerificationDetailsView::baseline(),
    {
        VerificationDetails::of(
            StageStatus::Invalid,
            StageStatus::NotChecked,
            StageStatus::NotChecked,
            StageStatus::NotChecked,
        )
    }
}

/// A named duration in milliseconds.
#[derive(Debug, Clone, PartialEq, Eq)]
pub struct Timing {
    /// What was timed.
    pub name: String,
    /// How long it took, in milliseconds.
    pub millis: u64,
}

/// The value of a [`Timing`].
pub struct TimingView {
    pub name: Seq<char>,
    pub millis: u64,
}

impl View for Timing {
    type V = TimingView;

    open spec fn view(&self) -> TimingView {
        TimingView { name: self.name@, millis: self.millis }
    }
}

/// The values of a list of timings.
pub open spec fn timing_views(timings: Seq<Timing>) -> Seq<TimingView> {
    timings.map_values(|t: Timing| t@)
}

/// The outcome of verifying a receipt.
#[derive(Debug, Clone, PartialEq, Eq)]
pub struct VerificationResult {
    /// Whether every mandatory stage passed.
    pub valid: bool,
    /// The errors of all stages, in the order of the stages.
    pub errors: Vec<VerificationError>,
    /// The status of each stage.
    pub details: VerificationDetails,
    /// Named timings, in the order recorded.
    pub performance: Vec<Timing>,
}

/// The value of a [`VerificationResult`].
pub struct VerificationResultView {
    pub valid: bool,
    pub errors: Seq<VerificationErrorView>,
    pub details: VerificationDetailsView,
    pub performance: Seq<TimingView>,
}

impl View for VerificationResult {
    type V = VerificationResultView;

    open spec fn view(&self) -> VerificationResultView {
        VerificationResultView {
            valid: self.valid,
            errors: error_views(self.errors@),
            details: self.details@,
            performance: timing_views(self.performance@),
        }
    }
}

impl VerificationResultView {
    /// The result before any stage has run: not valid, no error, the
    /// baseline details, no timing.
    pub open spec fn baseline() -> VerificationResultView {
        VerificationResultView {
            valid: false,
            errors: Seq::empty(),
            details: VerificationDetailsView::baseline(),
            performance: Seq::empty(),
        }
    }

    /// The result of a receipt whose schema stage failed: only that stage
    /// ran, and only its errors are reported.
    pub open spec fn schema_failure(schema: StageReportView) -> VerificationResultView {
        VerificationResultView {
            valid: false,
            errors: schema.errors,
            details: VerificationDetailsView::of(
                StageStatus::NotChecked,
                StageStatus::NotChecked,
                schema.status,
                StageStatus::NotChecked,
            ),
            performance: Seq::empty(),
        }
    }

    /// The result of the four stages taken together: valid where schema,
    /// timestamp and signature are `OK` and the transparency log is `OK` or
    /// not checked; the errors of all stages in their order.
    pub open spec fn from_stages(
        schema: StageReportView,
        timestamp: StageReportView,
        signature: StageReportView,
        transparency_log: StageReportView,
    ) -> VerificationResultView {
        VerificationResultView {
            valid: schema.status == StageStatus::Passed && timestamp.status == StageStatus::Passed
                && signature.status == StageStatus::Passed && (transparency_log.status
                == StageStatus::Passed || transparency_log.status == StageStatus::NotChecked),
            errors: schema.errors + timestamp.errors + signature.errors
                + transparency_log.errors,
            details: VerificationDetailsView::of(
                signature.status,
                timestamp.status,
                schema.status,
                transparency_log.status,
            ),
            performance: Seq::empty(),
        }
    }

    /// The same result with one more timing at the end.
    pub open spec fn with_timing(self, name: Seq<char>, millis: u64) -> VerificationResultView {
        VerificationResultView {
            performance: self.performance.push(TimingView { name, millis }),
            ..self
        }
    }
}

impl Default for VerificationResult {
    /// The result before any stage has run.
    fn default() -> (result: VerificationResult)
        ensures
            result@ == VerificationResultView::baseline(),
    {
        let result = VerificationResult {
            valid: false,
            errors: Vec::new(),
            details: VerificationDetails::default(),
            performance: Vec::new(),
        };
        assert(result@.errors =~= Seq::empty());
        assert(result@.performance =~= Seq::empty());
        result
    }
}

impl VerificationResult {
    /// The result of a receipt whose schema stage failed.
    pub fn schema_failure(schema: StageReport) -> (result: VerificationResult)
        ensures
            result@ == VerificationResultView::schema_failure(schema@),
    {
        let details = VerificationDetails::of(
            StageStatus::NotChecked,
            StageStatus::NotChecked,
            schema.status,
            StageStatus::NotChecked,
        );
        let result = VerificationResult {
            valid: false,
            errors: schema.errors,
            details,
            performance: Vec::new(),
        };
        assert(result@.performance =~= Seq::empty());
        result
    }

    /// The result of the four stages taken together.
    pub fn from_stages(
        schema: StageReport,
        timestamp: StageReport,
        signature: StageReport,
        transparency_log: StageReport,
    ) -> (result: VerificationResult)
        ensures
            result@ == VerificationResultView::from_stages(
                schema@,
                timestamp@,
                signature@,
                transparency_log@,
            ),
    {
        let log_passes = match transparency_log.status {
            StageStatus::Passed => true,
            StageStatus::NotChecked => true,
            StageStatus::Invalid => false,
        };
        let valid = schema.status == StageStatus::Passed && timestamp.status == StageStatus::Passed
            && signature.status == StageStatus::Passed && log_passes;
        let details = VerificationDetails::of(
            signature.status,
            timestamp.status,
            schema.status,
            transparency_log.status,
        );
        let mut errors = schema.errors;
        let mut more = timestamp.errors;
        proof {
            lemma_error_views_concat(errors@, more@);
        }
        errors.append(&mut more);
        let mut more = signature.errors;
        proof {
            lemma_error_views_concat(errors@, more@);
        }
        errors.append(&mut more);
        let mut more = transparency_log.errors;
        proof {
            lemma_error_views_concat(errors@, more@);
        }
        errors.append(&mut more);
        let result = VerificationResult { valid, errors, details, performance: Vec::new() };
        assert(result@.performance =~= Seq::empty());
        result
    }

    /// Adds a named timing at the end of `performance`; nothing else
    /// changes.
    pub fn record_timing(&mut self, name: &str, millis: u64)
        ensures
            final(self)@ == old(self)@.with_timing(name@, millis),
    {
        self.performance.push(Timing { name: name.to_owned(), millis });
        assert(self@.performance =~= old(self)@.performance.push(
            TimingView { name: name@, millis },
        ));
    }
}

} // verus!
