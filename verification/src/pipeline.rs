//! Verification one stage at a time, for callers that time the stages or
//! consult the log service between them. The order of the stages and the
//! rule that a failed schema ends the run are decided here; the caller only
//! asks for the next step.

use crate::error::ErrorCode;
use crate::types::FullReceipt;
use crate::types::FullReceiptView;
use crate::types::StageReport;
use crate::types::StageReportView;
use crate::types::StageStatus;
use crate::types::VerificationResult;
use crate::types::VerificationResultView;
use crate::verification::check_schema;
use crate::verification::check_signature;
use crate::verification::check_timestamp;
use crate::verification::check_transparency_log;
use crate::verification::log_report;
use crate::verification::schema_report;
use crate::verification::signature_report;
use crate::verification::timestamp_report;
use crate::verification::verdict;
use crate::verification::ReceiptVerifier;
use vstd::prelude::*;

verus! {

/// The four stages of verification, in the order in which they run.
#[derive(Debug, Clone, Copy, PartialEq, Eq, Structural)]
pub enum Stage {
    /// Presence and shape of the mandatory fields.
    Schema,
    /// Age of the receipt.
    Timestamp,
    /// Signature over the canonical bytes.
    Signature,
    /// Inclusion in the transparency log.
    TransparencyLog,
}

impl Stage {
    /// The name of the stage, as used for its timing.
    pub open spec fn name_text(self) -> Seq<char> {
        match self {
            Stage::Schema => "schema"@,
            Stage::Timestamp => "timestamp"@,
            Stage::Signature => "signature"@,
            Stage::TransparencyLog => "transparency_log"@,
        }
    }

    /// The name of the stage, as used for its timing.
    pub fn name(&self) -> (text: &'static str)
        ensures
            text@ == self.name_text(),
    {
        match self {
            Stage::Schema => "schema",
            Stage::Timestamp => "timestamp",
            Stage::Signature => "signature",
            Stage::TransparencyLog => "transparency_log",
        }
    }
}

/// What the log service answered when asked whether a root is the one it
/// currently publishes.
#[derive(Debug, Clone, Copy, PartialEq, Eq, Structural)]
pub enum RootLookup {
    /// The root is the published one.
    Confirmed,
    /// The service publishes another root.
    Rejected,
    /// The service did not answer in time, or failed.
    Unavailable,
}

/// The value of an optional stage report.
pub open spec fn report_view(report: Option<StageReport>) -> Option<StageReportView> {
    match report {
        Some(r) => Some(r@),
        None => None,
    }
}

/// The report of a stage, or that of a skipped stage where it has not run.
pub open spec fn or_skipped(report: Option<StageReportView>) -> StageReportView {
    match report {
        Some(r) => r,
        None => StageReportView::skipped(),
    }
}

/// A verification under way: the reports of the stages that have run.
#[derive(Debug, Clone, PartialEq, Eq)]
pub struct VerificationRun {
    /// Report of the schema stage, once it has run.
    pub schema: Option<StageReport>,
    /// Report of the timestamp stage, once it has run.
    pub timestamp: Option<StageReport>,
    /// Report of the signature stage, once it has run.
    pub signature: Option<StageReport>,
    /// Report of the transparency log stage, once it has run.
    pub transparency_log: Option<StageReport>,
}

/// The value of a [`VerificationRun`].
pub struct VerificationRunView {
    pub schema: Option<StageReportView>,
    pub timestamp: Option<StageReportView>,
    pub signature: Option<StageReportView>,
    pub transparency_log: Option<StageReportView>,
}

impl View for VerificationRun {
    type V = VerificationRunView;

    open spec fn view(&self) -> VerificationRunView {
        VerificationRunView {
            schema: report_view(self.schema),
            timestamp: report_view(self.timestamp),
            signature: report_view(self.signature),
            transparency_log: report_view(self.transparency_log),
        }
    }
}

impl VerificationRunView {
    /// A run in which no stage has run.
    pub open spec fn start() -> VerificationRunView {
        VerificationRunView { schema: None, timestamp: None, signature: None, transparency_log: None }
    }

    /// The stage to run next: the schema first; after a schema that did not
    /// pass, none; else the first of timestamp, signature and transparency
    /// log that has not run; none when all have.
    pub open spec fn next_stage(self) -> Option<Stage> {
        match self.schema {
            None => Some(Stage::Schema),
            Some(schema) => if schema.status != StageStatus::Passed {
                None
            } else if self.timestamp is None {
                Some(Stage::Timestamp)
            } else if self.signature is None {
                Some(Stage::Signature)
            } else if self.transparency_log is None {
                Some(Stage::TransparencyLog)
            } else {
                None
            },
        }
    }

    /// The run after its next stage has run on the given receipt, at the
    /// given time; the run itself where no stage is left.
    pub open spec fn advanced(self, full: FullReceiptView, now: i64, require_log: bool) -> VerificationRunView {
        match self.next_stage() {
            None => self,
            Some(Stage::Schema) => VerificationRunView {
                schema: Some(schema_report(full.receipt)),
                ..self
            },
            Some(Stage::Timestamp) => VerificationRunView {
                timestamp: Some(timestamp_report(full.receipt.ts, now)),
                ..self
            },
            Some(Stage::Signature) => VerificationRunView {
                signature: Some(signature_report(full.receipt)),
                ..self
            },
            Some(Stage::TransparencyLog) => VerificationRunView {
                transparency_log: Some(
                    log_report(full.receipt, full.extensions.log_inclusion, require_log),
                ),
                ..self
            },
        }
    }

    /// The run after the log service was asked about the root. Only a
    /// transparency log stage that passed is touched: it stays as it is
    /// where the root is confirmed, fails with `E-LOG-003` where the service
    /// publishes another root, and where the service is unavailable fails
    /// with `E-LOG-004` in strict mode and counts as not checked otherwise.
    pub open spec fn with_root_lookup(self, lookup: RootLookup, strict: bool) -> VerificationRunView {
        match self.transparency_log {
            Some(report) => if report.status == StageStatus::Passed {
                match lookup {
                    RootLookup::Confirmed => self,
                    RootLookup::Rejected => VerificationRunView {
                        transparency_log: Some(
                            StageReportView::failed(ErrorCode::LogRootMismatch, "log_root"@),
                        ),
                        ..self
                    },
                    RootLookup::Unavailable => VerificationRunView {
                        transparency_log: Some(
                            if strict {
                                StageReportView::failed(ErrorCode::LogUnavailable, "log_root"@)
                            } else {
                                StageReportView::skipped()
                            },
                        ),
                        ..self
                    },
                }
            } else {
                self
            },
            None => self,
        }
    }

    /// The result that the run adds up to; a stage that has not run counts
    /// as not checked.
    pub open spec fn conclusion(self) -> VerificationResultView {
        VerificationResultView::from_stages(
            or_skipped(self.schema),
            or_skipped(self.timestamp),
            or_skipped(self.signature),
            or_skipped(self.transparency_log),
        )
    }
}

/// The report of a stage, or that of a skipped stage where it has not run.
fn report_or_skipped(report: Option<StageReport>) -> (out: StageReport)
    ensures
        out@ == or_skipped(report_view(report)),
{
    match report {
        Some(r) => r,
        None => StageReport::skipped(),
    }
}

impl VerificationRun {
    /// A run in which no stage has run.
    pub fn start() -> (run: VerificationRun)
        ensures
            run@ == VerificationRunView::start(),
    {
        VerificationRun { schema: None, timestamp: None, signature: None, transparency_log: None }
    }

    /// The stage to run next, if any.
    pub fn next_stage(&self) -> (stage: Option<Stage>)
        ensures
            stage == self@.next_stage(),
    {
        match &self.schema {
            None => Some(Stage::Schema),
            Some(schema) => match schema.status {
                StageStatus::Passed => {
                    if self.timestamp.is_none() {
                        Some(Stage::Timestamp)
                    } else if self.signature.is_none() {
                        Some(Stage::Signature)
                    } else if self.transparency_log.is_none() {
                        Some(Stage::TransparencyLog)
                    } else {
                        None
                    }
                },
                _ => None,
            },
        }
    }

    /// Runs the next stage, if any, and says which one ran.
    pub fn step(&mut self, verifier: &ReceiptVerifier, full: &FullReceipt, now_ms: i64) -> (ran:
        Option<Stage>)
        ensures
            ran == old(self)@.next_stage(),
            final(self)@ == old(self)@.advanced(full@, now_ms, verifier.require_log_inclusion),
    {
        let stage = self.next_stage();
        match stage {
            None => {},
            Some(Stage::Schema) => {
                self.schema = Some(check_schema(&full.receipt));
            },
            Some(Stage::Timestamp) => {
                self.timestamp = Some(check_timestamp(full.receipt.ts, now_ms));
            },
            Some(Stage::Signature) => {
                self.signature = Some(check_signature(&full.receipt));
            },
            Some(Stage::TransparencyLog) => {
                self.transparency_log = Some(
                    check_transparency_log(
                        &full.receipt,
                        &full.extensions.log_inclusion,
                        verifier.require_log_inclusion,
                    ),
                );
            },
        }
        stage
    }

    /// Whether the log service should be asked about the root: only after
    /// the transparency log stage has passed.
    pub fn wants_root_lookup(&self) -> (wanted: bool)
        ensures
            wanted == (self@.transparency_log matches Some(report) && report.status
                == StageStatus::Passed),
    {
        match &self.transparency_log {
            Some(report) => report.status == StageStatus::Passed,
            None => false,
        }
    }

    /// Takes in what the log service answered about the root.
    pub fn settle_root_lookup(&mut self, lookup: RootLookup, strict: bool)
        ensures
            final(self)@ == old(self)@.with_root_lookup(lookup, strict),
    {
        if self.wants_root_lookup() {
            match lookup {
                RootLookup::Confirmed => {},
                RootLookup::Rejected => {
                    self.transparency_log = Some(
                        StageReport::failed(ErrorCode::LogRootMismatch, "log_root"),
                    );
                },
                RootLookup::Unavailable => {
                    if strict {
                        self.transparency_log = Some(
                            StageReport::failed(ErrorCode::LogUnavailable, "log_root"),
                        );
                    } else {
                        self.transparency_log = Some(StageReport::skipped());
                    }
                },
            }
        }
    }

    /// The result that the run adds up to.
    pub fn finish(self) -> (result: VerificationResult)
        ensures
            result@ == self@.conclusion(),
    {
        VerificationResult::from_stages(
            report_or_skipped(self.schema),
            report_or_skipped(self.timestamp),
            report_or_skipped(self.signature),
            report_or_skipped(self.transparency_log),
        )
    }
}

/// Stepping a fresh run until no stage is left takes at most four steps and
/// adds up to the result of verifying in one go.
pub proof fn lemma_run_concludes_with_verdict(full: FullReceiptView, now: i64, require_log: bool)
    ensures
        ({
            let done = VerificationRunView::start().advanced(full, now, require_log).advanced(
                full,
                now,
                require_log,
            ).advanced(full, now, require_log).advanced(full, now, require_log);
            &&& done.next_stage() is None
            &&& done.conclusion() == verdict(full, now, require_log)
        }),
{
    let first = VerificationRunView::start().advanced(full, now, require_log);
    let done = first.advanced(full, now, require_log).advanced(full, now, require_log).advanced(
        full,
        now,
        require_log,
    );
    let schema = schema_report(full.receipt);
    if schema.status != StageStatus::Passed {
        assert(done == first);
        assert(done.conclusion().errors =~= schema.errors);
    }
}

/// What asking the log service does to a valid result: a confirmed root
/// changes nothing; where the log stage had passed, a rejected root makes
/// the result invalid, and an unavailable service does so in strict mode
/// only.
pub proof fn lemma_root_lookup_effect(run: VerificationRunView, strict: bool)
    requires
        run.conclusion().valid,
    ensures
        run.with_root_lookup(RootLookup::Confirmed, strict) == run,
        run.with_root_lookup(RootLookup::Unavailable, false).conclusion().valid,
        or_skipped(run.transparency_log).status == StageStatus::Passed ==> ({
            &&& !run.with_root_lookup(RootLookup::Rejected, strict).conclusion().valid
            &&& !run.with_root_lookup(RootLookup::Unavailable, true).conclusion().valid
        }),
        or_skipped(run.transparency_log).status != StageStatus::Passed ==> forall|
            lookup: RootLookup,
        | #[trigger] run.with_root_lookup(lookup, strict) == run,
{
}

} // verus!
