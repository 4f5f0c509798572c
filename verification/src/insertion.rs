//! How a report gets into the database.

use crate::path::FilePath;
use crate::reporting::{Relay, ReportingConfig, RunInfo, RunInfoView};
use vstd::prelude::*;

verus! {

/// What becomes of a report that is in the database already.
#[derive(Clone, Copy, Debug, PartialEq, Eq, Structural)]
pub enum InsertionBehavior {
    SkipDuplicate,
}

/// Why a report is not inserted.
pub enum InsertionError<R: Relay> {
    /// There is no certificate for the node.
    MissingCertificateForNode(String),
    /// What went wrong outside.
    Fault(R::Fault),
}

/// What an `InsertionError` says.
pub enum InsertionErrorView<R: Relay> {
    MissingCertificateForNode(Seq<char>),
    Fault(R::Fault),
}

/// How far the insertion of a report has come, and what is to be done for it to go on.
pub enum Insertion<R: Relay> {
    /// Read the compressed file.
    Read { file: FilePath, info: RunInfo<R>, skipped: Vec<String> },
    /// Find the certificates of the node of `info`.
    FindCertificates { data: R::Data, info: RunInfo<R>, skipped: Vec<String> },
    /// Check the signature of `data` against the certificates.
    CheckSignature {
        data: R::Data,
        certificates: R::Certificates,
        info: RunInfo<R>,
        skipped: Vec<String>,
    },
    /// Parse what was signed as the report of the run.
    Parse { signed: R::Signed, info: RunInfo<R>, skipped: Vec<String> },
    /// Leave out the events of these types.
    Filter { log: R::Log, skipped: Vec<String> },
    /// Insert the report.
    Insert { log: R::Log, behavior: InsertionBehavior },
    /// The report is inserted, or is not.
    Done(Result<(), InsertionError<R>>),
}

/// What an `Insertion` says.
pub enum InsertionView<R: Relay> {
    Read { file: Seq<u8>, info: RunInfoView<R>, skipped: Seq<Seq<char>> },
    FindCertificates { data: R::Data, info: RunInfoView<R>, skipped: Seq<Seq<char>> },
    CheckSignature {
        data: R::Data,
        certificates: R::Certificates,
        info: RunInfoView<R>,
        skipped: Seq<Seq<char>>,
    },
    Parse { signed: R::Signed, info: RunInfoView<R>, skipped: Seq<Seq<char>> },
    Filter { log: R::Log, skipped: Seq<Seq<char>> },
    Insert { log: R::Log, behavior: InsertionBehavior },
    Done(Result<(), InsertionErrorView<R>>),
}

impl<R: Relay> View for Insertion<R> {
    type V = InsertionView<R>;

    open spec fn view(&self) -> InsertionView<R> {
        match *self {
            Insertion::Read { file, info, skipped } => InsertionView::Read {
                file: file@,
                info: info@,
                skipped: skipped.deep_view(),
            },
            Insertion::FindCertificates { data, info, skipped } =>
                InsertionView::FindCertificates {
                data,
                info: info@,
                skipped: skipped.deep_view(),
            },
            Insertion::CheckSignature { data, certificates, info, skipped } =>
                InsertionView::CheckSignature {
                data,
                certificates,
                info: info@,
                skipped: skipped.deep_view(),
            },
            Insertion::Parse { signed, info, skipped } => InsertionView::Parse {
                signed,
                info: info@,
                skipped: skipped.deep_view(),
            },
            Insertion::Filter { log, skipped } => InsertionView::Filter {
                log,
                skipped: skipped.deep_view(),
            },
            Insertion::Insert { log, behavior } => InsertionView::Insert { log, behavior },
            Insertion::Done(Ok(_)) => InsertionView::Done(Ok(())),
            Insertion::Done(Err(InsertionError::MissingCertificateForNode(node_id))) =>
                InsertionView::Done(Err(InsertionErrorView::MissingCertificateForNode(node_id@))),
            Insertion::Done(Err(InsertionError::Fault(fault))) => InsertionView::Done(
                Err(InsertionErrorView::Fault(fault)),
            ),
        }
    }
}

/// What was found outside.
pub enum Found<R: Relay> {
    /// The content of the file.
    Data(Result<R::Data, R::Fault>),
    /// The certificates of the node, if there are any.
    Certificates(Option<R::Certificates>),
    /// What was signed.
    Signed(Result<R::Signed, R::Fault>),
    /// The report of the run.
    Log(Result<R::Log, R::Fault>),
    /// The report without the events that are left out.
    Filtered(R::Log),
    /// Whether the report was inserted.
    Inserted(Result<(), R::Fault>),
}

/// Whether what was found is what an insertion waits for.
pub open spec fn awaits<R: Relay>(insertion: InsertionView<R>, found: Found<R>) -> bool {
    match insertion {
        InsertionView::Read { .. } => found is Data,
        InsertionView::FindCertificates { .. } => found is Certificates,
        InsertionView::CheckSignature { .. } => found is Signed,
        InsertionView::Parse { .. } => found is Log,
        InsertionView::Filter { .. } => found is Filtered,
        InsertionView::Insert { .. } => found is Inserted,
        InsertionView::Done(_) => false,
    }
}

/// The end of an insertion that something outside has stopped.
pub open spec fn stopped_by<R: Relay>(fault: R::Fault) -> InsertionView<R> {
    InsertionView::Done(Err(InsertionErrorView::Fault(fault)))
}

/// Where an insertion goes with what was found outside.
pub open spec fn next_insertion<R: Relay>(
    insertion: InsertionView<R>,
    found: Found<R>,
) -> InsertionView<R> {
    match (insertion, found) {
        (InsertionView::Read { file: _, info, skipped }, Found::Data(read)) => match read {
            Ok(data) => InsertionView::FindCertificates { data, info, skipped },
            Err(fault) => stopped_by(fault),
        },
        (InsertionView::FindCertificates { data, info, skipped }, Found::Certificates(known)) =>
            match known {
            Some(certificates) => InsertionView::CheckSignature {
                data,
                certificates,
                info,
                skipped,
            },
            None => InsertionView::Done(
                Err(InsertionErrorView::MissingCertificateForNode(info.node_id)),
            ),
        },
        (
            InsertionView::CheckSignature { data: _, certificates: _, info, skipped },
            Found::Signed(checked),
        ) => match checked {
            Ok(signed) => InsertionView::Parse { signed, info, skipped },
            Err(fault) => stopped_by(fault),
        },
        (InsertionView::Parse { signed: _, info: _, skipped }, Found::Log(parsed)) =>
            match parsed {
            Ok(log) => if skipped.len() == 0 {
                InsertionView::Insert { log, behavior: InsertionBehavior::SkipDuplicate }
            } else {
                InsertionView::Filter { log, skipped }
            },
            Err(fault) => stopped_by(fault),
        },
        (InsertionView::Filter { .. }, Found::Filtered(log)) => InsertionView::Insert {
            log,
            behavior: InsertionBehavior::SkipDuplicate,
        },
        (InsertionView::Insert { .. }, Found::Inserted(inserted)) => match inserted {
            Ok(_) => InsertionView::Done(Ok(())),
            Err(fault) => stopped_by(fault),
        },
        _ => insertion,
    }
}

/// A copy of a list of texts.
fn copy_texts(texts: &Vec<String>) -> (r: Vec<String>)
    ensures
        r.deep_view() == texts.deep_view(),
{
    let mut r: Vec<String> = Vec::new();
    let mut i: usize = 0;
    while i < texts.len()
        invariant
            i <= texts@.len(),
            r@ == texts@.take(i as int),
        decreases texts@.len() - i,
    {
        r.push(texts[i].clone());
        assert(r@ =~= texts@.take(i + 1));
        i += 1;
    }
    assert(r@ =~= texts@);
    assert(r.deep_view() =~= texts.deep_view());
    r
}

/// Starts to insert the report of a run.
pub fn output_report_database_inner<R: Relay>(
    file: FilePath,
    info: RunInfo<R>,
    config: &ReportingConfig<R>,
) -> (r: Insertion<R>)
    ensures
        r@ == (InsertionView::Read {
            file: file@,
            info: info@,
            skipped: config@.skip_event_types,
        }),
{
    Insertion::Read { file, info, skipped: copy_texts(&config.skip_event_types) }
}

impl<R: Relay> Insertion<R> {
    /// Goes on with what was found outside.
    pub fn resume(self, found: Found<R>) -> (r: Self)
        requires
            awaits(self@, found),
        ensures
            r@ == next_insertion(self@, found),
    {
        match (self, found) {
            (Insertion::Read { file: _, info, skipped }, Found::Data(read)) => match read {
                Ok(data) => Insertion::FindCertificates { data, info, skipped },
                Err(fault) => Insertion::Done(Err(InsertionError::Fault(fault))),
            },
            (Insertion::FindCertificates { data, info, skipped }, Found::Certificates(known)) =>
                match known {
                Some(certificates) => Insertion::CheckSignature {
                    data,
                    certificates,
                    info,
                    skipped,
                },
                None => Insertion::Done(
                    Err(InsertionError::MissingCertificateForNode(info.node_id)),
                ),
            },
            (
                Insertion::CheckSignature { data: _, certificates: _, info, skipped },
                Found::Signed(checked),
            ) => match checked {
                Ok(signed) => Insertion::Parse { signed, info, skipped },
                Err(fault) => Insertion::Done(Err(InsertionError::Fault(fault))),
            },
            (Insertion::Parse { signed: _, info: _, skipped }, Found::Log(parsed)) =>
                match parsed {
                Ok(log) => if skipped.len() == 0 {
                    Insertion::Insert { log, behavior: InsertionBehavior::SkipDuplicate }
                } else {
                    Insertion::Filter { log, skipped }
                },
                Err(fault) => Insertion::Done(Err(InsertionError::Fault(fault))),
            },
            (Insertion::Filter { log: _, skipped: _ }, Found::Filtered(log)) => Insertion::Insert {
                log,
                behavior: InsertionBehavior::SkipDuplicate,
            },
            (Insertion::Insert { log: _, behavior: _ }, Found::Inserted(inserted)) =>
                match inserted {
                Ok(_) => Insertion::Done(Ok(())),
                Err(fault) => Insertion::Done(Err(InsertionError::Fault(fault))),
            },
            _ => vstd::pervasive::unreached(),
        }
    }
}

} // verus!
