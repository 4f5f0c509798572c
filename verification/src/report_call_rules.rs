//! What callers of the relay's functions can rely on, told of the values that go in and come out.

use crate::digest;
use crate::insertion;
use crate::insertion::{Found, Insertion, InsertionBehavior, InsertionError};
use crate::path;
use crate::path::FilePath;
use crate::report_rules;
use crate::reporting;
use crate::reporting::{
    Delivery, Event, Job, OutputError, Reception, Relay, ReportingConfig, ReportingOutputSelect,
    RunInfo,
};
use vstd::prelude::*;
use vstd::utf8::*;

verus! {

/// What is known of a run stands for all that it holds, and so does what is to be skipped.
pub proof fn law_report_values<R: Relay>(info: RunInfo<R>, config: ReportingConfig<R>, i: int)
    requires
        0 <= i < config.skip_event_types@.len(),
    ensures
        info@.node_id == info.node_id@,
        info@.run == info.run,
        config@.skip_event_types.len() == config.skip_event_types@.len(),
        config@.skip_event_types[i] == config.skip_event_types@[i]@,
{
}

/// Whatever the output is, two directories are cleaned up, files are served, and the directory
/// `incoming` is watched, each as configured.
pub proof fn law_start<R: Relay>(config: &ReportingConfig<R>, jobs: Vec<Job<R>>)
    requires
        call_ensures(reporting::start::<R>, (config,), jobs),
    ensures
        ({
            let incoming = path::join(config.directory.bytes@, encode_utf8("incoming"@));
            let failed = path::join(config.directory.bytes@, encode_utf8("failed"@));
            &&& jobs@.len() == 4
            &&& jobs@[0] matches Job::CleanUp(path, cleanup) && path.bytes@ == incoming && cleanup
                == config.cleanup
            &&& jobs@[1] matches Job::CleanUp(path, cleanup) && path.bytes@ == failed && cleanup
                == config.cleanup
            &&& jobs@[2] is Serve
            &&& jobs@[3] matches Job::Watch(path, catchup) && path.bytes@ == incoming && catchup
                == config.catchup
        }),
{
    let views = jobs@.map_values(|job: Job<R>| job@);
    assert(views.len() == jobs@.len());
    assert(views[0] == jobs@[0]@ && views[1] == jobs@[1]@);
    assert(views[2] == jobs@[2]@ && views[3] == jobs@[3]@);
}

/// A file is a report exactly where its extension is `gz`, `zip` or `log`; only then it is served,
/// and it is queued under the digest of its name.
pub proof fn law_serve<R: Relay>(file: FilePath, known: bool, reception: Reception<R>)
    requires
        call_ensures(reporting::has_report_extension, (&file,), known),
        call_ensures(reporting::serve::<R>, (file,), reception),
    ensures
        known <==> path::extension(file.bytes@) == Some(encode_utf8("gz"@)) || path::extension(
            file.bytes@,
        ) == Some(encode_utf8("zip"@)) || path::extension(file.bytes@) == Some(
            encode_utf8("log"@),
        ),
        !known ==> reception is Skipped,
        known ==> {
            &&& reception is Identify
            &&& reception->Identify_file.bytes@ == file.bytes@
            &&& reception->Identify_event is ReportReceived
            &&& path::file_name(file.bytes@) matches Some(name) ==> reception->queue_id@
                == digest::upper_hex(digest::md5_digest(name))
        },
{
}

/// The two digits of each byte are in order, and are those that its halves stand for; an identifier
/// is made of the digits of a digest.
pub proof fn law_identifier(bytes: &[u8], i: int, digits: String, id: String)
    requires
        call_ensures(digest::to_upper_hex, (bytes,), digits),
        call_ensures(digest::identifier, (bytes,), id),
        0 <= i < bytes@.len(),
    ensures
        digits@.len() == 2 * bytes@.len(),
        digits@[2 * i] == "0123456789ABCDEF"@[bytes@[i] as int / 16],
        digits@[2 * i + 1] == "0123456789ABCDEF"@[bytes@[i] as int % 16],
        id@ == digest::upper_hex(digest::md5_digest(bytes@)),
        id@.len() == 32,
{
    report_rules::law_upper_hex(bytes@, i);
}

/// A file whose run is known is held against its node; one whose run is not ends the service.
pub proof fn law_identified_call<R: Relay>(
    file: FilePath,
    queue_id: String,
    event: Event,
    info: Option<RunInfo<R>>,
    reception: Reception<R>,
)
    requires
        call_ensures(
            Reception::<R>::identified,
            (Reception::Identify { file, queue_id, event }, info),
            reception,
        ),
    ensures
        match info {
            Some(known) => reception matches Reception::CheckNode { file: kept, info: found } && {
                &&& kept.bytes@ == file.bytes@
                &&& found.node_id@ == known.node_id@
                &&& found.run == known.run
            },
            None => reception is Stopped,
        },
{
}

/// A report of a node that is not served is refused, whatever the output is; one of a node that is
/// served goes to the output.
pub proof fn law_checked_call<R: Relay>(
    file: FilePath,
    info: RunInfo<R>,
    is_subnode: bool,
    config: &ReportingConfig<R>,
    reception: Reception<R>,
)
    requires
        call_ensures(
            Reception::<R>::checked,
            (Reception::CheckNode { file, info }, is_subnode, config),
            reception,
        ),
        is_subnode ==> !(config.output is Disabled),
    ensures
        match (is_subnode, config.output) {
            (false, _) => reception matches Reception::Refuse { file: refused, directory, event }
                && {
                &&& refused.bytes@ == file.bytes@
                &&& directory.bytes@ == config.directory.bytes@
                &&& event is ReportRefused
            },
            (true, ReportingOutputSelect::Database) => reception matches Reception::Database {
                file: kept,
                info: known,
            } && {
                &&& kept.bytes@ == file.bytes@
                &&& known.node_id@ == info.node_id@
                &&& known.run == info.run
            },
            (true, _) => reception matches Reception::Upstream { file: kept } && kept.bytes@
                == file.bytes@,
        },
{
}

/// What was inserted is counted as inserted and what was sent as sent. What cannot be given out is
/// put with the files that failed, below the directory that is configured, and counted as refused;
/// what may be given out later is left alone.
pub proof fn law_output_calls<R: Relay>(
    file: FilePath,
    config: &ReportingConfig<R>,
    given: Result<(), OutputError>,
    inserted: Delivery,
    sent: Delivery,
)
    requires
        call_ensures(reporting::output_report_database::<R>, (file, config, given), inserted),
        call_ensures(reporting::output_report_upstream::<R>, (file, config, given), sent),
    ensures
        match given {
            Ok(_) => {
                &&& inserted matches Delivery::Succeed { file: done, event } && done.bytes@
                    == file.bytes@ && event is ReportInserted
                &&& sent matches Delivery::Succeed { file: done, event } && done.bytes@
                    == file.bytes@ && event is ReportSent
            },
            Err(OutputError::Permanent) => {
                &&& inserted matches Delivery::Fail { file: kept, directory, event, then_event }
                    && {
                    &&& kept.bytes@ == file.bytes@
                    &&& directory.bytes@ == config.directory.bytes@
                    &&& event is ReportRefused
                    &&& then_event is ReportInserted
                }
                &&& sent matches Delivery::Fail { file: kept, directory, event, then_event } && {
                    &&& kept.bytes@ == file.bytes@
                    &&& directory.bytes@ == config.directory.bytes@
                    &&& event is ReportRefused
                    &&& then_event is ReportSent
                }
            },
            Err(OutputError::Transient) => inserted is Abandoned && sent is Abandoned,
        },
{
}

/// A file that could be put with those that failed is then treated as one that was given out, and
/// one that could not is left alone.
pub proof fn law_failed_call(
    file: FilePath,
    directory: FilePath,
    event: Event,
    then_event: Event,
    moved: bool,
    delivery: Delivery,
)
    requires
        call_ensures(
            Delivery::failed,
            (Delivery::Fail { file, directory, event, then_event }, moved),
            delivery,
        ),
    ensures
        moved ==> (delivery matches Delivery::Succeed { file: done, event: counted } && done.bytes@
            == file.bytes@ && counted == then_event),
        !moved ==> delivery is Abandoned,
{
}

/// The insertion of a report starts with its file, its run and all the types that are to be
/// skipped.
pub proof fn law_insertion_start<R: Relay>(
    file: FilePath,
    info: RunInfo<R>,
    config: &ReportingConfig<R>,
    insertion: Insertion<R>,
    i: int,
)
    requires
        call_ensures(
            insertion::output_report_database_inner::<R>,
            (file, info, config),
            insertion,
        ),
    ensures
        insertion matches Insertion::Read { file: read, info: known, skipped } && {
            &&& read.bytes@ == file.bytes@
            &&& known.node_id@ == info.node_id@ && known.run == info.run
            &&& skipped@.len() == config.skip_event_types@.len()
            &&& 0 <= i < skipped@.len() ==> skipped@[i]@ == config.skip_event_types@[i]@
        },
{
    let skipped = insertion->Read_skipped;
    assert(skipped.deep_view() == config.skip_event_types.deep_view());
    assert(skipped.deep_view().len() == skipped@.len());
    if 0 <= i < skipped@.len() {
        assert(skipped.deep_view()[i] == skipped@[i]@);
        assert(config.skip_event_types.deep_view()[i] == config.skip_event_types@[i]@);
    }
}

/// Once a report was parsed it is inserted as it is exactly where no types of events are to be
/// skipped; else it goes on to be inserted without those types, however many they are.
pub proof fn law_parsed_call<R: Relay>(
    signed: R::Signed,
    info: RunInfo<R>,
    skipped: Vec<String>,
    parsed: Result<R::Log, R::Fault>,
    insertion: Insertion<R>,
    i: int,
)
    requires
        call_ensures(
            Insertion::<R>::resume,
            (Insertion::Parse { signed, info, skipped }, Found::Log(parsed)),
            insertion,
        ),
    ensures
        match parsed {
            Ok(log) => if skipped@.len() == 0 {
                insertion == (Insertion::<R>::Insert {
                    log,
                    behavior: InsertionBehavior::SkipDuplicate,
                })
            } else {
                insertion matches Insertion::Filter { log: whole, skipped: types } && {
                    &&& whole == log
                    &&& types@.len() == skipped@.len()
                    &&& 0 <= i < skipped@.len() ==> types@[i]@ == skipped@[i]@
                }
            },
            Err(fault) => insertion matches Insertion::Done(Err(InsertionError::Fault(found)))
                && found == fault,
        },
{
    assert(skipped.deep_view().len() == skipped@.len());
    if insertion is Filter {
        let types = insertion->Filter_skipped;
        assert(types.deep_view().len() == types@.len());
        if 0 <= i < skipped@.len() {
            assert(types.deep_view()[i] == types@[i]@);
            assert(skipped.deep_view()[i] == skipped@[i]@);
        }
    }
}

/// What was read is checked against the certificates of the node of its run, and nothing goes on
/// without them.
pub proof fn law_certificates_call<R: Relay>(
    data: R::Data,
    info: RunInfo<R>,
    skipped: Vec<String>,
    known: Option<R::Certificates>,
    insertion: Insertion<R>,
)
    requires
        call_ensures(
            Insertion::<R>::resume,
            (Insertion::FindCertificates { data, info, skipped }, Found::Certificates(known)),
            insertion,
        ),
    ensures
        match known {
            Some(certificates) => insertion matches Insertion::CheckSignature {
                data: checked,
                certificates: used,
                info: kept,
                skipped: types,
            } && {
                &&& checked == data && used == certificates
                &&& kept.node_id@ == info.node_id@ && kept.run == info.run
                &&& types.deep_view() == skipped.deep_view()
            },
            None => insertion matches Insertion::Done(
                Err(InsertionError::MissingCertificateForNode(node_id)),
            ) && node_id@ == info.node_id@,
        },
{
}

/// What is inserted is what the filter left, duplicates are skipped, and the end of an insertion is
/// what the database said.
pub proof fn law_inserted_call<R: Relay>(
    log: R::Log,
    kept: R::Log,
    skipped: Vec<String>,
    behavior: InsertionBehavior,
    inserted: Result<(), R::Fault>,
    filtered: Insertion<R>,
    end: Insertion<R>,
)
    requires
        call_ensures(
            Insertion::<R>::resume,
            (Insertion::Filter { log, skipped }, Found::Filtered(kept)),
            filtered,
        ),
        call_ensures(
            Insertion::<R>::resume,
            (Insertion::Insert { log, behavior }, Found::Inserted(inserted)),
            end,
        ),
    ensures
        filtered == (Insertion::<R>::Insert {
            log: kept,
            behavior: InsertionBehavior::SkipDuplicate,
        }),
        match inserted {
            Ok(_) => end matches Insertion::Done(Ok(_)),
            Err(fault) => end matches Insertion::Done(Err(InsertionError::Fault(found))) && found
                == fault,
        },
{
}

/// What goes wrong while a file is read, or its signature checked, ends an insertion; else what was
/// read, and then what was signed, goes on with the run and the types to skip as they were.
pub proof fn law_read_call<R: Relay>(
    file: FilePath,
    data: R::Data,
    certificates: R::Certificates,
    info: RunInfo<R>,
    skipped: Vec<String>,
    read: Result<R::Data, R::Fault>,
    checked: Result<R::Signed, R::Fault>,
    after_read: Insertion<R>,
    after_check: Insertion<R>,
)
    requires
        call_ensures(
            Insertion::<R>::resume,
            (Insertion::Read { file, info, skipped }, Found::Data(read)),
            after_read,
        ),
        call_ensures(
            Insertion::<R>::resume,
            (
                Insertion::CheckSignature { data, certificates, info, skipped },
                Found::Signed(checked),
            ),
            after_check,
        ),
    ensures
        match read {
            Ok(found) => after_read matches Insertion::FindCertificates {
                data: known,
                info: kept,
                skipped: types,
            } && {
                &&& known == found
                &&& kept.node_id@ == info.node_id@ && kept.run == info.run
                &&& types.deep_view() == skipped.deep_view()
            },
            Err(fault) => after_read matches Insertion::Done(Err(InsertionError::Fault(found)))
                && found == fault,
        },
        match checked {
            Ok(found) => after_check matches Insertion::Parse {
                signed,
                info: kept,
                skipped: types,
            } && {
                &&& signed == found
                &&& kept.node_id@ == info.node_id@ && kept.run == info.run
                &&& types.deep_view() == skipped.deep_view()
            },
            Err(fault) => after_check matches Insertion::Done(Err(InsertionError::Fault(found)))
                && found == fault,
        },
{
}

} // verus!
