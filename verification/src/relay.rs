//! What the decisions on received reports come to in a given world.

use crate::digest;
use crate::insertion;
use crate::insertion::{Found, InsertionBehavior, InsertionErrorView, InsertionView};
use crate::path;
use crate::reporting;
use crate::reporting::{
    DeliveryView, Event, OutputError, ReceptionView, Relay, ReportingConfigView,
    ReportingOutputSelect, RunInfoView,
};
use vstd::multiset::*;
use vstd::prelude::*;

verus! {

/// All that the relay can find outside.
#[verifier::reject_recursive_types(R)]
pub struct RelayWorld<R: Relay> {
    /// The run that a file is about.
    pub run_of: spec_fn(Seq<u8>) -> Option<RunInfoView<R>>,
    pub is_subnode: spec_fn(Seq<char>) -> bool,
    pub read: spec_fn(Seq<u8>) -> Result<R::Data, R::Fault>,
    pub certificates: spec_fn(Seq<char>) -> Option<R::Certificates>,
    pub check: spec_fn(R::Data, R::Certificates) -> Result<R::Signed, R::Fault>,
    pub parse: spec_fn(RunInfoView<R>, R::Signed) -> Result<R::Log, R::Fault>,
    pub without: spec_fn(R::Log, Seq<Seq<char>>) -> R::Log,
    pub insert: spec_fn(R::Log, InsertionBehavior) -> Result<(), R::Fault>,
    /// Whether a failed insertion is worth another try.
    pub class_of: spec_fn(InsertionErrorView<R>) -> OutputError,
    pub send: spec_fn(Seq<u8>) -> Result<(), OutputError>,
    /// Whether a file can be put with those that failed.
    pub can_move: spec_fn(Seq<u8>) -> bool,
}

/// The report that is inserted, or why there is none: the file is read, its signature checked with
/// the certificates of the node, what is signed parsed as the report of the run, and the events
/// that are to be skipped left out.
pub open spec fn checked_log<R: Relay>(
    world: RelayWorld<R>,
    file: Seq<u8>,
    info: RunInfoView<R>,
    skipped: Seq<Seq<char>>,
) -> Result<R::Log, InsertionErrorView<R>> {
    match (world.read)(file) {
        Err(fault) => Err(InsertionErrorView::Fault(fault)),
        Ok(data) => match (world.certificates)(info.node_id) {
            None => Err(InsertionErrorView::MissingCertificateForNode(info.node_id)),
            Some(certificates) => match (world.check)(data, certificates) {
                Err(fault) => Err(InsertionErrorView::Fault(fault)),
                Ok(signed) => match (world.parse)(info, signed) {
                    Err(fault) => Err(InsertionErrorView::Fault(fault)),
                    Ok(log) => Ok(
                        if skipped.len() == 0 {
                            log
                        } else {
                            (world.without)(log, skipped)
                        },
                    ),
                },
            },
        },
    }
}

/// What the insertion of a report comes to.
pub open spec fn inserted<R: Relay>(
    world: RelayWorld<R>,
    file: Seq<u8>,
    info: RunInfoView<R>,
    skipped: Seq<Seq<char>>,
) -> Result<(), InsertionErrorView<R>> {
    match checked_log(world, file, info, skipped) {
        Err(error) => Err(error),
        Ok(log) => match (world.insert)(log, InsertionBehavior::SkipDuplicate) {
            Ok(_) => Ok(()),
            Err(fault) => Err(InsertionErrorView::Fault(fault)),
        },
    }
}

/// What the world has for an insertion.
pub open spec fn found_for<R: Relay>(
    world: RelayWorld<R>,
    insertion: InsertionView<R>,
) -> Found<R> {
    match insertion {
        InsertionView::Read { file, .. } => Found::Data((world.read)(file)),
        InsertionView::FindCertificates { info, .. } => Found::Certificates(
            (world.certificates)(info.node_id),
        ),
        InsertionView::CheckSignature { data, certificates, .. } => Found::Signed(
            (world.check)(data, certificates),
        ),
        InsertionView::Parse { signed, info, .. } => Found::Log((world.parse)(info, signed)),
        InsertionView::Filter { log, skipped } => Found::Filtered((world.without)(log, skipped)),
        InsertionView::Insert { log, behavior } => Found::Inserted((world.insert)(log, behavior)),
        InsertionView::Done(_) => Found::Certificates(None),
    }
}

/// How many steps there can be, at most, before the end.
pub open spec fn steps_left<R: Relay>(insertion: InsertionView<R>) -> nat {
    match insertion {
        InsertionView::Read { .. } => 6,
        InsertionView::FindCertificates { .. } => 5,
        InsertionView::CheckSignature { .. } => 4,
        InsertionView::Parse { .. } => 3,
        InsertionView::Filter { .. } => 2,
        InsertionView::Insert { .. } => 1,
        InsertionView::Done(_) => 0,
    }
}

/// All that an insertion waits for brings it closer to its end, whatever it is.
pub proof fn law_insertion_ends<R: Relay>(insertion: InsertionView<R>, found: Found<R>)
    requires
        insertion::awaits(insertion, found),
    ensures
        steps_left(insertion::next_insertion(insertion, found)) < steps_left(insertion),
{
}

/// Where an insertion ends in a world.
pub open spec fn run<R: Relay>(
    world: RelayWorld<R>,
    insertion: InsertionView<R>,
) -> InsertionView<R>
    decreases steps_left(insertion),
{
    let found = found_for(world, insertion);
    if insertion::awaits(insertion, found) {
        proof {
            law_insertion_ends(insertion, found);
        }
        run(world, insertion::next_insertion(insertion, found))
    } else {
        insertion
    }
}

/// In every world an insertion ends, and comes to what `inserted` says: in particular nothing is
/// inserted but a report that was signed with a certificate of its node.
pub proof fn law_insertion_outcome<R: Relay>(
    world: RelayWorld<R>,
    file: Seq<u8>,
    info: RunInfoView<R>,
    skipped: Seq<Seq<char>>,
)
    ensures
        run(world, InsertionView::Read { file, info, skipped }) == InsertionView::Done(
            inserted(world, file, info, skipped),
        ),
        inserted(world, file, info, skipped) is Ok ==> exists|data: R::Data,
            certificates: R::Certificates| #[trigger]
            (world.check)(data, certificates) is Ok && (world.read)(file) == Ok::<
                R::Data,
                R::Fault,
            >(data) && (world.certificates)(info.node_id) == Some(certificates),
{
    reveal_with_fuel(run, 7);
    if inserted(world, file, info, skipped) is Ok {
        let data = (world.read)(file)->Ok_0;
        let certificates = (world.certificates)(info.node_id)->0;
        assert((world.check)(data, certificates) is Ok);
    }
}

/// What the relay does to the outside because of a received file.
pub enum Effect {
    /// The event is counted.
    Count(Event),
    /// The file is put with those that failed, and the event counted.
    Fail { file: Seq<u8>, directory: Seq<u8>, event: Event },
    /// The file is removed, and the event counted.
    Succeed { file: Seq<u8>, event: Event },
}

/// What a delivery does, in this order: a file that failed is first put with those that failed.
pub open spec fn delivery_effects<R: Relay>(
    world: RelayWorld<R>,
    delivery: DeliveryView,
) -> Seq<Effect> {
    match delivery {
        DeliveryView::Succeed { file, event } => seq![Effect::Succeed { file, event }],
        DeliveryView::Fail { file, directory, event, .. } => seq![
            Effect::Fail { file, directory, event },
        ] + match reporting::after_failure(delivery, (world.can_move)(file)) {
            DeliveryView::Succeed { file, event } => seq![Effect::Succeed { file, event }],
            _ => seq![],
        },
        DeliveryView::Abandoned => seq![],
    }
}

/// What giving out a report comes to.
pub open spec fn given_out<R: Relay>(
    world: RelayWorld<R>,
    config: ReportingConfigView<R>,
    file: Seq<u8>,
    info: RunInfoView<R>,
) -> Result<(), OutputError> {
    if config.output is Database {
        match inserted(world, file, info, config.skip_event_types) {
            Ok(_) => Ok(()),
            Err(error) => Err((world.class_of)(error)),
        }
    } else {
        (world.send)(file)
    }
}

/// The event that counts a report that was given out.
pub open spec fn success_event(output: ReportingOutputSelect) -> Event {
    if output is Database {
        Event::ReportInserted
    } else {
        Event::ReportSent
    }
}

/// What a reception does from a stage on. Counting and delivering are tasks of their own, so
/// nothing is said of their order.
pub open spec fn effects_from<R: Relay>(
    world: RelayWorld<R>,
    config: ReportingConfigView<R>,
    reception: ReceptionView<R>,
) -> Multiset<Effect>
    decreases
            (if reception is Identify {
                2int
            } else if reception is CheckNode {
                1
            } else {
                0
            }),
{
    match reception {
        ReceptionView::Skipped => Multiset::empty(),
        ReceptionView::Identify { file, event, .. } => Multiset::singleton(
            Effect::Count(event),
        ).add(
            effects_from(
                world,
                config,
                reporting::after_identification(file, (world.run_of)(file)),
            ),
        ),
        ReceptionView::CheckNode { file, info } => effects_from(
            world,
            config,
            reporting::after_check(file, info, (world.is_subnode)(info.node_id), config),
        ),
        ReceptionView::Refuse { file, directory, event } => Multiset::singleton(
            Effect::Fail { file, directory, event },
        ),
        ReceptionView::Database { file, info } => delivery_effects(
            world,
            reporting::after_output(
                file,
                config.directory,
                given_out(world, config, file, info),
                Event::ReportInserted,
            ),
        ).to_multiset(),
        ReceptionView::Upstream { file } => delivery_effects(
            world,
            reporting::after_output(
                file,
                config.directory,
                (world.send)(file),
                Event::ReportSent,
            ),
        ).to_multiset(),
        ReceptionView::Stopped => Multiset::empty(),
    }
}

/// What the relay does because of a received file.
pub open spec fn effects<R: Relay>(
    world: RelayWorld<R>,
    config: ReportingConfigView<R>,
    file: Seq<u8>,
) -> Multiset<Effect> {
    effects_from(world, config, reporting::received::<R>(file))
}

/// A file that is no report has no effect.
pub proof fn law_other_files_skipped<R: Relay>(
    world: RelayWorld<R>,
    config: ReportingConfigView<R>,
    file: Seq<u8>,
)
    requires
        !reporting::is_report(file),
    ensures
        effects(world, config, file) == Multiset::<Effect>::empty(),
{
}

/// What the delivery of a report does once it was given out, or could not be: if it was, the file
/// is removed and counted as given out; if it may be another time, the file is left alone; and if
/// it never will be, the file is put with those that failed and counted as refused, and then, if
/// it could be put there, treated as one that was given out.
pub proof fn law_delivery_effects<R: Relay>(
    world: RelayWorld<R>,
    file: Seq<u8>,
    directory: Seq<u8>,
    given: Result<(), OutputError>,
    event: Event,
)
    ensures
        ({
            let refused = Effect::Fail { file, directory, event: Event::ReportRefused };
            let succeeded = Effect::Succeed { file, event };
            delivery_effects(world, reporting::after_output(file, directory, given, event))
                == match given {
                Ok(_) => seq![succeeded],
                Err(OutputError::Transient) => seq![],
                Err(OutputError::Permanent) => if (world.can_move)(file) {
                    seq![refused, succeeded]
                } else {
                    seq![refused]
                },
            }
        }),
{
    let refused = Effect::Fail { file, directory, event: Event::ReportRefused };
    let succeeded = Effect::Succeed { file, event };
    assert(seq![refused] + seq![succeeded] =~= seq![refused, succeeded]);
    assert(seq![refused] + Seq::<Effect>::empty() =~= seq![refused]);
}

/// What a report does: it is counted as received. If its run is not known that is all. If its
/// node is not one of this relay it is refused. Else it is given out, and delivered as
/// `law_delivery_effects` says. The order of these effects is open, but within a delivery.
pub proof fn law_report_effects<R: Relay>(
    world: RelayWorld<R>,
    config: ReportingConfigView<R>,
    file: Seq<u8>,
)
    requires
        reporting::is_report(file),
        (world.run_of)(file) matches Some(info) && (world.is_subnode)(info.node_id) ==> !(
        config.output is Disabled),
    ensures
        effects(world, config, file) == Multiset::singleton(
            Effect::Count(Event::ReportReceived),
        ).add(
            match (world.run_of)(file) {
                None => Multiset::empty(),
                Some(info) => if (world.is_subnode)(info.node_id) {
                    delivery_effects(
                        world,
                        reporting::after_output(
                            file,
                            config.directory,
                            given_out(world, config, file, info),
                            success_event(config.output),
                        ),
                    ).to_multiset()
                } else {
                    Multiset::singleton(
                        Effect::Fail {
                            file,
                            directory: config.directory,
                            event: Event::ReportRefused,
                        },
                    )
                },
            },
        ),
{
    reveal_with_fuel(effects_from, 3);
}

/// Whether no file is served after a file.
pub open spec fn stops_at<R: Relay>(world: RelayWorld<R>, file: Seq<u8>) -> bool {
    reporting::is_report(file) && (world.run_of)(file) is None
}

/// Whether the service ends before all files of a stream are served, or with the last of them.
pub open spec fn stops_in<R: Relay>(world: RelayWorld<R>, files: Seq<Seq<u8>>) -> bool {
    exists|i: int| 0 <= i < files.len() && stops_at(world, #[trigger] files[i])
}

/// What the relay does because of the files that it receives one after the other.
pub open spec fn served<R: Relay>(
    world: RelayWorld<R>,
    config: ReportingConfigView<R>,
    files: Seq<Seq<u8>>,
) -> Multiset<Effect>
    decreases files.len(),
{
    if files.len() == 0 {
        Multiset::empty()
    } else if stops_at(world, files[0]) {
        effects(world, config, files[0])
    } else {
        effects(world, config, files[0]).add(served(world, config, files.drop_first()))
    }
}

/// A file is the last one that is served exactly where its reception stops.
pub proof fn law_stops_where_stopped<R: Relay>(world: RelayWorld<R>, file: Seq<u8>)
    ensures
        stops_at(world, file) <==> (reporting::received::<R>(file) is Identify
            && reporting::after_identification::<R>(file, (world.run_of)(file)) is Stopped),
{
}

/// What comes after a report whose run is not known has no effect.
pub proof fn law_nothing_after_unknown_run<R: Relay>(
    world: RelayWorld<R>,
    config: ReportingConfigView<R>,
    files: Seq<Seq<u8>>,
    more: Seq<Seq<u8>>,
)
    requires
        files.len() > 0,
        stops_at(world, files.last()),
    ensures
        served(world, config, files + more) == served(world, config, files),
    decreases files.len(),
{
    assert((files + more)[0] == files[0]);
    if !stops_at(world, files[0]) {
        assert(files.drop_first().last() == files.last());
        assert((files + more).drop_first() =~= files.drop_first() + more);
        law_nothing_after_unknown_run(world, config, files.drop_first(), more);
    }
}

/// Files that are no reports can be left out of a stream: neither its effects nor whether it ends
/// the service change.
pub proof fn law_reports_alone_matter<R: Relay>(
    world: RelayWorld<R>,
    config: ReportingConfigView<R>,
    files: Seq<Seq<u8>>,
)
    ensures
        ({
            let reports = files.filter(|file: Seq<u8>| reporting::is_report(file));
            &&& served(world, config, reports) == served(world, config, files)
            &&& stops_in(world, reports) == stops_in(world, files)
        }),
    decreases files.len(),
{
    let is_report = |file: Seq<u8>| reporting::is_report(file);
    let reports = files.filter(is_report);
    if files.len() == 0 {
        reveal(Seq::filter);
        assert(reports =~= files);
    } else {
        let first = files[0];
        let rest = files.drop_first();
        let kept = rest.filter(is_report);
        law_reports_alone_matter(world, config, rest);
        assert(files =~= seq![first] + rest);
        Seq::filter_distributes_over_add(seq![first], rest, is_report);
        assert(reports =~= seq![first].filter(is_report) + kept);
        reveal_with_fuel(Seq::filter, 2);
        assert(seq![first].drop_last() =~= Seq::<Seq<u8>>::empty());
        if reporting::is_report(first) {
            assert(seq![first].filter(is_report) =~= seq![first]);
            assert(reports =~= seq![first] + kept);
            assert(reports.drop_first() =~= kept);
        } else {
            assert(seq![first].filter(is_report) =~= Seq::<Seq<u8>>::empty());
            assert(reports =~= kept);
            law_other_files_skipped(world, config, first);
            assert(served(world, config, files) =~= served(world, config, rest));
        }
        lemma_stops_in_first(world, first, rest);
        lemma_stops_in_first(world, first, kept);
    }
}

/// A stream ends the service if its first file does, or the others do.
proof fn lemma_stops_in_first<R: Relay>(
    world: RelayWorld<R>,
    first: Seq<u8>,
    rest: Seq<Seq<u8>>,
)
    ensures
        stops_in(world, seq![first] + rest) == (stops_at(world, first) || stops_in(world, rest)),
{
    let files = seq![first] + rest;
    if stops_at(world, first) {
        assert(stops_at(world, files[0]));
    }
    if stops_in(world, rest) {
        let i = choose|i: int| 0 <= i < rest.len() && stops_at(world, #[trigger] rest[i]);
        assert(stops_at(world, files[i + 1]));
    }
    if stops_in(world, files) {
        let i = choose|i: int| 0 <= i < files.len() && stops_at(world, #[trigger] files[i]);
        if i > 0 {
            assert(stops_at(world, rest[i - 1]));
        }
    }
}

/// A report is queued under the same identifier whatever directory it is in.
pub proof fn law_queue_id_of_name(directory: Seq<u8>, other: Seq<u8>, file: Seq<u8>)
    requires
        path::file_name(file) is Some,
    ensures
        reporting::queue_id(path::join(directory, file)) == reporting::queue_id(
            path::join(other, file),
        ),
{
    path::law_join_file_name(directory, file);
    path::law_join_file_name(other, file);
}

/// Two reports are queued under one identifier exactly where the digests of their names agree.
pub proof fn law_queue_id_of_digest(file: Seq<u8>, other: Seq<u8>)
    requires
        path::file_name(file) is Some,
        path::file_name(other) is Some,
    ensures
        reporting::queue_id(file) == reporting::queue_id(other) <==> digest::md5_digest(
            path::file_name(file)->0,
        ) == digest::md5_digest(path::file_name(other)->0),
{
    if reporting::queue_id(file) == reporting::queue_id(other) {
        digest::law_upper_hex_injective(
            digest::md5_digest(path::file_name(file)->0),
            digest::md5_digest(path::file_name(other)->0),
        );
    }
}

} // verus!
