//! The rules of the relay, each told by what its configuration and the outside make of a received
//! file.

use crate::digest;
use crate::insertion;
use crate::insertion::{Found, InsertionBehavior, InsertionErrorView, InsertionView};
use crate::path;
use crate::relay;
use crate::relay::{Effect, RelayWorld};
use crate::reporting;
use crate::reporting::{
    DeliveryView, Event, JobView, OutputError, ReceptionView, Relay, ReportingConfigView,
    ReportingOutputSelect, RunInfoView,
};
use vstd::multiset::*;
use vstd::prelude::*;
use vstd::utf8::*;

verus! {

/// Wherever reports go, and whatever is left out of them, the same jobs are started: one that
/// serves, one that watches the directory `incoming` and catches up there as configured, and two
/// that clean up that directory and `failed` as configured.
pub proof fn law_jobs<R: Relay>(
    config: ReportingConfigView<R>,
    output: ReportingOutputSelect,
    skip_event_types: Seq<Seq<char>>,
)
    ensures
        reporting::jobs(config) == reporting::jobs(
            ReportingConfigView { output, skip_event_types, ..config },
        ),
        reporting::jobs(config).to_multiset() == Multiset::<JobView<R>>::empty().insert(
            JobView::Serve,
        ).insert(
            JobView::Watch(
                path::join(config.directory, encode_utf8("incoming"@)),
                config.catchup,
            ),
        ).insert(
            JobView::CleanUp(
                path::join(config.directory, encode_utf8("incoming"@)),
                config.cleanup,
            ),
        ).insert(
            JobView::CleanUp(path::join(config.directory, encode_utf8("failed"@)), config.cleanup),
        ),
{
    broadcast use vstd::seq_lib::group_to_multiset_ensures;

    let incoming = path::join(config.directory, encode_utf8("incoming"@));
    let failed = path::join(config.directory, encode_utf8("failed"@));
    let jobs = Seq::<JobView<R>>::empty().push(JobView::CleanUp(incoming, config.cleanup)).push(
        JobView::CleanUp(failed, config.cleanup),
    ).push(JobView::Serve).push(JobView::Watch(incoming, config.catchup));
    assert(reporting::jobs(config) =~= jobs);
    assert(Seq::<JobView<R>>::empty().to_multiset() =~= Multiset::<JobView<R>>::empty());
    assert(jobs.to_multiset() =~= Multiset::<JobView<R>>::empty().insert(JobView::Serve).insert(
        JobView::Watch(incoming, config.catchup),
    ).insert(JobView::CleanUp(incoming, config.cleanup)).insert(
        JobView::CleanUp(failed, config.cleanup),
    ));
}

/// The jobs are started in this order: both directories are cleaned up from the start, and files
/// are served before any is watched for.
pub proof fn law_jobs_order<R: Relay>(config: ReportingConfigView<R>)
    ensures
        ({
            let jobs = reporting::jobs(config);
            &&& jobs.len() == 4
            &&& jobs[0] is CleanUp && jobs[1] is CleanUp && jobs[2] is Serve && jobs[3] is Watch
            &&& jobs[0]->CleanUp_0 == jobs[3]->Watch_0
            &&& jobs[1]->CleanUp_0 == path::join(config.directory, encode_utf8("failed"@))
        }),
{
}

/// A file with the extension `gz`, `zip` or `log` is received: it is counted and queued under the
/// digest of its name. All other files are skipped.
pub proof fn law_received<R: Relay>(file: Seq<u8>, name: Seq<u8>)
    requires
        path::file_name(file) == Some(name) || (path::file_name(file) is None && name == file),
    ensures
        ({
            let extension = path::extension(file);
            let named = extension == Some(encode_utf8("gz"@)) || extension == Some(
                encode_utf8("zip"@),
            ) || extension == Some(encode_utf8("log"@));
            &&& named ==> reporting::received::<R>(file) == (ReceptionView::<R>::Identify {
                file,
                queue_id: digest::upper_hex(digest::md5_digest(name)),
                event: Event::ReportReceived,
            })
            &&& !named ==> reporting::received::<R>(file) == ReceptionView::<R>::Skipped
            &&& reporting::is_report(file) <==> named
        }),
{
}

/// Every file whose name is some text, a dot and `gz`, `zip` or `log` is received, in whatever
/// directory it is: dots before that one do not count. Where nothing stands before that dot, the
/// file is skipped.
pub proof fn law_received_names<R: Relay>(directory: Seq<u8>, stem: Seq<u8>, last: Seq<u8>)
    requires
        directory.len() == 0 || directory.last() == 47,
        !stem.contains(47),
        last == encode_utf8("gz"@) || last == encode_utf8("zip"@) || last == encode_utf8("log"@),
    ensures
        ({
            let file = directory + (stem.push(46) + last);
            if stem.len() > 0 {
                reporting::received::<R>(file) == (ReceptionView::<R>::Identify {
                    file,
                    queue_id: digest::upper_hex(digest::md5_digest(stem.push(46) + last)),
                    event: Event::ReportReceived,
                })
            } else {
                reporting::received::<R>(file) == ReceptionView::<R>::Skipped
            }
        }),
{
    lemma_extension_bytes();
    let name = stem.push(46) + last;
    assert(name.last() == last.last());
    assert(!name.contains(47)) by {
        assert forall|i: int| 0 <= i < name.len() implies name[i] != 47 by {
            if i < stem.len() {
                assert(stem[i] == name[i]);
            } else if i > stem.len() {
                assert(name[i] == last[i - stem.len() - 1]);
            }
        }
    }
    path::law_file_name(directory, name);
    path::law_extension(directory + name, stem, last);
    assert(stem.len() == 0 ==> name =~= seq![46u8] + last);
}

/// The bytes of the extensions of reports.
proof fn lemma_extension_bytes()
    ensures
        encode_utf8("gz"@) == seq![103u8, 122u8],
        encode_utf8("zip"@) == seq![122u8, 105u8, 112u8],
        encode_utf8("log"@) == seq![108u8, 111u8, 103u8],
{
    reveal_strlit("gz");
    reveal_strlit("zip");
    reveal_strlit("log");
    is_ascii_chars_encode_utf8("gz"@);
    is_ascii_chars_encode_utf8("zip"@);
    is_ascii_chars_encode_utf8("log"@);
}

/// The two digits of each byte are in order, and are those that its halves stand for.
pub proof fn law_upper_hex(bytes: Seq<u8>, i: int)
    requires
        0 <= i < bytes.len(),
    ensures
        digest::upper_hex(bytes).len() == 2 * bytes.len(),
        digest::upper_hex(bytes)[2 * i] == "0123456789ABCDEF"@[bytes[i] as int / 16],
        digest::upper_hex(bytes)[2 * i + 1] == "0123456789ABCDEF"@[bytes[i] as int % 16],
{
    reveal_strlit("0123456789ABCDEF");
    assert((2 * i) / 2 == i && (2 * i) % 2 == 0 && (2 * i + 1) / 2 == i && (2 * i + 1) % 2 == 1);
    lemma_hex_digit(bytes[i] as int / 16);
    lemma_hex_digit(bytes[i] as int % 16);
}

/// The digit of a number is the one at its place among the digits.
proof fn lemma_hex_digit(n: int)
    requires
        0 <= n < 16,
    ensures
        digest::hex_digit(n) == "0123456789ABCDEF"@[n],
{
    reveal_strlit("0123456789ABCDEF");
    assert(digest::hex_digit(n) as int == if n < 10 { 48 + n } else { 55 + n });
}

/// Only the run of a file that was received is looked for; without one nothing more is served.
/// What is known of the run stays as it is.
pub proof fn law_identified<R: Relay>(file: Seq<u8>, info: RunInfoView<R>)
    ensures
        reporting::after_identification::<R>(file, None) == ReceptionView::<R>::Stopped,
        reporting::after_identification(file, Some(info)) == (ReceptionView::CheckNode {
            file,
            info,
        }),
{
}

/// A report of a node that is not served is refused wherever reports go; one of a node that is
/// served goes where the configuration says.
pub proof fn law_checked<R: Relay>(
    file: Seq<u8>,
    info: RunInfoView<R>,
    config: ReportingConfigView<R>,
)
    ensures
        reporting::after_check(file, info, false, config) == (ReceptionView::<R>::Refuse {
            file,
            directory: config.directory,
            event: Event::ReportRefused,
        }),
        config.output is Database ==> reporting::after_check(file, info, true, config) == (
        ReceptionView::Database { file, info }),
        config.output is Upstream ==> reporting::after_check(file, info, true, config) == (
        ReceptionView::<R>::Upstream { file }),
{
}

/// A report that was given out is removed and counted with the event of its output. One that may
/// be given out later is left alone. One that cannot be is put with those that failed; if that
/// works it is then removed and counted as if it was given out, else it is left alone.
pub proof fn law_delivered(file: Seq<u8>, directory: Seq<u8>, event: Event)
    ensures
        reporting::after_output(file, directory, Ok(()), event) == (DeliveryView::Succeed {
            file,
            event,
        }),
        reporting::after_output(file, directory, Err(OutputError::Transient), event)
            == DeliveryView::Abandoned,
        ({
            let failing = reporting::after_output(
                file,
                directory,
                Err(OutputError::Permanent),
                event,
            );
            &&& failing == (DeliveryView::Fail {
                file,
                directory,
                event: Event::ReportRefused,
                then_event: event,
            })
            &&& reporting::after_failure(failing, true) == reporting::after_output(
                file,
                directory,
                Ok(()),
                event,
            )
            &&& reporting::after_failure(failing, false) == DeliveryView::Abandoned
        }),
{
}

/// What is to be done for a report that is inserted depends on how far it has come: its file is
/// read, the certificates of its node are looked for, its signature is checked, it is parsed, and
/// it is inserted without the events that are to be skipped. What went wrong outside ends this at
/// once, and so does a node without certificates.
pub proof fn law_insertion_steps<R: Relay>(
    file: Seq<u8>,
    info: RunInfoView<R>,
    skipped: Seq<Seq<char>>,
    data: R::Data,
    certificates: R::Certificates,
    signed: R::Signed,
    log: R::Log,
    kept: R::Log,
    fault: R::Fault,
)
    ensures
        ({
            let reading = InsertionView::<R>::Read { file, info, skipped };
            let finding = InsertionView::<R>::FindCertificates { data, info, skipped };
            let checking = InsertionView::<R>::CheckSignature { data, certificates, info, skipped };
            let parsing = InsertionView::<R>::Parse { signed, info, skipped };
            let filtering = InsertionView::<R>::Filter { log, skipped };
            let inserting = InsertionView::<R>::Insert {
                log,
                behavior: InsertionBehavior::SkipDuplicate,
            };
            let failing = InsertionView::<R>::Done(Err(InsertionErrorView::Fault(fault)));
            &&& insertion::next_insertion(reading, Found::Data(Ok(data))) == finding
            &&& insertion::next_insertion(reading, Found::Data(Err(fault))) == failing
            &&& insertion::next_insertion(finding, Found::Certificates(Some(certificates)))
                == checking
            &&& insertion::next_insertion(finding, Found::Certificates(None))
                == InsertionView::<R>::Done(
                Err(InsertionErrorView::MissingCertificateForNode(info.node_id)),
            )
            &&& insertion::next_insertion(checking, Found::Signed(Ok(signed))) == parsing
            &&& insertion::next_insertion(checking, Found::Signed(Err(fault))) == failing
            &&& skipped.len() > 0 ==> insertion::next_insertion(parsing, Found::Log(Ok(log)))
                == filtering
            &&& skipped.len() == 0 ==> insertion::next_insertion(parsing, Found::Log(Ok(log)))
                == inserting
            &&& insertion::next_insertion(parsing, Found::Log(Err(fault))) == failing
            &&& insertion::next_insertion(filtering, Found::Filtered(kept)) == (
            InsertionView::<R>::Insert {
                log: kept,
                behavior: InsertionBehavior::SkipDuplicate,
            })
            &&& insertion::next_insertion(inserting, Found::Inserted(Ok(())))
                == InsertionView::<R>::Done(Ok(()))
            &&& insertion::next_insertion(inserting, Found::Inserted(Err(fault))) == failing
        }),
{
}

/// What reaches the database of a report that was signed by its node: the report as it was parsed
/// where no types of events are to be skipped, and the report without them wherever there are
/// some, however many. A report that is there already is skipped. That insertion decides.
pub proof fn law_log_inserted<R: Relay>(
    world: RelayWorld<R>,
    file: Seq<u8>,
    info: RunInfoView<R>,
    skipped: Seq<Seq<char>>,
    data: R::Data,
    certificates: R::Certificates,
    signed: R::Signed,
    log: R::Log,
)
    requires
        (world.read)(file) == Ok::<R::Data, R::Fault>(data),
        (world.certificates)(info.node_id) == Some(certificates),
        (world.check)(data, certificates) == Ok::<R::Signed, R::Fault>(signed),
        (world.parse)(info, signed) == Ok::<R::Log, R::Fault>(log),
    ensures
        ({
            let given = if skipped =~= Seq::<Seq<char>>::empty() {
                log
            } else {
                (world.without)(log, skipped)
            };
            relay::run(world, InsertionView::Read { file, info, skipped }) == InsertionView::<
                R,
            >::Done(
                match (world.insert)(given, InsertionBehavior::SkipDuplicate) {
                    Ok(_) => Ok(()),
                    Err(fault) => Err(InsertionErrorView::Fault(fault)),
                },
            )
        }),
{
    reveal_with_fuel(relay::run, 7);
    assert(skipped.len() == 0 <==> skipped =~= Seq::<Seq<char>>::empty());
}

/// Whether events are to be skipped has a say only through the report that is inserted: skipping
/// no types is inserting the report that was parsed, and skipping some is skipping none of the
/// report that is left.
pub proof fn law_skipping_is_filtering<R: Relay>(
    world: RelayWorld<R>,
    file: Seq<u8>,
    info: RunInfoView<R>,
    skipped: Seq<Seq<char>>,
)
    requires
        skipped.len() > 0,
    ensures
        ({
            let filtering = RelayWorld {
                parse: |run: RunInfoView<R>, signed: R::Signed|
                    match (world.parse)(run, signed) {
                        Ok(log) => Ok((world.without)(log, skipped)),
                        Err(fault) => Err(fault),
                    },
                ..world
            };
            relay::run(world, InsertionView::Read { file, info, skipped }) == relay::run(
                filtering,
                InsertionView::Read { file, info, skipped: Seq::empty() },
            )
        }),
{
    reveal_with_fuel(relay::run, 7);
}

/// What ends an insertion before the database is reached: the first that fails of reading the
/// file, finding certificates of the node, checking the signature and parsing the report.
pub proof fn law_log_not_inserted<R: Relay>(
    world: RelayWorld<R>,
    file: Seq<u8>,
    info: RunInfoView<R>,
    skipped: Seq<Seq<char>>,
    data: R::Data,
    certificates: R::Certificates,
    signed: R::Signed,
    fault: R::Fault,
)
    ensures
        ({
            let end = relay::run(world, InsertionView::Read { file, info, skipped });
            let failing = InsertionView::<R>::Done(Err(InsertionErrorView::Fault(fault)));
            &&& (world.read)(file) == Err::<R::Data, R::Fault>(fault) ==> end == failing
            &&& (world.read)(file) == Ok::<R::Data, R::Fault>(data) ==> {
                &&& (world.certificates)(info.node_id) is None ==> end == InsertionView::<R>::Done(
                    Err(InsertionErrorView::MissingCertificateForNode(info.node_id)),
                )
                &&& (world.certificates)(info.node_id) == Some(certificates) ==> {
                    &&& (world.check)(data, certificates) == Err::<R::Signed, R::Fault>(fault)
                        ==> end == failing
                    &&& (world.check)(data, certificates) == Ok::<R::Signed, R::Fault>(signed)
                        && (world.parse)(info, signed) == Err::<R::Log, R::Fault>(fault) ==> end
                        == failing
                }
            }
        }),
{
    reveal_with_fuel(relay::run, 7);
}

/// Some sequences of effects as multisets.
proof fn lemma_few_effects(first: Effect, second: Effect)
    ensures
        Seq::<Effect>::empty().to_multiset() == Multiset::<Effect>::empty(),
        seq![first].to_multiset() == Multiset::singleton(first),
        seq![second].to_multiset() == Multiset::singleton(second),
        seq![first, second].to_multiset() == Multiset::singleton(first).add(
            Multiset::singleton(second),
        ),
{
    broadcast use vstd::seq_lib::group_to_multiset_ensures;

    let none = Seq::<Effect>::empty();
    assert(none.to_multiset() =~= Multiset::<Effect>::empty());
    assert(seq![first] =~= none.push(first));
    assert(seq![second] =~= none.push(second));
    assert(seq![first, second] =~= none.push(first).push(second));
    assert(none.push(first).to_multiset() =~= Multiset::singleton(first));
    assert(none.push(second).to_multiset() =~= Multiset::singleton(second));
    assert(none.push(first).push(second).to_multiset() =~= Multiset::singleton(first).add(
        Multiset::singleton(second),
    ));
}

/// A file with an extension other than `gz`, `zip` and `log` has no effect. One with such an
/// extension is counted as received; nothing else is done if its run is not known, and if its node
/// is not served the file is put with those that failed and counted as refused.
pub proof fn law_effects_before_output<R: Relay>(
    world: RelayWorld<R>,
    config: ReportingConfigView<R>,
    file: Seq<u8>,
    info: RunInfoView<R>,
)
    ensures
        ({
            let extension = path::extension(file);
            let named = extension == Some(encode_utf8("gz"@)) || extension == Some(
                encode_utf8("zip"@),
            ) || extension == Some(encode_utf8("log"@));
            let effects = relay::effects(world, config, file);
            let counted = Multiset::singleton(Effect::Count(Event::ReportReceived));
            &&& !named ==> effects == Multiset::<Effect>::empty()
            &&& named && (world.run_of)(file) is None ==> effects == counted
            &&& named && (world.run_of)(file) == Some(info) && !(world.is_subnode)(info.node_id)
                ==> effects == counted.add(
                Multiset::singleton(
                    Effect::Fail {
                        file,
                        directory: config.directory,
                        event: Event::ReportRefused,
                    },
                ),
            )
        }),
{
    reveal_with_fuel(relay::effects_from, 3);
    let counted = Multiset::singleton(Effect::Count(Event::ReportReceived));
    assert(counted.add(Multiset::<Effect>::empty()) =~= counted);
}

/// What a report of a node that is served does where reports go upstream: if it was sent, the file
/// is removed and the report counted as sent; if it may be sent later the file is left alone; else
/// it is put with those that failed and counted as refused, and if it could be put there also
/// removed and counted as sent. Each is counted as received besides.
pub proof fn law_effects_upstream<R: Relay>(
    world: RelayWorld<R>,
    config: ReportingConfigView<R>,
    file: Seq<u8>,
    info: RunInfoView<R>,
)
    requires
        path::extension(file) == Some(encode_utf8("gz"@)) || path::extension(file) == Some(
            encode_utf8("zip"@),
        ) || path::extension(file) == Some(encode_utf8("log"@)),
        (world.run_of)(file) == Some(info),
        (world.is_subnode)(info.node_id),
        config.output is Upstream,
    ensures
        ({
            let counted = Multiset::singleton(Effect::Count(Event::ReportReceived));
            let refused = Multiset::singleton(
                Effect::Fail {
                    file,
                    directory: config.directory,
                    event: Event::ReportRefused,
                },
            );
            let succeeded = Multiset::singleton(
                Effect::Succeed { file, event: Event::ReportSent },
            );
            relay::effects(world, config, file) == match (world.send)(file) {
                Ok(_) => counted.add(succeeded),
                Err(OutputError::Transient) => counted,
                Err(OutputError::Permanent) => if (world.can_move)(file) {
                    counted.add(refused).add(succeeded)
                } else {
                    counted.add(refused)
                },
            }
        }),
{
    reveal_with_fuel(relay::effects_from, 3);
    lemma_few_effects(
        Effect::Fail { file, directory: config.directory, event: Event::ReportRefused },
        Effect::Succeed { file, event: Event::ReportSent },
    );
    relay::law_delivery_effects(
        world,
        file,
        config.directory,
        (world.send)(file),
        Event::ReportSent,
    );
    lemma_added_effects(config.directory, file, Event::ReportSent);
}

/// How the effects of a delivery add up with the count of the report.
proof fn lemma_added_effects(directory: Seq<u8>, file: Seq<u8>, event: Event)
    ensures
        ({
            let counted = Multiset::singleton(Effect::Count(Event::ReportReceived));
            let refused = Multiset::singleton(
                Effect::Fail { file, directory, event: Event::ReportRefused },
            );
            let succeeded = Multiset::singleton(Effect::Succeed { file, event });
            &&& counted.add(Multiset::<Effect>::empty()) == counted
            &&& counted.add(refused.add(succeeded)) == counted.add(refused).add(succeeded)
        }),
{
}

/// What a report of a node that is served does where reports go to the database: it is counted as
/// received and inserted. If that works the file is removed and the report counted as inserted;
/// what it means that it does not is up to the class of the error, as with reports that are sent.
pub proof fn law_effects_database<R: Relay>(
    world: RelayWorld<R>,
    config: ReportingConfigView<R>,
    file: Seq<u8>,
    info: RunInfoView<R>,
    error: InsertionErrorView<R>,
)
    requires
        path::extension(file) == Some(encode_utf8("gz"@)) || path::extension(file) == Some(
            encode_utf8("zip"@),
        ) || path::extension(file) == Some(encode_utf8("log"@)),
        (world.run_of)(file) == Some(info),
        (world.is_subnode)(info.node_id),
        config.output is Database,
    ensures
        ({
            let counted = Multiset::singleton(Effect::Count(Event::ReportReceived));
            let refused = Multiset::singleton(
                Effect::Fail {
                    file,
                    directory: config.directory,
                    event: Event::ReportRefused,
                },
            );
            let succeeded = Multiset::singleton(
                Effect::Succeed { file, event: Event::ReportInserted },
            );
            let skipped = config.skip_event_types;
            let end = relay::run(world, InsertionView::Read { file, info, skipped });
            let effects = relay::effects(world, config, file);
            &&& end == InsertionView::<R>::Done(Ok(())) ==> effects == counted.add(succeeded)
            &&& end == InsertionView::<R>::Done(Err(error)) ==> effects
                == match (world.class_of)(error) {
                OutputError::Transient => counted,
                OutputError::Permanent => if (world.can_move)(file) {
                    counted.add(refused).add(succeeded)
                } else {
                    counted.add(refused)
                },
            }
        }),
{
    relay::law_insertion_outcome(world, file, info, config.skip_event_types);
    let given = relay::given_out(world, config, file, info);
    let refused = Effect::Fail { file, directory: config.directory, event: Event::ReportRefused };
    let succeeded = Effect::Succeed { file, event: Event::ReportInserted };
    reveal_with_fuel(relay::effects_from, 3);
    lemma_few_effects(refused, succeeded);
    relay::law_delivery_effects(world, file, config.directory, given, Event::ReportInserted);
    lemma_added_effects(config.directory, file, Event::ReportInserted);
}

} // verus!
