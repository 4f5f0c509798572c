//! What the relay does with the reports that it receives.

use crate::digest;
use crate::digest::identifier;
use crate::path;
use crate::path::FilePath;
use crate::text::same_bytes;
use vstd::prelude::*;
use vstd::utf8::*;

verus! {

/// How many received files can wait to be served.
pub const CHANNEL_CAPACITY: usize = 1024;

/// What the relay counts.
#[derive(Clone, Copy, Debug, PartialEq, Eq, Structural)]
pub enum Event {
    ReportReceived,
    ReportRefused,
    ReportInserted,
    ReportSent,
}

/// Where reports go.
#[derive(Clone, Copy, Debug, PartialEq, Eq, Structural)]
pub enum ReportingOutputSelect {
    Database,
    Upstream,
    Disabled,
}

/// What the relay is made of beyond its decisions.
pub trait Relay {
    /// When old files are removed, and which.
    type Cleanup: Copy;

    /// How files that were missed are caught up with.
    type Catchup: Copy;

    /// What is known of a run besides its node.
    type Run;

    /// The content of a report file.
    type Data;

    /// The certificates of a node.
    type Certificates;

    /// The signed content of a report.
    type Signed;

    /// A report that was parsed.
    type Log;

    /// What can go wrong.
    type Fault;
}

/// How the relay is to treat reports.
pub struct ReportingConfig<R: Relay> {
    /// Where the files of reports are.
    pub directory: FilePath,
    pub cleanup: R::Cleanup,
    pub catchup: R::Catchup,
    pub output: ReportingOutputSelect,
    /// The types of events that are not inserted.
    pub skip_event_types: Vec<String>,
}

/// What a `ReportingConfig` holds.
pub struct ReportingConfigView<R: Relay> {
    pub directory: Seq<u8>,
    pub cleanup: R::Cleanup,
    pub catchup: R::Catchup,
    pub output: ReportingOutputSelect,
    pub skip_event_types: Seq<Seq<char>>,
}

impl<R: Relay> View for ReportingConfig<R> {
    type V = ReportingConfigView<R>;

    open spec fn view(&self) -> ReportingConfigView<R> {
        ReportingConfigView {
            directory: self.directory@,
            cleanup: self.cleanup,
            catchup: self.catchup,
            output: self.output,
            skip_event_types: self.skip_event_types.deep_view(),
        }
    }
}

/// Why a report could not be given out.
#[derive(Clone, Copy, Debug, PartialEq, Eq, Structural)]
pub enum OutputError {
    /// The report itself is at fault.
    Permanent,
    /// It may work another time.
    Transient,
}

/// The run that a report is about.
pub struct RunInfo<R: Relay> {
    pub node_id: String,
    pub run: R::Run,
}

/// What a `RunInfo` holds.
pub struct RunInfoView<R: Relay> {
    pub node_id: Seq<char>,
    pub run: R::Run,
}

impl<R: Relay> View for RunInfo<R> {
    type V = RunInfoView<R>;

    open spec fn view(&self) -> RunInfoView<R> {
        RunInfoView { node_id: self.node_id@, run: self.run }
    }
}

/// A job of the relay.
pub enum Job<R: Relay> {
    /// Remove old files from a directory, with these settings.
    CleanUp(FilePath, R::Cleanup),
    /// Serve the files that are received.
    Serve,
    /// Watch a directory for files to serve, with these settings.
    Watch(FilePath, R::Catchup),
}

/// What a `Job` says.
pub enum JobView<R: Relay> {
    CleanUp(Seq<u8>, R::Cleanup),
    Serve,
    Watch(Seq<u8>, R::Catchup),
}

impl<R: Relay> View for Job<R> {
    type V = JobView<R>;

    open spec fn view(&self) -> JobView<R> {
        match *self {
            Job::CleanUp(path, cleanup) => JobView::CleanUp(path@, cleanup),
            Job::Serve => JobView::Serve,
            Job::Watch(path, catchup) => JobView::Watch(path@, catchup),
        }
    }
}

/// Where the reports to serve come in.
pub open spec fn incoming(directory: Seq<u8>) -> Seq<u8> {
    path::join(directory, encode_utf8("incoming"@))
}

/// Where the reports that failed are kept.
pub open spec fn failed(directory: Seq<u8>) -> Seq<u8> {
    path::join(directory, encode_utf8("failed"@))
}

/// The jobs to start, in order, for reports to be treated.
pub open spec fn jobs<R: Relay>(config: ReportingConfigView<R>) -> Seq<JobView<R>> {
    seq![
        JobView::CleanUp(incoming(config.directory), config.cleanup),
        JobView::CleanUp(failed(config.directory), config.cleanup),
        JobView::Serve,
        JobView::Watch(incoming(config.directory), config.catchup),
    ]
}

/// The jobs to start, in this order, for reports to be treated.
pub fn start<R: Relay>(config: &ReportingConfig<R>) -> (r: Vec<Job<R>>)
    ensures
        r@.map_values(|job: Job<R>| job@) == jobs(config@),
{
    let incoming_path = config.directory.join(&FilePath::from_text("incoming"));
    let failed_path = config.directory.join(&FilePath::from_text("failed"));
    let mut r: Vec<Job<R>> = Vec::new();
    r.push(Job::CleanUp(incoming_path.clone(), config.cleanup));
    r.push(Job::CleanUp(failed_path, config.cleanup));
    r.push(Job::Serve);
    r.push(Job::Watch(incoming_path, config.catchup));
    assert(r@.map_values(|job: Job<R>| job@) =~= jobs(config@));
    r
}

/// Whether a file is a report: its extension is `gz`, `zip` or `log`.
pub open spec fn is_report(file: Seq<u8>) -> bool {
    match path::extension(file) {
        Some(extension) => extension == encode_utf8("gz"@) || extension == encode_utf8("zip"@)
            || extension == encode_utf8("log"@),
        None => false,
    }
}

/// Whether a file has a known report extension; temporary files have others. An extension that is
/// not text is not known.
pub fn has_report_extension(file: &FilePath) -> (r: bool)
    ensures
        r == is_report(file@),
{
    match file.extension() {
        Some(extension) => same_bytes(extension, "gz".as_bytes()) || same_bytes(
            extension,
            "zip".as_bytes(),
        ) || same_bytes(extension, "log".as_bytes()),
        None => false,
    }
}

/// The identifier that a file is queued under: that of its name, or of its whole path if it has
/// no name.
pub open spec fn queue_id(file: Seq<u8>) -> Seq<char> {
    digest::upper_hex(
        digest::md5_digest(
            match path::file_name(file) {
                Some(name) => name,
                None => file,
            },
        ),
    )
}

/// How far a received file has come, and what is to be done for it to go on.
pub enum Reception<R: Relay> {
    /// The file is no report: nothing is done.
    Skipped,
    /// Count the event, and tell which run the file is about.
    Identify { file: FilePath, queue_id: String, event: Event },
    /// Tell whether the node of the run is one that this relay serves.
    CheckNode { file: FilePath, info: RunInfo<R> },
    /// Put the file with those that failed below `directory`, and count the event.
    Refuse { file: FilePath, directory: FilePath, event: Event },
    /// Insert the report into the database.
    Database { file: FilePath, info: RunInfo<R> },
    /// Send the report upstream.
    Upstream { file: FilePath },
    /// The run is not known: no more files are served.
    Stopped,
}

/// What a `Reception` says.
pub enum ReceptionView<R: Relay> {
    Skipped,
    Identify { file: Seq<u8>, queue_id: Seq<char>, event: Event },
    CheckNode { file: Seq<u8>, info: RunInfoView<R> },
    Refuse { file: Seq<u8>, directory: Seq<u8>, event: Event },
    Database { file: Seq<u8>, info: RunInfoView<R> },
    Upstream { file: Seq<u8> },
    Stopped,
}

impl<R: Relay> View for Reception<R> {
    type V = ReceptionView<R>;

    open spec fn view(&self) -> ReceptionView<R> {
        match *self {
            Reception::Skipped => ReceptionView::Skipped,
            Reception::Identify { file, queue_id, event } => ReceptionView::Identify {
                file: file@,
                queue_id: queue_id@,
                event,
            },
            Reception::CheckNode { file, info } => ReceptionView::CheckNode {
                file: file@,
                info: info@,
            },
            Reception::Refuse { file, directory, event } => ReceptionView::Refuse {
                file: file@,
                directory: directory@,
                event,
            },
            Reception::Database { file, info } => ReceptionView::Database {
                file: file@,
                info: info@,
            },
            Reception::Upstream { file } => ReceptionView::Upstream { file: file@ },
            Reception::Stopped => ReceptionView::Stopped,
        }
    }
}

/// What is known of the run that a file is about.
pub open spec fn info_view<R: Relay>(info: Option<RunInfo<R>>) -> Option<RunInfoView<R>> {
    match info {
        Some(info) => Some(info@),
        None => None,
    }
}

/// Where the reception of a file starts.
pub open spec fn received<R: Relay>(file: Seq<u8>) -> ReceptionView<R> {
    if is_report(file) {
        ReceptionView::Identify { file, queue_id: queue_id(file), event: Event::ReportReceived }
    } else {
        ReceptionView::Skipped
    }
}

/// Where a reception goes once the run was looked for.
pub open spec fn after_identification<R: Relay>(
    file: Seq<u8>,
    info: Option<RunInfoView<R>>,
) -> ReceptionView<R> {
    match info {
        Some(info) => ReceptionView::CheckNode { file, info },
        None => ReceptionView::Stopped,
    }
}

/// Where a reception goes once the node was looked for. Reports of the relay's own nodes have an
/// output, the database or a relay upstream.
pub open spec fn after_check<R: Relay>(
    file: Seq<u8>,
    info: RunInfoView<R>,
    is_subnode: bool,
    config: ReportingConfigView<R>,
) -> ReceptionView<R> {
    if !is_subnode {
        ReceptionView::Refuse {
            file,
            directory: config.directory,
            event: Event::ReportRefused,
        }
    } else if config.output is Database {
        ReceptionView::Database { file, info }
    } else {
        ReceptionView::Upstream { file }
    }
}

/// Starts to serve a file.
pub fn serve<R: Relay>(file: FilePath) -> (r: Reception<R>)
    ensures
        r@ == received::<R>(file@),
{
    if !has_report_extension(&file) {
        return Reception::Skipped;
    }
    let queue_id = match file.file_name() {
        Some(name) => identifier(name),
        None => identifier(file.bytes.as_slice()),
    };
    Reception::Identify { file, queue_id, event: Event::ReportReceived }
}

impl<R: Relay> Reception<R> {
    /// Goes on with the run that the file is about, if it is known.
    pub fn identified(self, info: Option<RunInfo<R>>) -> (r: Self)
        requires
            self@ is Identify,
        ensures
            r@ == after_identification(self@->Identify_file, info_view(info)),
    {
        match (self, info) {
            (Reception::Identify { file, queue_id: _, event: _ }, Some(info)) =>
                Reception::CheckNode { file, info },
            _ => Reception::Stopped,
        }
    }

    /// Goes on with whether the node of the run is one that this relay serves. Reports of such
    /// nodes are not served where there is no output for them.
    pub fn checked(self, is_subnode: bool, config: &ReportingConfig<R>) -> (r: Self)
        requires
            self@ is CheckNode,
            is_subnode ==> !(config@.output is Disabled),
        ensures
            r@ == after_check(
                self@->CheckNode_file,
                self@->CheckNode_info,
                is_subnode,
                config@,
            ),
    {
        match self {
            Reception::CheckNode { file, info } => if !is_subnode {
                Reception::Refuse {
                    file,
                    directory: config.directory.clone(),
                    event: Event::ReportRefused,
                }
            } else {
                match config.output {
                    ReportingOutputSelect::Database => Reception::Database { file, info },
                    ReportingOutputSelect::Upstream => Reception::Upstream { file },
                    ReportingOutputSelect::Disabled => vstd::pervasive::unreached(),
                }
            },
            _ => vstd::pervasive::unreached(),
        }
    }
}

/// How far the delivery of a report has come, and what is to be done for it to go on.
#[derive(Debug, PartialEq, Eq)]
pub enum Delivery {
    /// Remove the file, and count the event; that ends the delivery.
    Succeed { file: FilePath, event: Event },
    /// Put the file with those that failed below `directory`, and count `event`. If that works,
    /// the delivery goes on as one that succeeded, with the event `then`.
    Fail { file: FilePath, directory: FilePath, event: Event, then_event: Event },
    /// The file is left as it is, and the delivery has failed.
    Abandoned,
}

/// What a `Delivery` says.
pub enum DeliveryView {
    Succeed { file: Seq<u8>, event: Event },
    Fail { file: Seq<u8>, directory: Seq<u8>, event: Event, then_event: Event },
    Abandoned,
}

impl View for Delivery {
    type V = DeliveryView;

    open spec fn view(&self) -> DeliveryView {
        match *self {
            Delivery::Succeed { file, event } => DeliveryView::Succeed { file: file@, event },
            Delivery::Fail { file, directory, event, then_event } => DeliveryView::Fail {
                file: file@,
                directory: directory@,
                event,
                then_event,
            },
            Delivery::Abandoned => DeliveryView::Abandoned,
        }
    }
}

/// Where a delivery goes once the report was given out, or could not be; `event` counts reports
/// that were.
pub open spec fn after_output(
    file: Seq<u8>,
    directory: Seq<u8>,
    given: Result<(), OutputError>,
    event: Event,
) -> DeliveryView {
    match given {
        Ok(_) => DeliveryView::Succeed { file, event },
        Err(OutputError::Permanent) => DeliveryView::Fail {
            file,
            directory,
            event: Event::ReportRefused,
            then_event: event,
        },
        Err(OutputError::Transient) => DeliveryView::Abandoned,
    }
}

/// Goes on once the report was given out, or could not be.
fn deliver<R: Relay>(
    file: FilePath,
    config: &ReportingConfig<R>,
    given: Result<(), OutputError>,
    event: Event,
) -> (r: Delivery)
    ensures
        r@ == after_output(file@, config@.directory, given, event),
{
    match given {
        Ok(_) => Delivery::Succeed { file, event },
        Err(OutputError::Permanent) => Delivery::Fail {
            file,
            directory: config.directory.clone(),
            event: Event::ReportRefused,
            then_event: event,
        },
        Err(OutputError::Transient) => Delivery::Abandoned,
    }
}

/// Goes on with a report once it was inserted into the database, or could not be.
pub fn output_report_database<R: Relay>(
    file: FilePath,
    config: &ReportingConfig<R>,
    inserted: Result<(), OutputError>,
) -> (r: Delivery)
    ensures
        r@ == after_output(file@, config@.directory, inserted, Event::ReportInserted),
{
    deliver(file, config, inserted, Event::ReportInserted)
}

/// Goes on with a report once it was sent upstream, or could not be.
pub fn output_report_upstream<R: Relay>(
    file: FilePath,
    config: &ReportingConfig<R>,
    sent: Result<(), OutputError>,
) -> (r: Delivery)
    ensures
        r@ == after_output(file@, config@.directory, sent, Event::ReportSent),
{
    deliver(file, config, sent, Event::ReportSent)
}

/// Where a delivery goes once its file was to be put with those that failed.
pub open spec fn after_failure(delivery: DeliveryView, moved: bool) -> DeliveryView {
    match delivery {
        DeliveryView::Fail { file, then_event, .. } if moved => DeliveryView::Succeed {
            file,
            event: then_event,
        },
        _ => DeliveryView::Abandoned,
    }
}

impl Delivery {
    /// Goes on with whether the file could be put with those that failed.
    pub fn failed(self, moved: bool) -> (r: Self)
        requires
            self@ is Fail,
        ensures
            r@ == after_failure(self@, moved),
    {
        match self {
            Delivery::Fail { file, directory: _, event: _, then_event } => if moved {
                Delivery::Succeed { file, event: then_event }
            } else {
                Delivery::Abandoned
            },
            _ => vstd::pervasive::unreached(),
        }
    }
}

} // verus!
