use rudder::digest::{identifier, to_upper_hex};
use rudder::insertion::{
    output_report_database_inner, Found, Insertion, InsertionBehavior, InsertionError,
};
use rudder::path::FilePath;
use rudder::reporting::{
    has_report_extension, output_report_database, output_report_upstream, serve, start, Delivery,
    Event, Job, OutputError, Reception, Relay, ReportingConfig, ReportingOutputSelect, RunInfo,
    CHANNEL_CAPACITY,
};

struct Node;

impl Relay for Node {
    type Cleanup = (u32, u32);
    type Catchup = &'static str;
    type Run = u32;
    type Data = Vec<u8>;
    type Certificates = &'static str;
    type Signed = String;
    type Log = Vec<&'static str>;
    type Fault = &'static str;
}

fn path(text: &str) -> FilePath {
    FilePath::from_text(text)
}

fn config(output: ReportingOutputSelect, skipped: &[&str]) -> ReportingConfig<Node> {
    ReportingConfig {
        directory: path("/var/reports"),
        cleanup: (30, 3600),
        catchup: "every minute",
        output,
        skip_event_types: skipped.iter().map(|t| t.to_string()).collect(),
    }
}

fn info() -> RunInfo<Node> {
    RunInfo { node_id: "root".to_owned(), run: 7 }
}

#[test]
fn jobs_are_started_in_order() {
    let jobs = start(&config(ReportingOutputSelect::Database, &[]));
    let shown: Vec<(&str, Option<FilePath>, String)> = jobs
        .into_iter()
        .map(|job| match job {
            Job::CleanUp(directory, cleanup) => {
                ("clean up", Some(directory), format!("{:?}", cleanup))
            }
            Job::Serve => ("serve", None, String::new()),
            Job::Watch(directory, catchup) => ("watch", Some(directory), catchup.to_owned()),
        })
        .collect();
    let incoming = || Some(path("/var/reports/incoming"));
    assert_eq!(
        shown,
        vec![
            ("clean up", incoming(), "(30, 3600)".to_owned()),
            ("clean up", Some(path("/var/reports/failed")), "(30, 3600)".to_owned()),
            ("serve", None, String::new()),
            ("watch", incoming(), "every minute".to_owned()),
        ]
    );
    assert_eq!(CHANNEL_CAPACITY, 1024);
}

#[test]
fn reports_have_known_extensions() {
    for name in ["a.gz", "/in/a.log.zip", "a.log", "dir.dav/a.gz/"] {
        assert!(has_report_extension(&path(name)), "{}", name);
    }
    for name in ["a", "a.dav", ".gz", "gz", "a.GZ", "a.gzz", "a.g", "a.log/..", "a.log.", ""] {
        assert!(!has_report_extension(&path(name)), "{}", name);
    }
    assert!(matches!(serve::<Node>(path("/in/a.log.dav")), Reception::Skipped));
}

#[test]
fn digests_are_spelled_in_upper_case() {
    assert_eq!(identifier(b""), "D41D8CD98F00B204E9800998ECF8427E");
    assert_eq!(identifier(b"abc"), "900150983CD24FB0D6963F7D28E17F72");
    assert_eq!(to_upper_hex(&[0x00, 0x0a, 0xbe, 0xef, 0x19]), "000ABEEF19");
    let all: Vec<u8> = (0..=255u8).collect();
    let expected: String = all.iter().map(|b| format!("{:02X}", b)).collect();
    assert_eq!(to_upper_hex(&all), expected);
}

#[test]
fn different_bytes_are_spelled_differently() {
    let mut seen: Vec<String> = Vec::new();
    for a in 0..=255u8 {
        let text = to_upper_hex(&[a, 255 - a]);
        assert!(!seen.contains(&text));
        seen.push(text);
    }
}

#[test]
fn a_report_is_queued_under_its_name() {
    let mut ids = Vec::new();
    for name in ["/in/x.gz", "x.gz", "/other/x.gz"] {
        match serve::<Node>(path(name)) {
            Reception::Identify { file, queue_id, event } => {
                assert_eq!(file, path(name));
                assert_eq!(event, Event::ReportReceived);
                ids.push(queue_id);
            }
            _ => panic!("not a report"),
        }
    }
    assert_eq!(ids[0], "E20D0957EC05F8906DD6388D08813293");
    assert!(ids[1] == ids[0] && ids[2] == ids[0]);
}

#[test]
fn an_unknown_run_stops_the_service() {
    let reception = serve::<Node>(path("/in/x.gz")).identified(None);
    assert!(matches!(reception, Reception::Stopped));
}

#[test]
fn files_that_are_no_reports_can_be_left_out_of_a_stream() {
    let received = |files: &[&str]| -> Vec<String> {
        files
            .iter()
            .filter_map(|file| match serve::<Node>(path(file)) {
                Reception::Identify { queue_id, .. } => Some(queue_id),
                _ => None,
            })
            .collect()
    };
    assert_eq!(received(&["a.gz", "a.gz.dav", "b.log", "notes"]), received(&["a.gz", "b.log"]));
    assert_eq!(received(&["a.gz", "b.log"]).len(), 2);
}

#[test]
fn the_report_of_an_unknown_node_is_refused() {
    for output in [
        ReportingOutputSelect::Database,
        ReportingOutputSelect::Upstream,
        ReportingOutputSelect::Disabled,
    ] {
        let reception = serve(path("/in/x.gz")).identified(Some(info()));
        match reception.checked(false, &config(output, &[])) {
            Reception::Refuse { file, directory, event } => {
                assert_eq!(file, path("/in/x.gz"));
                assert_eq!(directory, path("/var/reports"));
                assert_eq!(event, Event::ReportRefused);
            }
            _ => panic!("not refused"),
        }
    }
}

#[test]
fn a_report_goes_where_the_configuration_says() {
    let reception = || serve(path("/in/x.gz")).identified(Some(info()));
    match reception().checked(true, &config(ReportingOutputSelect::Database, &[])) {
        Reception::Database { file, info } => {
            assert_eq!(file, path("/in/x.gz"));
            assert_eq!((info.node_id.as_str(), info.run), ("root", 7));
        }
        _ => panic!("not inserted"),
    }
    match reception().checked(true, &config(ReportingOutputSelect::Upstream, &[])) {
        Reception::Upstream { file } => assert_eq!(file, path("/in/x.gz")),
        _ => panic!("not sent"),
    }
}

#[test]
fn a_delivered_report_is_counted() {
    let config = config(ReportingOutputSelect::Database, &[]);
    let file = || path("/in/x.gz");
    assert_eq!(
        output_report_database(file(), &config, Ok(())),
        Delivery::Succeed { file: file(), event: Event::ReportInserted }
    );
    assert_eq!(
        output_report_upstream(file(), &config, Ok(())),
        Delivery::Succeed { file: file(), event: Event::ReportSent }
    );
}

#[test]
fn a_report_that_may_work_later_is_left_alone() {
    let config = config(ReportingOutputSelect::Database, &[]);
    let given = Err(OutputError::Transient);
    assert_eq!(output_report_database(path("x.gz"), &config, given), Delivery::Abandoned);
    assert_eq!(output_report_upstream(path("x.gz"), &config, given), Delivery::Abandoned);
}

#[test]
fn a_report_that_never_works_is_refused() {
    let config = config(ReportingOutputSelect::Database, &[]);
    let failed = |then_event| Delivery::Fail {
        file: path("x.gz"),
        directory: path("/var/reports"),
        event: Event::ReportRefused,
        then_event,
    };
    let given = Err(OutputError::Permanent);
    let inserted = output_report_database(path("x.gz"), &config, given);
    assert_eq!(inserted, failed(Event::ReportInserted));
    assert_eq!(
        inserted.failed(true),
        Delivery::Succeed { file: path("x.gz"), event: Event::ReportInserted }
    );
    let sent = output_report_upstream(path("x.gz"), &config, given);
    assert_eq!(sent, failed(Event::ReportSent));
    assert_eq!(sent.failed(false), Delivery::Abandoned);
}

fn outside(insertion: &Insertion<Node>, fault: &str) -> Option<Found<Node>> {
    match insertion {
        Insertion::Read { file, .. } => Some(Found::Data(if fault == "read" {
            Err("cannot read")
        } else {
            Ok(file.bytes.clone())
        })),
        Insertion::FindCertificates { info, .. } => {
            assert_eq!(info.node_id, "root");
            Some(Found::Certificates(if fault == "certificates" { None } else { Some("cert") }))
        }
        Insertion::CheckSignature { data, certificates, .. } => {
            assert_eq!(*certificates, "cert");
            Some(Found::Signed(if fault == "signature" {
                Err("bad signature")
            } else {
                Ok(format!("signed {}", data.len()))
            }))
        }
        Insertion::Parse { signed, info, .. } => {
            assert_eq!(signed, "signed 4");
            assert_eq!(info.run, 7);
            Some(Found::Log(if fault == "parse" { Err("bad report") } else { Ok(vec!["a", "b"]) }))
        }
        Insertion::Filter { log, skipped } => Some(Found::Filtered(
            log.iter().copied().filter(|t| !skipped.contains(&t.to_string())).collect(),
        )),
        Insertion::Insert { log, behavior } => {
            assert_eq!(*behavior, InsertionBehavior::SkipDuplicate);
            let expected = if fault == "filtered" { vec!["b"] } else { vec!["a", "b"] };
            assert_eq!(*log, expected);
            Some(Found::Inserted(if fault == "insert" { Err("no database") } else { Ok(()) }))
        }
        Insertion::Done(_) => None,
    }
}

fn insert(skipped: &[&str], fault: &str) -> Result<(), InsertionError<Node>> {
    let config = config(ReportingOutputSelect::Database, skipped);
    let mut insertion = output_report_database_inner(path("x.gz"), info(), &config);
    while let Some(found) = outside(&insertion, fault) {
        insertion = insertion.resume(found);
    }
    match insertion {
        Insertion::Done(result) => result,
        _ => panic!("not done"),
    }
}

#[test]
fn a_report_is_inserted() {
    assert!(insert(&[], "").is_ok());
    assert!(insert(&["a"], "filtered").is_ok());
}

#[test]
fn a_node_without_certificate_inserts_nothing() {
    match insert(&[], "certificates") {
        Err(InsertionError::MissingCertificateForNode(node_id)) => assert_eq!(node_id, "root"),
        _ => panic!("inserted"),
    }
}

#[test]
fn what_goes_wrong_outside_ends_an_insertion() {
    for (fault, expected) in [
        ("read", "cannot read"),
        ("signature", "bad signature"),
        ("parse", "bad report"),
        ("insert", "no database"),
    ] {
        match insert(&[], fault) {
            Err(InsertionError::Fault(fault)) => assert_eq!(fault, expected),
            _ => panic!("inserted"),
        }
    }
}
