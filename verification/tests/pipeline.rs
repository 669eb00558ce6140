use dv4lua::dv::{Access, Config, Detection, DeviceInfo, Dv, Identity, Os, PmKind};
use dv4lua::error::{Entity, Error};
use dv4lua::multi::pipeline::{copy, sync, SyncRun, SyncStep, TransferRequest, SYNC_FANOUT};
use dv4lua::multi::{sync_pairs, SyncPath};

fn registry(dry_run: bool) -> Dv {
    let mut dv = Dv::new(dry_run);
    for id in ["here", "there"] {
        let identity = Identity::new(id.to_string(), Access::Local, Config::new());
        let info = DeviceInfo { os: Os::Linux, pm: PmKind::Apt };
        dv.add_identity(identity, Detection::Found(info)).unwrap();
    }
    dv
}

fn single(path: &str) -> SyncPath {
    SyncPath::Single(path.to_string())
}

fn many(paths: &[&str]) -> SyncPath {
    SyncPath::Multiple(paths.iter().map(|p| p.to_string()).collect())
}

fn pair(a: &str, b: &str) -> (String, String) {
    (a.to_string(), b.to_string())
}

/// Drives a run to its end, reporting `outcomes` in order; returns the
/// requests that were handed out, the most transfers that were under way
/// at once, and the verdict.
fn drive(
    mut run: SyncRun,
    outcomes: Vec<Result<bool, String>>,
) -> (Vec<TransferRequest>, usize, Result<bool, Error>) {
    let mut requests = Vec::new();
    let mut reports = outcomes.into_iter();
    let mut most = 0;
    loop {
        match run.step() {
            SyncStep::Start(request) => {
                requests.push(request);
                most = most.max(run.in_flight());
            }
            SyncStep::Wait => {
                assert!(run.in_flight() > 0);
                run.complete(reports.next().expect("a report for each transfer"));
            }
            SyncStep::Done => break,
        }
    }
    (requests, most, run.finish().expect("the run is over"))
}

#[test]
fn pairs_by_shape() {
    assert_eq!(sync_pairs(&single("a"), &single("x")).unwrap(), vec![pair("a", "x")]);
    assert_eq!(
        sync_pairs(&single("a"), &many(&["x", "y", "z"])).unwrap(),
        vec![pair("a", "x"), pair("a", "y"), pair("a", "z")]
    );
    assert_eq!(
        sync_pairs(&many(&["a", "b"]), &many(&["x", "y"])).unwrap(),
        vec![pair("a", "x"), pair("b", "y")]
    );
    assert_eq!(sync_pairs(&single("a"), &many(&[])).unwrap(), vec![]);
    assert_eq!(sync_pairs(&many(&[]), &many(&[])).unwrap(), vec![]);
}

#[test]
fn mismatched_lists_are_refused_before_any_transfer() {
    let dv = registry(false);
    assert_eq!(
        sync_pairs(&many(&["a", "b"]), &many(&["x", "y", "z"])).unwrap_err(),
        Error::InvalidPathShape
    );
    let r = sync(&dv, "here", &many(&["a", "b"]), "there", &many(&["x", "y", "z"]), None);
    assert!(matches!(r, Err(Error::InvalidPathShape)));
    let r = sync(&dv, "here", &many(&["a", "b"]), "there", &single("x"), None);
    assert!(matches!(r, Err(Error::InvalidPathShape)));
    let r = copy(&dv, "here", &many(&["a"]), "there", &single("x"), None);
    assert!(matches!(r, Err(Error::InvalidPathShape)));
    // The shape is looked at before the identities are.
    let r = sync(&dv, "nobody", &many(&["a"]), "there", &many(&[]), None);
    assert!(matches!(r, Err(Error::InvalidPathShape)));
}

#[test]
fn unknown_identities_are_refused() {
    let dv = registry(false);
    let r = sync(&dv, "nobody", &single("a"), "nowhere", &single("x"), None);
    assert_eq!(
        r.err(),
        Some(Error::NotFound { entity: Entity::Identity, id: "nobody".to_string() })
    );
    let r = sync(&dv, "here", &single("a"), "nowhere", &single("x"), None);
    assert_eq!(
        r.err(),
        Some(Error::NotFound { entity: Entity::Identity, id: "nowhere".to_string() })
    );
}

#[test]
fn one_source_fans_out_to_three_destinations() {
    let dv = registry(false);
    for changed in [[false, false, false], [false, true, false], [true, true, true]] {
        let run = sync(
            &dv,
            "here",
            &single("/etc/motd"),
            "there",
            &many(&["d1", "d2", "d3"]),
            Some("ask".to_string()),
        )
        .unwrap();
        let (requests, most, verdict) = drive(run, changed.iter().map(|c| Ok(*c)).collect());
        assert_eq!(requests.len(), 3);
        assert!(most <= SYNC_FANOUT);
        for (request, dst_path) in requests.iter().zip(["d1", "d2", "d3"]) {
            assert_eq!(
                request,
                &TransferRequest {
                    src: "here".to_string(),
                    src_path: "/etc/motd".to_string(),
                    dst: "there".to_string(),
                    dst_path: dst_path.to_string(),
                    confirm: Some("ask".to_string()),
                    dry_run: false,
                }
            );
        }
        assert_eq!(verdict, Ok(changed.iter().any(|c| *c)));
    }
}

#[test]
fn at_most_four_transfers_are_under_way() {
    let dv = registry(false);
    let paths: Vec<String> = (0..10).map(|i| format!("p{}", i)).collect();
    let paths = SyncPath::Multiple(paths);
    let mut run = sync(&dv, "here", &paths, "there", &paths, None).unwrap();
    for i in 0..4 {
        assert!(matches!(run.step(), SyncStep::Start(r) if r.src_path == format!("p{}", i)));
    }
    assert_eq!(run.in_flight(), 4);
    assert!(matches!(run.step(), SyncStep::Wait));
    assert!(matches!(run.step(), SyncStep::Wait));
    assert_eq!(run.in_flight(), 4);
    run.complete(Ok(false));
    assert_eq!(run.in_flight(), 3);
    assert!(matches!(run.step(), SyncStep::Start(r) if r.dst_path == "p4"));
    assert!(matches!(run.step(), SyncStep::Wait));

    let run = sync(&dv, "here", &paths, "there", &paths, None).unwrap();
    let (requests, most, verdict) = drive(run, (0..10).map(|i| Ok(i == 9)).collect());
    assert_eq!(requests.len(), 10);
    assert_eq!(most, 4);
    assert_eq!(SYNC_FANOUT, 4);
    assert_eq!(verdict, Ok(true));

    let run = copy(&dv, "here", &paths, "there", &paths, None).unwrap();
    let (requests, most, verdict) = drive(run, (0..10).map(|_| Ok(false)).collect());
    assert_eq!(requests.len(), 10);
    assert_eq!(most, 1);
    assert_eq!(verdict, Ok(false));
}

#[test]
fn first_failure_ends_the_run() {
    let dv = registry(false);
    let paths: Vec<String> = (0..10).map(|i| format!("p{}", i)).collect();
    let paths = SyncPath::Multiple(paths);
    let run = sync(&dv, "here", &paths, "there", &paths, None).unwrap();
    let outcomes = vec![
        Ok(true),
        Err("disk full".to_string()),
        Err("later".to_string()),
        Ok(true),
    ];
    let (requests, _, verdict) = drive(run, outcomes);
    // Four were under way when the first reported, one more was handed
    // out after it, and none after the failure.
    assert_eq!(requests.len(), 5);
    assert_eq!(verdict, Err(Error::TransferFailed { reason: "disk full".to_string() }));
}

#[test]
fn reports_out_of_turn_are_dropped() {
    let dv = registry(false);
    let mut run = sync(&dv, "here", &single("a"), "there", &single("x"), None).unwrap();
    run.complete(Ok(true));
    assert_eq!(run.in_flight(), 0);
    assert!(matches!(run.step(), SyncStep::Start(_)));
    run.complete(Err("gone".to_string()));
    run.complete(Ok(true));
    assert!(matches!(run.step(), SyncStep::Done));
    assert_eq!(run.finish(), Some(Err(Error::TransferFailed { reason: "gone".to_string() })));

    let mut run = sync(&dv, "here", &single("a"), "there", &single("x"), None).unwrap();
    assert!(matches!(run.step(), SyncStep::Start(_)));
    assert_eq!(run.finish(), None);
}

#[test]
fn empty_run_is_over_at_once() {
    let dv = registry(false);
    let mut run = sync(&dv, "here", &single("a"), "there", &many(&[]), None).unwrap();
    assert!(matches!(run.step(), SyncStep::Done));
    assert_eq!(run.finish(), Some(Ok(false)));
}

#[test]
fn dry_run_goes_out_with_every_request() {
    let dv = registry(true);
    for plan in [sync, copy] {
        let run = plan(&dv, "here", &single("a"), "there", &many(&["x", "y"]), None).unwrap();
        let (requests, _, verdict) = drive(run, vec![Ok(false), Ok(true)]);
        assert_eq!(requests.len(), 2);
        assert!(requests.iter().all(|r| r.dry_run));
        assert!(requests.iter().all(|r| r.confirm.is_none()));
        assert_eq!(verdict, Ok(true));
    }
    let wet = registry(false);
    let run = sync(&wet, "here", &single("a"), "there", &many(&["x", "y"]), None).unwrap();
    let (requests, _, verdict) = drive(run, vec![Ok(false), Ok(true)]);
    assert!(requests.iter().all(|r| !r.dry_run));
    assert_eq!(verdict, Ok(true));
}
