use xkcd_rs::bounds::{BoundsAction, BoundsResolver};
use xkcd_rs::config::Config;
use xkcd_rs::item::{Awaiting, ItemAction, ItemTask};
use xkcd_rs::model::{
    BoundsResolutionError, DownloadOutcome, FailReason, FetchFailure, FetchStep, ItemFetchError, ItemRecord,
};
use xkcd_rs::naming::{destination, file_name, index_url, item_url, push_decimal};
use xkcd_rs::report::{tally, Tally};
use xkcd_rs::retry::{RetryDecision, RetryPolicy};
use xkcd_rs::scheduler::Scheduler;

const BASE: &str = "https://xkcd.com/";

fn policy(max_retries: u32) -> RetryPolicy {
    RetryPolicy { max_retries, delay_secs: 0 }
}

fn record(number: u32, payload_url: &str) -> ItemRecord {
    ItemRecord {
        title: "Test".to_string(),
        alt: "Test comic".to_string(),
        payload_url: payload_url.to_string(),
        number,
    }
}

/// A simulated remote side and disk for one item.
struct World {
    record_failures: u32,
    payload_failures: u32,
    payload_url: String,
    present: bool,
    write_ok: bool,
}

/// Runs one item to its end; returns the outcome and the GETs issued (metadata, payload).
fn run_item(task: &mut ItemTask, world: &World) -> (DownloadOutcome, u32, u32, bool) {
    let mut record_gets = 0;
    let mut payload_gets = 0;
    let mut wrote = false;
    let mut action = task.start();
    loop {
        action = match action {
            ItemAction::FetchRecord { .. } => {
                record_gets += 1;
                if record_gets <= world.record_failures {
                    task.on_record(Err(FetchFailure::Network))
                } else {
                    task.on_record(Ok(record(7, &world.payload_url)))
                }
            }
            ItemAction::FetchPayload { url, .. } => {
                assert_eq!(url, world.payload_url);
                payload_gets += 1;
                if payload_gets <= world.payload_failures {
                    task.on_payload(Err(FetchFailure::Network))
                } else {
                    task.on_payload(Ok(()))
                }
            }
            ItemAction::Probe { .. } => task.on_probe(world.present),
            ItemAction::Write { .. } => {
                wrote = true;
                task.on_write(world.write_ok)
            }
            ItemAction::Finish(outcome) => return (outcome, record_gets, payload_gets, wrote),
        };
    }
}

fn healthy(payload_url: &str) -> World {
    World {
        record_failures: 0,
        payload_failures: 0,
        payload_url: payload_url.to_string(),
        present: false,
        write_ok: true,
    }
}

#[test]
fn decimal_digits() {
    let mut s = String::from("n=");
    push_decimal(&mut s, 0);
    assert_eq!(s, "n=0");
    let mut s = String::new();
    push_decimal(&mut s, 4294967295);
    assert_eq!(s, "4294967295");
    let mut s = String::new();
    push_decimal(&mut s, 2400);
    assert_eq!(s, "2400");
}

#[test]
fn urls_under_base() {
    assert_eq!(index_url(BASE), "https://xkcd.com/info.0.json");
    assert_eq!(index_url("https://xkcd.com"), "https://xkcd.com/info.0.json");
    assert_eq!(item_url(BASE, 2400), "https://xkcd.com/2400/info.0.json");
    assert_eq!(item_url("http://127.0.0.1:1234", 1), "http://127.0.0.1:1234/1/info.0.json");
}

#[test]
fn file_name_is_last_segment() {
    assert_eq!(file_name("https://example.com/test.png"), Some("test.png".to_string()));
    assert_eq!(
        file_name("https://imgs.xkcd.com/comics/barrel_cropped_(1).jpg"),
        Some("barrel_cropped_(1).jpg".to_string())
    );
    assert_eq!(file_name("https://imgs.xkcd.com/comics/"), None);
    assert_eq!(file_name("no-slash-here.png"), None);
    assert_eq!(file_name(""), None);
}

#[test]
fn destination_path_layout() {
    assert_eq!(destination("./xkcd_comics", 3, "a.png"), "./xkcd_comics/3-a.png");
    assert_ne!(destination("d", 1, "x.png"), destination("d", 11, "x.png"));
}

#[test]
fn default_config() {
    let c = Config::default();
    assert_eq!(c.base_url, "https://xkcd.com/");
    assert_eq!(c.output_dir, "./xkcd_comics");
    assert_eq!(c.concurrency_limit, 100);
    assert_eq!(c.retry, RetryPolicy { max_retries: 3, delay_secs: 5 });
    assert!(c.is_runnable());
    assert!(!Config { concurrency_limit: 0, ..Config::default() }.is_runnable());
}

#[test]
fn retry_decisions() {
    let p = policy(3);
    assert_eq!(p.decide(1), RetryDecision::Retry);
    assert_eq!(p.decide(3), RetryDecision::Retry);
    assert_eq!(p.decide(4), RetryDecision::GiveUp);
    assert_eq!(policy(0).decide(1), RetryDecision::GiveUp);
}

#[test]
fn bounds_resolved_from_index() {
    let mut r = BoundsResolver::new(BASE, policy(3));
    match r.start() {
        BoundsAction::Request { url, delay_secs } => {
            assert_eq!(url, "https://xkcd.com/info.0.json");
            assert_eq!(delay_secs, 0);
        }
        other => panic!("unexpected {:?}", other),
    }
    match r.on_response(Ok(record(2400, "https://example.com/test.png"))) {
        BoundsAction::Finish(Ok(bound)) => assert_eq!(bound, 2400),
        other => panic!("unexpected {:?}", other),
    }
    assert!(r.is_finished());
}

#[test]
fn bounds_retry_then_success() {
    let mut r = BoundsResolver::new(BASE, RetryPolicy { max_retries: 3, delay_secs: 5 });
    match r.on_response(Err(FetchFailure::Parse)) {
        BoundsAction::Request { url, delay_secs } => {
            assert_eq!(url, "https://xkcd.com/info.0.json");
            assert_eq!(delay_secs, 5);
        }
        other => panic!("unexpected {:?}", other),
    }
    match r.on_response(Ok(record(5, "https://example.com/e.png"))) {
        BoundsAction::Finish(Ok(bound)) => assert_eq!(bound, 5),
        other => panic!("unexpected {:?}", other),
    }
}

#[test]
fn bounds_fail_after_all_attempts() {
    let k = 3;
    let mut r = BoundsResolver::new(BASE, policy(k));
    let mut attempts = 0;
    let mut action = r.start();
    let result = loop {
        action = match action {
            BoundsAction::Request { .. } => {
                attempts += 1;
                r.on_response(Err(FetchFailure::Parse))
            }
            BoundsAction::Finish(result) => break result,
        };
    };
    assert_eq!(attempts, k + 1);
    assert_eq!(result, Err(BoundsResolutionError { attempts: 4, last: FetchFailure::Parse }));
}

#[test]
fn item_saved_on_success() {
    let mut task = ItemTask::new(BASE, "./out", 7, policy(3));
    match task.start() {
        ItemAction::FetchRecord { url, delay_secs } => {
            assert_eq!(url, "https://xkcd.com/7/info.0.json");
            assert_eq!(delay_secs, 0);
        }
        other => panic!("unexpected {:?}", other),
    }
    let (outcome, r, p, wrote) = run_item(&mut task, &healthy("https://imgs.xkcd.com/comics/seven.png"));
    match outcome {
        DownloadOutcome::Saved(path) => assert_eq!(path, "./out/7-seven.png"),
        other => panic!("unexpected {:?}", other),
    }
    assert_eq!((r, p, wrote), (1, 1, true));
    assert_eq!(task.awaits(), Awaiting::Nothing);
}

#[test]
fn item_skipped_when_file_present() {
    let mut task = ItemTask::new(BASE, "./out", 7, policy(3));
    let world = World { present: true, ..healthy("https://imgs.xkcd.com/comics/seven.png") };
    let (outcome, _, _, wrote) = run_item(&mut task, &world);
    match outcome {
        DownloadOutcome::Skipped(path) => assert_eq!(path, "./out/7-seven.png"),
        other => panic!("unexpected {:?}", other),
    }
    assert!(!wrote);
}

#[test]
fn second_run_skips_saved_items() {
    let world = healthy("https://imgs.xkcd.com/comics/seven.png");
    let mut first = ItemTask::new(BASE, "./out", 7, policy(3));
    let (saved, _, _, wrote_first) = run_item(&mut first, &world);
    let saved_path = match saved {
        DownloadOutcome::Saved(path) => path,
        other => panic!("unexpected {:?}", other),
    };
    assert!(wrote_first);
    let mut second = ItemTask::new(BASE, "./out", 7, policy(3));
    let (again, _, _, wrote_second) = run_item(&mut second, &World { present: true, ..world });
    match again {
        DownloadOutcome::Skipped(path) => assert_eq!(path, saved_path),
        other => panic!("unexpected {:?}", other),
    }
    assert!(!wrote_second);
}

#[test]
fn item_metadata_retries_exhausted() {
    let k = 2;
    let mut task = ItemTask::new(BASE, "./out", 7, policy(k));
    let world = World { record_failures: 100, ..healthy("https://example.com/a.png") };
    let (outcome, r, p, _) = run_item(&mut task, &world);
    assert_eq!(r, k + 1);
    assert_eq!(p, 0);
    match outcome {
        DownloadOutcome::Failed(reason) => assert_eq!(
            reason,
            FailReason::Fetch(ItemFetchError::Exhausted {
                step: FetchStep::Metadata,
                attempts: 3,
                last: FetchFailure::Network
            })
        ),
        other => panic!("unexpected {:?}", other),
    }
}

#[test]
fn item_steps_retried_independently() {
    let mut task = ItemTask::new(BASE, "./out", 7, policy(3));
    let world = World { record_failures: 3, payload_failures: 3, ..healthy("https://example.com/a.png") };
    let (outcome, r, p, _) = run_item(&mut task, &world);
    assert_eq!((r, p), (4, 4));
    match outcome {
        DownloadOutcome::Saved(path) => assert_eq!(path, "./out/7-a.png"),
        other => panic!("unexpected {:?}", other),
    }
}

#[test]
fn item_payload_retries_exhausted() {
    let mut task = ItemTask::new(BASE, "./out", 7, policy(3));
    let world = World { payload_failures: 100, ..healthy("https://example.com/a.png") };
    let (outcome, r, p, wrote) = run_item(&mut task, &world);
    assert_eq!((r, p, wrote), (1, 4, false));
    match outcome {
        DownloadOutcome::Failed(FailReason::Fetch(ItemFetchError::Exhausted { step, attempts, .. })) => {
            assert_eq!(step, FetchStep::Payload);
            assert_eq!(attempts, 4);
        }
        other => panic!("unexpected {:?}", other),
    }
}

#[test]
fn item_without_file_name_fails() {
    let mut task = ItemTask::new(BASE, "./out", 7, policy(3));
    let (outcome, _, p, _) = run_item(&mut task, &healthy("https://example.com/dir/"));
    assert_eq!(p, 0);
    match outcome {
        DownloadOutcome::Failed(reason) => assert_eq!(reason, FailReason::Fetch(ItemFetchError::NoFileName)),
        other => panic!("unexpected {:?}", other),
    }
}

#[test]
fn item_storage_failure() {
    let mut task = ItemTask::new(BASE, "./out", 7, policy(3));
    let world = World { write_ok: false, ..healthy("https://example.com/a.png") };
    match run_item(&mut task, &world).0 {
        DownloadOutcome::Failed(reason) => assert_eq!(reason, FailReason::Storage),
        other => panic!("unexpected {:?}", other),
    }
}

/// Runs a whole series through the scheduler, one item at a time to the end.
fn run_series(bound: u32, limit: usize, payload_fails: &[u32]) -> (Vec<DownloadOutcome>, usize) {
    let mut sched = Scheduler::new(bound, limit);
    let mut tasks: Vec<(u32, ItemTask)> = Vec::new();
    let mut peak = 0;
    loop {
        while let Some(n) = sched.admit_next() {
            tasks.push((n, ItemTask::new(BASE, "./out", n, policy(1))));
        }
        peak = peak.max(tasks.len());
        assert!(tasks.len() <= limit);
        if tasks.is_empty() {
            break;
        }
        let (n, mut task) = tasks.remove(0);
        let url = format!("https://example.com/img{}.png", n);
        let fails = if payload_fails.contains(&n) { 100 } else { 0 };
        let world = World { payload_failures: fails, ..healthy(&url) };
        let outcome = run_item(&mut task, &world).0;
        assert!(sched.is_running(n));
        sched.complete(n, outcome);
        assert!(!sched.is_running(n));
    }
    assert!(sched.is_finished());
    (sched.into_outcomes(), peak)
}

#[test]
fn three_items_all_saved() {
    let (outcomes, peak) = run_series(3, 1, &[]);
    assert_eq!(peak, 1);
    assert_eq!(outcomes.len(), 3);
    for (i, o) in outcomes.iter().enumerate() {
        match o {
            DownloadOutcome::Saved(path) => {
                assert_eq!(path, &format!("./out/{}-img{}.png", i + 1, i + 1))
            }
            other => panic!("unexpected {:?}", other),
        }
    }
    assert_eq!(tally(&outcomes), Tally { saved: 3, skipped: 0, failed: 0 });
}

#[test]
fn middle_item_fails_neighbours_saved() {
    let (outcomes, _) = run_series(3, 2, &[2]);
    assert!(matches!(outcomes[0], DownloadOutcome::Saved(_)));
    assert!(matches!(outcomes[1], DownloadOutcome::Failed(_)));
    assert!(matches!(outcomes[2], DownloadOutcome::Saved(_)));
    assert_eq!(tally(&outcomes), Tally { saved: 2, skipped: 0, failed: 1 });
}

#[test]
fn concurrency_never_exceeds_limit() {
    let mut sched = Scheduler::new(5, 2);
    assert_eq!(sched.admit_next(), Some(1));
    assert_eq!(sched.admit_next(), Some(2));
    assert_eq!(sched.admit_next(), None);
    sched.complete(2, DownloadOutcome::Failed(FailReason::Storage));
    assert!(sched.is_running(1));
    assert_eq!(sched.admit_next(), Some(3));
    assert_eq!(sched.admit_next(), None);
    assert!(!sched.is_finished());
}

#[test]
fn empty_series_finishes_at_once() {
    let mut sched = Scheduler::new(0, 4);
    assert_eq!(sched.admit_next(), None);
    assert!(sched.is_finished());
    assert!(sched.into_outcomes().is_empty());
    assert!(!Scheduler::new(1, 1).is_running(0));
}

#[test]
fn tally_counts_kinds() {
    let outcomes = vec![
        DownloadOutcome::Skipped("a".to_string()),
        DownloadOutcome::Failed(FailReason::Storage),
        DownloadOutcome::Skipped("b".to_string()),
    ];
    assert_eq!(tally(&outcomes), Tally { saved: 0, skipped: 2, failed: 1 });
    assert_eq!(tally(&Vec::new()), Tally { saved: 0, skipped: 0, failed: 0 });
}
