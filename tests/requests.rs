use tri_spotify::orchestrate::{reply_for, step, Event, Failure, Stage, REQUEST_BUDGET_SECS};

fn run(events: &[Event]) -> Stage {
    let mut s = Stage::Idle;
    for e in events {
        s = step(s, *e);
    }
    s
}

#[test]
fn happy_path_succeeds() {
    let s = run(&[
        Event::Request,
        Event::Resolved,
        Event::Fetched { variants: 4 },
        Event::Stored { assigned: 3, persisted: 3 },
    ]);
    assert_eq!(s, Stage::Succeeded);
    let r = reply_for(s).unwrap();
    assert_eq!((r.status, r.ok, r.error.as_str()), (200, true, ""));
}

#[test]
fn partial_storage_still_succeeds() {
    let s = run(&[Event::Request, Event::Resolved, Event::Fetched { variants: 2 }, Event::Stored { assigned: 2, persisted: 1 }]);
    assert_eq!(s, Stage::Succeeded);
}

#[test]
fn failures_by_stage() {
    assert_eq!(run(&[Event::Request, Event::ResolveFailed]), Stage::Failed(Failure::Resolution));
    assert_eq!(run(&[Event::Request, Event::Resolved, Event::FetchFailed]), Stage::Failed(Failure::Backend));
    assert_eq!(run(&[Event::Request, Event::Resolved, Event::Fetched { variants: 0 }]), Stage::Failed(Failure::Backend));
    let pre = [Event::Request, Event::Resolved, Event::Fetched { variants: 1 }];
    let mut ev = pre.to_vec();
    ev.push(Event::Stored { assigned: 0, persisted: 0 });
    assert_eq!(run(&ev), Stage::Failed(Failure::SelectionExhausted));
    let mut ev = pre.to_vec();
    ev.push(Event::Stored { assigned: 2, persisted: 0 });
    assert_eq!(run(&ev), Stage::Failed(Failure::Persistence));
    let mut ev = pre.to_vec();
    ev.push(Event::Stored { assigned: 1, persisted: 2 });
    assert_eq!(run(&ev), Stage::Failed(Failure::Internal));
}

#[test]
fn deadline_times_out_a_stuck_fetch() {
    let s = run(&[Event::Request, Event::Resolved, Event::Deadline]);
    assert_eq!(s, Stage::TimedOut);
    assert_eq!(step(s, Event::Fetched { variants: 3 }), Stage::TimedOut);
    let r = reply_for(s).unwrap();
    assert_eq!((r.status, r.ok, r.error.as_str()), (500, false, "timeout"));
    assert_eq!(REQUEST_BUDGET_SECS, 300);
}

#[test]
fn fault_fails_only_its_request() {
    let a = run(&[Event::Request, Event::Resolved, Event::Fault]);
    let b = run(&[Event::Request, Event::Resolved, Event::Fetched { variants: 1 }, Event::Stored { assigned: 1, persisted: 1 }]);
    assert_eq!(a, Stage::Failed(Failure::Internal));
    assert_eq!(b, Stage::Succeeded);
    let r = reply_for(a).unwrap();
    assert_eq!(r.status, 500);
    assert_eq!(r.error, "internal fault while handling the request");
}

#[test]
fn out_of_order_event_is_a_fault() {
    assert_eq!(run(&[Event::Request, Event::Fetched { variants: 1 }]), Stage::Failed(Failure::Internal));
    assert_eq!(run(&[Event::Resolved]), Stage::Idle);
    assert_eq!(run(&[Event::Deadline]), Stage::Idle);
}

#[test]
fn no_reply_while_running() {
    assert!(reply_for(Stage::Idle).is_none());
    assert!(reply_for(Stage::Storing).is_none());
    let r = reply_for(Stage::Failed(Failure::SelectionExhausted)).unwrap();
    assert_eq!(r.error, "Track can't be saved: no files available");
    assert!(!r.ok);
}
