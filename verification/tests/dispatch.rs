use std::sync::mpsc::channel;
use std::sync::mpsc::Receiver;

use workunit::handle::Handle;
use workunit::job::{Freshness, Job};
use workunit::work::{MessageStep, Step, Work};

fn gather(rx: &Receiver<String>) -> Vec<String> {
    rx.try_iter().collect()
}

#[test]
fn dirty_verdict_runs_dirty_path() {
    let (tx, rx) = channel();
    let mut h = Handle::new(tx);
    let dirty = Work::new(MessageStep { message: "compiling".to_string() });
    let fresh = Work::noop();
    let r = Job::new(dirty, fresh).run(Freshness::Dirty, &mut h);
    assert_eq!(r, Ok(()));
    drop(h);
    assert_eq!(gather(&rx), vec!["compiling".to_string()]);
}

#[test]
fn fresh_verdict_runs_fresh_path() {
    let (tx, rx) = channel();
    let mut h = Handle::new(tx);
    let dirty = Work::new(MessageStep { message: "compiling".to_string() });
    let fresh = Work::noop();
    let r = Job::new(dirty, fresh).run(Freshness::Fresh, &mut h);
    assert_eq!(r, Ok(()));
    drop(h);
    assert_eq!(gather(&rx), Vec::<String>::new());
}

#[test]
fn fresh_verdict_never_touches_dirty() {
    let (tx, rx) = channel();
    let mut h = Handle::new(tx);
    let dirty = Work::new(TrapStep {});
    let fresh = Work::message("cached".to_string());
    let r = Job::new(dirty, fresh).run(Freshness::Fresh, &mut h);
    assert_eq!(r, Ok(()));
    drop(h);
    assert_eq!(gather(&rx), vec!["cached".to_string()]);
}

#[test]
fn dirty_verdict_never_touches_fresh() {
    let (tx, rx) = channel();
    let mut h = Handle::new(tx);
    let dirty = Work::message("rebuilt".to_string());
    let fresh = Work::new(TrapStep {});
    let r = Job::new(dirty, fresh).run(Freshness::Dirty, &mut h);
    assert_eq!(r, Ok(()));
    drop(h);
    assert_eq!(gather(&rx), vec!["rebuilt".to_string()]);
}

#[test]
fn dispatch_propagates_failure() {
    let (tx, rx) = channel();
    let mut h = Handle::new(tx);
    let dirty = Work::fail("compiler exited with status 1".to_string());
    let fresh = Work::noop();
    let r = Job::new(dirty, fresh).run(Freshness::Dirty, &mut h);
    assert_eq!(r, Err("compiler exited with status 1".to_string()));
    drop(h);
    assert_eq!(gather(&rx), Vec::<String>::new());
}

#[test]
fn describe_is_opaque() {
    let job = Job::new(Work::noop(), Work::noop());
    assert_eq!(job.describe(), "Job { .. }".to_string());
}

struct TrapStep {}

impl Step for TrapStep {
    fn run(self, _h: &mut Handle) -> Result<(), String> {
        panic!("the discarded path must never run");
    }
}
