//! The usage-type catalog, on tables held in memory.
use std::collections::BTreeMap;

use event_broker_sdk::catalog::{
    create, create_inserted, delete_ended, delete_step, get, same_payload, CatalogError, CreateStep, DeleteEvent, DeleteTask,
    UsageKind, UsageType,
};
use event_broker_sdk::live::{
    counter_gts_id, counter_usage_type, local_url, ready_step, ReadyStep, READY_ATTEMPTS,
    READY_PAUSE_MILLIS, RETENTION_SECS,
};
use event_broker_sdk::refresh::{RefreshOutcome, Refresher};

struct Store {
    types: BTreeMap<String, UsageType>,
    records: BTreeMap<String, u64>,
    asked: Vec<&'static str>,
}

fn copy(t: &UsageType) -> UsageType {
    UsageType {
        gts_id: t.gts_id.clone(),
        kind: t.kind,
        metadata_fields: t.metadata_fields.clone(),
    }
}

impl Store {
    fn start() -> Store {
        Store { types: BTreeMap::new(), records: BTreeMap::new(), asked: Vec::new() }
    }

    fn find(&self, gts_id: &str) -> Option<UsageType> {
        self.types.get(gts_id).map(copy)
    }

    fn create(&mut self, asked: UsageType) -> Result<UsageType, CatalogError> {
        let found = self.find(&asked.gts_id);
        match create(asked, Ok(found)) {
            CreateStep::Insert(t) => {
                self.types.insert(t.gts_id.clone(), copy(&t));
                create_inserted(t, Ok(())).result
            }
            CreateStep::Return(r) => r,
        }
    }

    fn get(&self, gts_id: &str) -> Result<UsageType, CatalogError> {
        get(gts_id.to_string(), Ok(self.find(gts_id)))
    }

    fn count_references(&self, gts_id: &str) -> u64 {
        self.records.get(gts_id).copied().unwrap_or(0)
    }

    fn run(&mut self, gts_id: &str, task: &DeleteTask) -> DeleteEvent {
        match task {
            DeleteTask::LookUp => {
                self.asked.push("look up");
                DeleteEvent::Found(Ok(self.types.contains_key(gts_id)))
            }
            DeleteTask::CountReferences | DeleteTask::CountOrphans => {
                self.asked.push("count");
                DeleteEvent::Counted(Ok(self.count_references(gts_id)))
            }
            DeleteTask::Remove => {
                self.asked.push("remove");
                self.types.remove(gts_id);
                DeleteEvent::Removed(Ok(()))
            }
            DeleteTask::Sweep => {
                self.asked.push("sweep");
                self.records.remove(gts_id);
                DeleteEvent::Removed(Ok(()))
            }
            DeleteTask::Finish(_) => panic!("nothing is left to do"),
        }
    }

    fn delete(&mut self, gts_id: &str) -> Result<(), CatalogError> {
        let mut task = DeleteTask::LookUp;
        loop {
            if let DeleteTask::Finish(end) = task {
                return end;
            }
            let event = self.run(gts_id, &task);
            task = delete_step(gts_id.to_string(), task, event);
        }
    }
}

fn transient() -> CatalogError {
    CatalogError::Transient { message: "deadline".to_string() }
}

#[test]
fn refresh_short_circuits_when_token_already_cancelled() {
    let mut w = Refresher::new();
    w.cancel();
    assert!(!w.begin_refresh());
    assert_eq!(w.counted(Ok(3)), RefreshOutcome::Cancelled);
    w.request_catalog_size_refresh();
    assert!(!w.wake());
    assert_eq!((w.runs, w.size), (0, None));
}

#[test]
fn refresh_runs_to_completion_when_not_cancelled() {
    let mut w = Refresher::new();
    assert!(w.begin_refresh());
    assert_eq!(w.counted(Err("connection refused".to_string())), RefreshOutcome::Ran);
    assert_eq!((w.size, w.runs), (None, 1));
    assert!(w.begin_refresh());
    assert!(!w.begin_refresh());
    assert_eq!(w.counted(Ok(4)), RefreshOutcome::Ran);
    assert_eq!(w.size, Some(4));
}

#[test]
fn burst_refresh_coalesces_into_at_most_five_runs() {
    let mut w = Refresher::new();
    for _ in 0..32 {
        w.request_catalog_size_refresh();
    }
    while w.wake() {
        assert_eq!(w.counted(Err("connection refused".to_string())), RefreshOutcome::Ran);
    }
    assert!(w.runs <= 5, "32 signals became {} runs", w.runs);
    assert_eq!(w.runs, 1);
}

#[test]
fn requests_during_a_count_lead_to_one_more() {
    let mut w = Refresher::new();
    w.request_catalog_size_refresh();
    assert!(w.wake());
    for _ in 0..32 {
        w.request_catalog_size_refresh();
        assert!(!w.wake());
    }
    assert_eq!(w.counted(Ok(1)), RefreshOutcome::Ran);
    assert!(w.wake());
    assert_eq!(w.counted(Ok(2)), RefreshOutcome::Ran);
    assert!(!w.wake());
    assert_eq!(w.runs, 2);
}

#[test]
fn worker_exits_when_cancelled_during_an_in_flight_count() {
    let mut w = Refresher::new();
    w.request_catalog_size_refresh();
    assert!(w.wake());
    assert_eq!(w.runs, 1);
    w.cancel();
    assert_eq!(w.counted(Err("dropped".to_string())), RefreshOutcome::Cancelled);
    w.request_catalog_size_refresh();
    assert!(!w.wake());
    assert_eq!(w.runs, 1);
}

#[test]
fn a_failed_read_is_no_answer() {
    let r = get("id".to_string(), Err(transient()));
    assert!(matches!(r, Err(CatalogError::Transient { .. })));
    let r = create(counter_usage_type("x"), Err(transient()));
    assert!(matches!(r, CreateStep::Return(Err(CatalogError::Transient { .. }))));
}

#[test]
fn delete_surfaces_a_backend_failure_on_its_existence_read() {
    let event = DeleteEvent::Found(Err(transient()));
    let task = delete_step("id".to_string(), DeleteTask::LookUp, event);
    assert!(matches!(task, DeleteTask::Finish(Err(CatalogError::Transient { .. }))));
}

#[test]
fn delete_surfaces_every_later_failure_too() {
    for (task, event) in [
        (DeleteTask::CountReferences, DeleteEvent::Counted(Err(transient()))),
        (DeleteTask::Remove, DeleteEvent::Removed(Err(transient()))),
        (DeleteTask::CountOrphans, DeleteEvent::Counted(Err(transient()))),
        (DeleteTask::Sweep, DeleteEvent::Removed(Err(transient()))),
    ] {
        let next = delete_step("id".to_string(), task, event);
        assert!(matches!(next, DeleteTask::Finish(Err(CatalogError::Transient { .. }))));
    }
}

#[test]
fn create_silent_absorb_on_identical_resubmission() {
    let mut store = Store::start();
    let first = store.create(counter_usage_type("create_absorb_test"));
    let second = store.create(counter_usage_type("create_absorb_test"));
    match (first, second) {
        (Ok(first), Ok(second)) => {
            assert_eq!(first.gts_id, second.gts_id);
            assert_eq!(first.kind, second.kind);
            assert_eq!(first.metadata_fields, second.metadata_fields);
        }
        _ => panic!("an identical create must be absorbed"),
    }
}

#[test]
fn create_returns_already_exists_on_differing_payload() {
    let mut store = Store::start();
    let gts_id = counter_gts_id("create_conflict_test");
    assert!(store.create(counter_usage_type("create_conflict_test")).is_ok());
    let gauge = UsageType {
        gts_id: gts_id.clone(),
        kind: UsageKind::Gauge,
        metadata_fields: vec!["region".to_string()],
    };
    match store.create(gauge) {
        Err(CatalogError::UsageTypeAlreadyExists { gts_id: g }) => assert_eq!(g, gts_id),
        other => panic!("expected UsageTypeAlreadyExists, got {other:?}"),
    }
    match store.get(&gts_id) {
        Ok(t) => assert_eq!(t.kind, UsageKind::Counter),
        Err(e) => panic!("{e:?}"),
    }
}

#[test]
fn metadata_fields_are_a_set() {
    let with = |fields: &[&str]| UsageType {
        gts_id: "id".to_string(),
        kind: UsageKind::Gauge,
        metadata_fields: fields.iter().map(|f| f.to_string()).collect(),
    };
    assert!(same_payload(&with(&["a", "b"]), &with(&["b", "a", "a"])));
    assert!(!same_payload(&with(&["a", "b"]), &with(&["a"])));
    assert!(!same_payload(&with(&["a"]), &with(&["a", "b"])));
    assert!(same_payload(&with(&[]), &with(&[])));
}

#[test]
fn delete_removes_an_unreferenced_type_synchronously() {
    let mut store = Store::start();
    let ut = counter_usage_type("delete_unreferenced_test");
    let gts_id = ut.gts_id.clone();
    assert!(store.create(ut).is_ok());
    assert!(store.delete(&gts_id).is_ok());
    assert_eq!(store.asked, vec!["look up", "count", "remove", "count"]);
    assert!(matches!(store.get(&gts_id), Err(CatalogError::UsageTypeNotFound { .. })));
}

#[test]
fn delete_of_an_absent_type_is_not_found() {
    let mut store = Store::start();
    let r = store.delete(&counter_gts_id("delete_absent_test"));
    assert!(matches!(r, Err(CatalogError::UsageTypeNotFound { .. })));
    assert_eq!(store.asked, vec!["look up"]);
}

#[test]
fn delete_of_a_referenced_type_is_refused() {
    let mut store = Store::start();
    let ut = counter_usage_type("referenced");
    let gts_id = ut.gts_id.clone();
    assert!(store.create(ut).is_ok());
    store.records.insert(gts_id.clone(), 1);
    match store.delete(&gts_id) {
        Err(CatalogError::UsageTypeReferenced { gts_id: g }) => assert_eq!(g, gts_id),
        other => panic!("not refused: {other:?}"),
    }
    assert!(store.get(&gts_id).is_ok());
}

#[test]
fn a_deleted_type_can_be_recreated() {
    let mut store = Store::start();
    let gts_id = counter_gts_id("delete_recreate_test");
    assert!(store.create(counter_usage_type("delete_recreate_test")).is_ok());
    assert!(store.delete(&gts_id).is_ok());
    assert!(store.create(counter_usage_type("delete_recreate_test")).is_ok());
    assert!(store.get(&gts_id).is_ok());
}

#[test]
fn the_record_sweep_mutation_is_synchronous() {
    let mut store = Store::start();
    let gts_id = counter_gts_id("sweep_mutation_test");
    store.records.insert(gts_id.clone(), 1);
    assert_eq!(store.count_references(&gts_id), 1);
    let event = store.run(&gts_id, &DeleteTask::CountOrphans);
    let task = delete_step(gts_id.clone(), DeleteTask::CountOrphans, event);
    assert!(matches!(task, DeleteTask::Sweep));
    let event = store.run(&gts_id, &task);
    let task = delete_step(gts_id.clone(), task, event);
    assert!(matches!(task, DeleteTask::Finish(Ok(()))));
    assert_eq!(store.count_references(&gts_id), 0);
}

#[test]
fn counters_are_told_apart_by_their_suffix() {
    assert_eq!(
        counter_gts_id("black_holed_test"),
        "gts.cf.core.uc.usage_record.v1~cf.compute._.black_holed_test.v1"
    );
    let t = counter_usage_type("a");
    assert_eq!(t.gts_id, counter_gts_id("a"));
    assert_eq!(t.kind, UsageKind::Counter);
    assert!(t.metadata_fields.is_empty());
    assert_ne!(counter_gts_id("a"), counter_gts_id("b"));
}

#[test]
fn databases_are_awaited_a_minute() {
    assert_eq!(local_url(8123), "http://127.0.0.1:8123/");
    assert_eq!(local_url(0), "http://127.0.0.1:0/");
    assert_eq!(u64::from(READY_ATTEMPTS) * READY_PAUSE_MILLIS, 60_000);
    assert_eq!(RETENTION_SECS, 365 * 24 * 3600);
    assert_eq!(ready_step(0, true), ReadyStep::Proceed);
    assert_eq!(ready_step(0, false), ReadyStep::PauseThen(Some(1)));
    assert_eq!(ready_step(118, false), ReadyStep::PauseThen(Some(119)));
    assert_eq!(ready_step(119, false), ReadyStep::PauseThen(None));
    assert_eq!(ready_step(119, true), ReadyStep::Proceed);
}

#[test]
fn finished_inserts_ask_for_a_refresh() {
    let done = create_inserted(counter_usage_type("a"), Ok(()));
    assert!(done.refresh);
    assert_eq!(done.result.map(|t| t.gts_id).ok(), Some(counter_gts_id("a")));
    let failed = create_inserted(counter_usage_type("a"), Err(transient()));
    assert!(!failed.refresh);
    assert!(matches!(failed.result, Err(CatalogError::Transient { .. })));
}

#[test]
fn records_that_come_in_during_a_delete_are_swept() {
    let mut store = Store::start();
    let gts_id = counter_gts_id("orphans");
    assert!(store.create(counter_usage_type("orphans")).is_ok());
    let mut task = DeleteTask::LookUp;
    while !matches!(task, DeleteTask::Finish(_)) {
        let removing = matches!(task, DeleteTask::Remove);
        let event = store.run(&gts_id, &task);
        if removing {
            store.records.insert(gts_id.clone(), 2);
        }
        task = delete_step(gts_id.clone(), task, event);
    }
    assert!(matches!(task, DeleteTask::Finish(Ok(()))));
    assert_eq!(store.asked, vec!["look up", "count", "remove", "count", "sweep"]);
    assert_eq!(store.count_references(&gts_id), 0);
}

#[test]
fn direct_counts_leave_requests_waiting() {
    let mut w = Refresher::new();
    w.request_catalog_size_refresh();
    assert!(w.begin_refresh());
    assert!(!w.wake());
    assert_eq!(w.counted(Ok(1)), RefreshOutcome::Ran);
    assert!(w.requested);
    assert!(w.wake());
    assert!(!w.requested);
    assert_eq!(w.runs, 2);
}

#[test]
fn deletes_that_succeed_ask_for_a_refresh() {
    let done = delete_ended(Ok(()));
    assert!(done.refresh && done.result.is_ok());
    let failed = delete_ended(Err(transient()));
    assert!(!failed.refresh);
    assert!(matches!(failed.result, Err(CatalogError::Transient { .. })));
}
