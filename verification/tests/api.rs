use subscription_store::{Action, AppData, ErrorKind, Event, Reply, Step, StoreError, Task};

fn begin_load() -> (Task, Action) {
    match subscription_store::store::load_data() {
        Step::Ask(task, action) => (task, action),
        Step::Done(outcome) => panic!("a load ended at once with {:?}", outcome),
    }
}

#[test]
fn crate_root_offers_the_store() {
    let (task, action) = begin_load();
    assert!(matches!(action, Action::FindDataDir));
    let step = subscription_store::store::advance(task, Event::DataDir(Err("none".to_string())));
    let error: StoreError = match step {
        Some(Step::Done(Err(error))) => error,
        other => panic!("{:?}", other),
    };
    assert_eq!(error.kind(), ErrorKind::Location);
    assert_eq!(error.message(), "Failed to get app data dir: none");
}

#[test]
fn crate_root_offers_the_envelope() {
    let data: AppData = AppData::decode("{\"subscriptions\":[],\"settings\":{}}").unwrap();
    let reply = Reply::Loaded(data);
    assert!(matches!(reply, Reply::Loaded(ref data) if data.version().is_empty()));
}
