//! End-to-end and component scenarios for the hot-reload coordination
//! engine.

use hotreload::builds::{BuildError, BuildManager, BuildResult};
use hotreload::debounce::Debouncer;
use hotreload::engine::{ChangeKind, Engine, PathChange};
use hotreload::gateway::{gateway_step, ClientSignal, GatewayAction, GatewayEvent};
use hotreload::hub::{Hub, RecvOutcome, ReloadMessage};
use hotreload::template::{FileMap, TemplateRecord, UpdateOutcome};

fn rec(path: u64, ordinal: u64, shape: u64, content: u64) -> TemplateRecord {
    TemplateRecord { path, ordinal, shape, content }
}

fn built_ok() -> Result<BuildResult, BuildError> {
    Ok(BuildResult { warnings: Vec::new(), elapsed_millis: 5 })
}

fn built_err(message: &str) -> Result<BuildResult, BuildError> {
    Err(BuildError { diagnostics: vec![message.to_string()] })
}

fn source_change(path: u64, records: Vec<TemplateRecord>) -> PathChange {
    PathChange { path, kind: ChangeKind::SourceTemplates(Some(records)) }
}

#[test]
fn debounce_same_tick_burst() {
    let mut d = Debouncer::new(5);
    assert!(d.accept(6));
    assert!(!d.accept(6));
    assert!(!d.accept(6));
    assert_eq!(d.last_accepted, 6);
}

#[test]
fn debounce_advancing_clock() {
    let mut d = Debouncer::new(0);
    assert!(d.accept(1));
    assert!(d.accept(2));
    assert!(!d.accept(1));
    assert_eq!(d.last_accepted, 2);
}

#[test]
fn debounce_extreme_timestamp() {
    let mut d = Debouncer::new(i64::MAX - 1);
    assert!(d.accept(i64::MAX));
    assert!(!d.accept(i64::MAX));
}

#[test]
fn at_most_one_rebuild_serialized() {
    let mut m = BuildManager::new(false);
    assert!(m.request_rebuild());
    assert!(m.in_flight);
    // A second trigger during the in-flight build starts nothing now.
    assert!(!m.request_rebuild());
    assert_eq!(m.started, 1);
    let act = m.complete(true);
    assert!(act.publish_full_reload);
    assert!(act.start_next);
    assert!(m.in_flight);
    assert_eq!(m.started, 2);
    let act2 = m.complete(true);
    assert!(!act2.start_next);
    assert!(!m.in_flight);
    assert_eq!(m.started, 2);
    assert_eq!(m.finished, 2);
}

#[test]
fn failed_build_regenerates_nothing() {
    let mut m = BuildManager::new(true);
    assert!(m.request_rebuild());
    let act = m.complete(false);
    assert!(!act.publish_full_reload);
    assert!(!act.regen_html);
    let mut m2 = BuildManager::new(true);
    assert!(m2.request_rebuild());
    let act2 = m2.complete(true);
    assert!(act2.regen_html);
}

#[test]
fn patch_only_changed_template() {
    let mut index = FileMap::new();
    let a = rec(1, 0, 10, 100);
    let b = rec(1, 1, 20, 200);
    let c = rec(1, 2, 30, 300);
    index.refresh(1, &vec![a, b, c]);
    let b2 = rec(1, 1, 20, 201);
    match index.update(1, Some(&vec![a, b2, c])) {
        UpdateOutcome::PatchSet(changed) => {
            assert_eq!(changed, vec![b2]);
        },
        _ => panic!("expected a patch set"),
    }
    let stored = index.records_of(1).expect("entry must exist");
    assert_eq!(stored[0], a);
    assert_eq!(stored[1], b2);
    assert_eq!(stored[2], c);
}

#[test]
fn unchanged_reparse_yields_empty_patch_set() {
    let mut index = FileMap::new();
    let a = rec(1, 0, 10, 100);
    index.refresh(1, &vec![a]);
    match index.update(1, Some(&vec![a])) {
        UpdateOutcome::PatchSet(changed) => assert!(changed.is_empty()),
        _ => panic!("expected a patch set"),
    }
}

#[test]
fn structural_removal_needs_rebuild_then_resync() {
    let mut index = FileMap::new();
    let a = rec(1, 0, 10, 100);
    let b = rec(1, 1, 20, 200);
    index.refresh(1, &vec![a, b]);
    match index.update(1, Some(&vec![a])) {
        UpdateOutcome::NeedsFullRebuild => {},
        _ => panic!("expected a full rebuild"),
    }
    // The stored entry is untouched until the rebuild resynchronizes it.
    assert_eq!(index.records_of(1).unwrap().len(), 2);
    index.refresh(1, &vec![a]);
    assert_eq!(index.records_of(1).unwrap().as_slice(), &[a]);
}

#[test]
fn update_absent_file_with_templates_needs_rebuild() {
    let mut index = FileMap::new();
    match index.update(7, Some(&vec![rec(7, 0, 1, 1)])) {
        UpdateOutcome::NeedsFullRebuild => {},
        _ => panic!("a template appearing in an unknown file is structural"),
    }
    assert!(index.records_of(7).is_none());
}

#[test]
fn parse_failure_leaves_entry_and_second_file_succeeds() {
    let mut index = FileMap::new();
    let a = rec(1, 0, 10, 100);
    let b = rec(2, 0, 40, 400);
    index.refresh(1, &vec![a]);
    index.refresh(2, &vec![b]);
    match index.update(1, None) {
        UpdateOutcome::ParseFailed => {},
        _ => panic!("expected a parse failure"),
    }
    assert_eq!(index.records_of(1).unwrap().as_slice(), &[a]);
    let b2 = rec(2, 0, 40, 401);
    match index.update(2, Some(&vec![b2])) {
        UpdateOutcome::PatchSet(changed) => assert_eq!(changed, vec![b2]),
        _ => panic!("the unrelated file's update must still succeed"),
    }
}

#[test]
fn publish_without_subscribers_is_safe() {
    let mut hub = Hub::new(4);
    assert_eq!(hub.publish(ReloadMessage::FullReload), 0);
    assert_eq!(hub.publish(ReloadMessage::HotPatch(rec(1, 0, 1, 1))), 0);
}

#[test]
fn publish_after_unsubscribe_reaches_no_one() {
    let mut hub = Hub::new(4);
    let id = hub.subscribe();
    hub.unsubscribe(id);
    assert_eq!(hub.publish(ReloadMessage::FullReload), 0);
    assert_eq!(hub.recv(id), RecvOutcome::Empty);
}

#[test]
fn broadcast_isolation_two_subscribers() {
    let mut hub = Hub::new(2);
    let s1 = hub.subscribe();
    let s2 = hub.subscribe();
    let m1 = ReloadMessage::HotPatch(rec(1, 0, 1, 1));
    let m2 = ReloadMessage::HotPatch(rec(1, 0, 1, 2));
    let m3 = ReloadMessage::HotPatch(rec(1, 0, 1, 3));
    // S2 reads promptly; S1 never reads and overflows its backlog of 2.
    assert_eq!(hub.publish(m1), 2);
    assert_eq!(hub.recv(s2), RecvOutcome::Delivered(m1));
    assert_eq!(hub.publish(m2), 2);
    assert_eq!(hub.recv(s2), RecvOutcome::Delivered(m2));
    assert_eq!(hub.publish(m3), 2);
    assert_eq!(hub.recv(s2), RecvOutcome::Delivered(m3));
    assert_eq!(hub.recv(s2), RecvOutcome::Empty);
    // S1 sees the overflow as a distinct signal, then the oldest retained
    // messages, still in publish order.
    assert_eq!(hub.recv(s1), RecvOutcome::Lagged);
    assert_eq!(hub.recv(s1), RecvOutcome::Delivered(m2));
    assert_eq!(hub.recv(s1), RecvOutcome::Delivered(m3));
}

#[test]
fn resubscribe_clears_backlog_and_lag() {
    let mut hub = Hub::new(1);
    let id = hub.subscribe();
    hub.publish(ReloadMessage::FullReload);
    hub.publish(ReloadMessage::FullReload);
    hub.resubscribe(id);
    assert_eq!(hub.recv(id), RecvOutcome::Empty);
    hub.publish(ReloadMessage::FullReload);
    assert_eq!(hub.recv(id), RecvOutcome::Delivered(ReloadMessage::FullReload));
}

#[test]
fn gateway_forwards_and_recovers() {
    let patch = rec(1, 0, 1, 5);
    let a = gateway_step(&GatewayEvent::Received(RecvOutcome::Delivered(
        ReloadMessage::HotPatch(patch),
    )));
    assert_eq!(
        a,
        GatewayAction {
            forward: Some(ClientSignal::Patch(patch)),
            resubscribe: false,
            terminate: false
        }
    );
    let b = gateway_step(&GatewayEvent::Received(RecvOutcome::Delivered(
        ReloadMessage::FullReload,
    )));
    assert_eq!(b.forward, Some(ClientSignal::ReloadPage));
    let c = gateway_step(&GatewayEvent::Received(RecvOutcome::Lagged));
    assert_eq!(
        c,
        GatewayAction {
            forward: Some(ClientSignal::ReloadPage),
            resubscribe: true,
            terminate: false
        }
    );
    let d = gateway_step(&GatewayEvent::Received(RecvOutcome::Empty));
    assert_eq!(d, GatewayAction { forward: None, resubscribe: false, terminate: false });
    let e = gateway_step(&GatewayEvent::SendFailed);
    assert_eq!(e, GatewayAction { forward: None, resubscribe: false, terminate: true });
}

#[test]
fn debounced_batch_changes_nothing() {
    let mut engine = Engine::new(false, 10);
    let mut hub = Hub::new(8);
    let id = hub.subscribe();
    let changes = vec![source_change(1, vec![rec(1, 0, 1, 1)])];
    // Observed within the same clock tick as the last accepted event.
    let out = engine.handle_event(&mut hub, 10, &changes);
    assert!(!out.accepted);
    assert!(!out.start_build);
    assert_eq!(out.patches_published, 0);
    assert_eq!(hub.recv(id), RecvOutcome::Empty);
    assert_eq!(engine.builds.started, 0);
}

#[test]
fn non_source_change_triggers_rebuild() {
    let mut engine = Engine::new(false, 0);
    let mut hub = Hub::new(8);
    let changes = vec![PathChange { path: 9, kind: ChangeKind::Other }];
    let out = engine.handle_event(&mut hub, 1, &changes);
    assert!(out.accepted);
    assert!(out.start_build);
    assert_eq!(engine.builds.started, 1);
    let act = engine.build_complete(&mut hub, &built_ok());
    assert!(act.publish_full_reload);
    assert!(!act.start_next);
    assert_eq!(engine.builds.finished, 1);
}

#[test]
fn multi_file_batch_coalesces_one_burst() {
    let mut engine = Engine::new(false, 0);
    let mut hub = Hub::new(8);
    let id = hub.subscribe();
    let a = rec(1, 0, 10, 100);
    let b = rec(2, 0, 20, 200);
    engine.resync(1, &vec![a]);
    engine.resync(2, &vec![b]);
    let a2 = rec(1, 0, 10, 101);
    let b2 = rec(2, 0, 20, 202);
    let changes = vec![source_change(1, vec![a2]), source_change(2, vec![b2])];
    let out = engine.handle_event(&mut hub, 1, &changes);
    assert!(out.accepted);
    assert!(!out.start_build);
    assert_eq!(out.patches_published, 2);
    assert_eq!(hub.recv(id), RecvOutcome::Delivered(ReloadMessage::HotPatch(a2)));
    assert_eq!(hub.recv(id), RecvOutcome::Delivered(ReloadMessage::HotPatch(b2)));
    assert_eq!(hub.recv(id), RecvOutcome::Empty);
}

#[test]
fn parse_failure_recorded_batch_goes_on() {
    let mut engine = Engine::new(false, 0);
    let mut hub = Hub::new(8);
    let id = hub.subscribe();
    let a = rec(1, 0, 10, 100);
    let b = rec(2, 0, 20, 200);
    engine.resync(1, &vec![a]);
    engine.resync(2, &vec![b]);
    let b2 = rec(2, 0, 20, 202);
    let changes = vec![
        PathChange { path: 1, kind: ChangeKind::SourceTemplates(None) },
        source_change(2, vec![b2]),
    ];
    let out = engine.handle_event(&mut hub, 1, &changes);
    assert!(out.accepted);
    assert_eq!(out.failed, vec![1]);
    assert_eq!(out.patches_published, 1);
    assert_eq!(hub.recv(id), RecvOutcome::Delivered(ReloadMessage::HotPatch(b2)));
    assert_eq!(engine.index.records_of(1).unwrap().as_slice(), &[a]);
}

#[test]
fn end_to_end_patch_then_structural() {
    let mut engine = Engine::new(false, 0);
    let mut hub = Hub::new(16);
    let id = hub.subscribe();
    // Start with template set {A: "x"}.
    let a_x = rec(1, 0, 10, 100);
    engine.resync(1, &vec![a_x]);
    // Literal-only change to {A: "y"}: one hot patch, no rebuild.
    let a_y = rec(1, 0, 10, 101);
    let out = engine.handle_event(&mut hub, 1, &vec![source_change(1, vec![a_y])]);
    assert!(out.accepted);
    assert!(!out.start_build);
    assert_eq!(out.patches_published, 1);
    assert_eq!(engine.builds.started, 0);
    assert_eq!(hub.recv(id), RecvOutcome::Delivered(ReloadMessage::HotPatch(a_y)));
    assert_eq!(hub.recv(id), RecvOutcome::Empty);
    // Remove A, add D (structural): one rebuild, one full reload.
    let d_new = rec(1, 0, 77, 700);
    let out2 = engine.handle_event(&mut hub, 2, &vec![source_change(1, vec![d_new])]);
    assert!(out2.accepted);
    assert!(out2.start_build);
    assert_eq!(out2.patches_published, 0);
    assert_eq!(hub.recv(id), RecvOutcome::Empty);
    let act = engine.build_complete(&mut hub, &built_ok());
    assert!(act.publish_full_reload);
    assert_eq!(engine.builds.started, 1);
    assert_eq!(engine.builds.finished, 1);
    assert_eq!(hub.recv(id), RecvOutcome::Delivered(ReloadMessage::FullReload));
    assert_eq!(hub.recv(id), RecvOutcome::Empty);
    // The rebuild resynchronizes the index to {D}.
    engine.resync(1, &vec![d_new]);
    assert_eq!(engine.index.records_of(1).unwrap().as_slice(), &[d_new]);
}

#[test]
fn clocked_entry_accepts_a_first_event() {
    let mut engine = Engine::new(false, 0);
    let mut hub = Hub::new(4);
    // The machine clock is far past the epoch start the engine was given,
    // so the first observed batch must be accepted.
    let (now, out) = engine.handle_event_clock(&mut hub, &vec![]);
    assert!(now > 0);
    assert!(out.accepted);
    assert!(!out.start_build);
    assert_eq!(out.patches_published, 0);
}
