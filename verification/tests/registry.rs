use maa_lifecycle::registry::MaaState;
use maa_lifecycle::registry::ReleaseAction;
use maa_lifecycle::registry::ResourceNeed;
use maa_lifecycle::registry::StopDecision;
use maa_lifecycle::registry::TaskerNeed;
use maa_lifecycle::types::MaaError;

fn fresh() -> MaaState {
    MaaState::default()
}

fn populated_instance(state: &mut MaaState, id: &str) {
    state.create_instance(id.to_string());
    let key = id.to_string();
    assert_eq!(state.install_resource(&key, 11), Ok(()));
    let (actions, posted) = state.finish_connect_controller(&key, 22, 501);
    assert!(actions.is_empty());
    assert_eq!(posted, Ok(501));
    assert_eq!(state.install_tasker(&key, 33), Ok(()));
}

#[test]
fn create_is_idempotent() {
    let mut state = fresh();
    state.create_instance("alpha".to_string());
    state.create_instance("alpha".to_string());
    assert_eq!(state.instances.len(), 1);
    assert_eq!(state.instances[0].id, "alpha");
}

#[test]
fn create_two_distinct_ids() {
    let mut state = fresh();
    state.create_instance("alpha".to_string());
    state.create_instance("beta".to_string());
    assert_eq!(state.instances.len(), 2);
}

#[test]
fn create_empty_id_is_a_valid_key() {
    let mut state = fresh();
    state.create_instance(String::new());
    state.create_instance(String::new());
    assert_eq!(state.instances.len(), 1);
}

#[test]
fn destroy_missing_is_noop_success() {
    let mut state = fresh();
    state.create_instance("alpha".to_string());
    let actions = state.destroy_instance(&"ghost".to_string());
    assert!(actions.is_empty());
    assert_eq!(state.instances.len(), 1);
}

#[test]
fn destroy_releases_in_fixed_order() {
    let mut state = fresh();
    populated_instance(&mut state, "alpha");
    // populate the agent pair too, through the public fields
    state.instances[0].runtime.agent_client = Some(44);
    state.instances[0].runtime.agent_child = Some(55);
    let trace = state.destroy_instance(&"alpha".to_string());
    assert_eq!(
        trace,
        vec![
            ReleaseAction::DisconnectAgent(44),
            ReleaseAction::DestroyAgent(44),
            ReleaseAction::KillChild(55),
            ReleaseAction::DestroyTasker(33),
            ReleaseAction::DestroyController(22),
            ReleaseAction::DestroyResource(11),
        ]
    );
    assert!(state.instances.is_empty());
}

#[test]
fn destroy_empty_instance_releases_nothing() {
    let mut state = fresh();
    state.create_instance("alpha".to_string());
    let trace = state.destroy_instance(&"alpha".to_string());
    assert!(trace.is_empty());
    assert!(state.instances.is_empty());
}

#[test]
fn replace_controller_tears_down_tasker_then_run_task_recreates() {
    let mut state = fresh();
    populated_instance(&mut state, "alpha");
    let key = "alpha".to_string();
    // replacing the controller while a tasker is bound
    let (actions, posted) = state.finish_connect_controller(&key, 66, 502);
    assert_eq!(
        actions,
        vec![ReleaseAction::DestroyController(22), ReleaseAction::DestroyTasker(33)]
    );
    assert_eq!(posted, Ok(502));
    // the tasker is gone; a run task must lazily recreate it
    assert_eq!(
        state.begin_run_task(&key),
        Ok(TaskerNeed::MustCreate { resource: 11, controller: 66 })
    );
}

#[test]
fn connect_null_controller_disturbs_nothing() {
    let mut state = fresh();
    populated_instance(&mut state, "alpha");
    let key = "alpha".to_string();
    let (actions, posted) = state.finish_connect_controller(&key, 0, 0);
    assert!(actions.is_empty());
    assert_eq!(posted, Err(MaaError::ControllerCreateFailed));
    // the old controller and tasker are still installed
    assert_eq!(state.begin_run_task(&key), Ok(TaskerNeed::Existing(33)));
}

#[test]
fn connect_post_failure_still_installs_new_controller() {
    let mut state = fresh();
    populated_instance(&mut state, "alpha");
    let key = "alpha".to_string();
    let (actions, posted) = state.finish_connect_controller(&key, 66, 0);
    assert_eq!(
        actions,
        vec![ReleaseAction::DestroyController(22), ReleaseAction::DestroyTasker(33)]
    );
    assert_eq!(posted, Err(MaaError::PostConnectionFailed));
    assert_eq!(state.instances[0].runtime.controller, Some(66));
    assert_eq!(state.instances[0].runtime.tasker, None);
}

#[test]
fn run_task_names_the_missing_dependency() {
    let mut state = fresh();
    state.create_instance("alpha".to_string());
    let key = "alpha".to_string();
    assert_eq!(state.begin_run_task(&key), Err(MaaError::ResourceMissing));
    assert_eq!(state.install_resource(&key, 11), Ok(()));
    assert_eq!(state.begin_run_task(&key), Err(MaaError::ControllerMissing));
    let (_, posted) = state.finish_connect_controller(&key, 22, 501);
    assert_eq!(posted, Ok(501));
    assert_eq!(
        state.begin_run_task(&key),
        Ok(TaskerNeed::MustCreate { resource: 11, controller: 22 })
    );
    assert_eq!(
        state.begin_run_task(&"ghost".to_string()),
        Err(MaaError::InstanceNotFound)
    );
}

#[test]
fn record_task_appends_history() {
    let mut state = fresh();
    populated_instance(&mut state, "alpha");
    let key = "alpha".to_string();
    assert_eq!(state.record_task(&key, 1001), Ok(()));
    assert_eq!(state.record_task(&key, 1002), Ok(()));
    assert_eq!(state.instances[0].runtime.task_ids, vec![1001, 1002]);
}

#[test]
fn stop_twice_within_window_posts_once() {
    let mut state = fresh();
    populated_instance(&mut state, "alpha");
    let key = "alpha".to_string();
    assert_eq!(state.record_task(&key, 1001), Ok(()));
    // first stop posts, and clears the task history
    assert_eq!(
        state.request_stop(&key, 10_000, true),
        Ok(StopDecision::PostStop(33))
    );
    assert!(state.instances[0].runtime.task_ids.is_empty());
    // a repeat 499 ms later, still running, is absorbed
    assert_eq!(
        state.request_stop(&key, 10_499, true),
        Ok(StopDecision::Throttled)
    );
    // at 500 ms, still running, it posts again
    assert_eq!(
        state.request_stop(&key, 10_500, true),
        Ok(StopDecision::PostStop(33))
    );
}

#[test]
fn stop_clears_flag_when_task_finished() {
    let mut state = fresh();
    populated_instance(&mut state, "alpha");
    let key = "alpha".to_string();
    assert_eq!(
        state.request_stop(&key, 10_000, true),
        Ok(StopDecision::PostStop(33))
    );
    assert_eq!(
        state.request_stop(&key, 10_100, false),
        Ok(StopDecision::AlreadyIdle)
    );
    assert!(!state.instances[0].runtime.stop_in_progress);
    // with the flag clear, the next stop posts immediately
    assert_eq!(
        state.request_stop(&key, 10_200, true),
        Ok(StopDecision::PostStop(33))
    );
}

#[test]
fn stop_without_tasker_is_an_error() {
    let mut state = fresh();
    state.create_instance("alpha".to_string());
    assert_eq!(
        state.request_stop(&"alpha".to_string(), 0, false),
        Err(MaaError::TaskerMissing)
    );
}

#[test]
fn load_resource_collects_successful_posts() {
    // three paths, the second post rejected: two ids come back
    let results = vec![701, 0, 703];
    let ids = maa_lifecycle::registry::collect_posted_ids(&results);
    assert_eq!(ids, vec![701, 703]);
}

#[test]
fn load_resource_all_posts_rejected() {
    let ids = maa_lifecycle::registry::collect_posted_ids(&vec![0, 0]);
    assert!(ids.is_empty());
}

#[test]
fn begin_load_resource_reuses_existing() {
    let mut state = fresh();
    state.create_instance("alpha".to_string());
    let key = "alpha".to_string();
    assert_eq!(state.begin_load_resource(&key), Ok(ResourceNeed::MustCreate));
    assert_eq!(state.install_resource(&key, 11), Ok(()));
    assert_eq!(state.begin_load_resource(&key), Ok(ResourceNeed::Existing(11)));
}

#[test]
fn destroy_resource_also_drops_tasker() {
    let mut state = fresh();
    populated_instance(&mut state, "alpha");
    let key = "alpha".to_string();
    let actions = state.destroy_resource(&key).unwrap();
    assert_eq!(
        actions,
        vec![ReleaseAction::DestroyResource(11), ReleaseAction::DestroyTasker(33)]
    );
    assert_eq!(state.instances[0].runtime.resource, None);
    assert_eq!(state.instances[0].runtime.tasker, None);
    assert_eq!(state.instances[0].runtime.controller, Some(22));
}

#[test]
fn observe_instance_clears_stop_flag_when_idle() {
    let mut state = fresh();
    populated_instance(&mut state, "alpha");
    let key = "alpha".to_string();
    assert_eq!(
        state.request_stop(&key, 10_000, true),
        Ok(StopDecision::PostStop(33))
    );
    let st = state.observe_instance(&key, true, true, true, false).unwrap();
    assert!(st.connected);
    assert!(st.resource_loaded);
    assert!(st.tasker_inited);
    assert!(!st.is_running);
    assert!(!state.instances[0].runtime.stop_in_progress);
}

#[test]
fn observe_instance_treats_missing_handles_as_negative() {
    let mut state = fresh();
    state.create_instance("alpha".to_string());
    let st = state
        .observe_instance(&"alpha".to_string(), true, true, true, true)
        .unwrap();
    assert!(!st.connected);
    assert!(!st.resource_loaded);
    assert!(!st.tasker_inited);
    assert!(!st.is_running);
}

#[test]
fn probes_distinguish_missing_instance_from_missing_handle() {
    let mut state = fresh();
    state.create_instance("alpha".to_string());
    let key = "alpha".to_string();
    assert_eq!(state.running_probe(&key), Ok(None));
    assert_eq!(state.resource_probe(&key), Ok(None));
    assert_eq!(state.controller_probe(&key), Ok(None));
    assert_eq!(state.controller_handle(&key), Err(MaaError::ControllerMissing));
    assert_eq!(state.tasker_handle(&key), Err(MaaError::TaskerMissing));
    let ghost_key = "ghost".to_string();
    assert_eq!(state.running_probe(&ghost_key), Err(MaaError::InstanceNotFound));
    assert_eq!(state.tasker_handle(&ghost_key), Err(MaaError::InstanceNotFound));
}

#[test]
fn override_pipeline_capability_gate() {
    let mut state = fresh();
    populated_instance(&mut state, "alpha");
    let key = "alpha".to_string();
    assert_eq!(state.begin_override_pipeline(&key, true), Ok(33));
    assert_eq!(
        state.begin_override_pipeline(&key, false),
        Err(MaaError::OverridePipelineUnavailable)
    );
}

#[test]
fn cleanup_all_agent_children_kills_each_once() {
    let mut state = fresh();
    state.create_instance("alpha".to_string());
    state.create_instance("beta".to_string());
    state.create_instance("gamma".to_string());
    state.instances[0].runtime.agent_child = Some(71);
    state.instances[2].runtime.agent_child = Some(73);
    let kills = state.cleanup_all_agent_children();
    assert_eq!(kills, vec![ReleaseAction::KillChild(71), ReleaseAction::KillChild(73)]);
    for e in &state.instances {
        assert!(e.runtime.agent_child.is_none());
    }
}

#[test]
fn get_all_states_before_library_load_is_empty_map() {
    let states = vec![(
        "alpha".to_string(),
        maa_lifecycle::types::InstanceState {
            connected: true,
            resource_loaded: true,
            tasker_inited: true,
            is_running: true,
            task_ids: vec![1],
        },
    )];
    let snapshot = maa_lifecycle::registry::all_states(false, states, Vec::new(), Vec::new());
    assert!(snapshot.instances.is_empty());
}

#[test]
fn get_all_states_after_library_load_keeps_entries() {
    let states = vec![(
        "alpha".to_string(),
        maa_lifecycle::types::InstanceState {
            connected: false,
            resource_loaded: false,
            tasker_inited: false,
            is_running: false,
            task_ids: Vec::new(),
        },
    )];
    let snapshot = maa_lifecycle::registry::all_states(true, states, Vec::new(), Vec::new());
    assert_eq!(snapshot.instances.len(), 1);
    assert_eq!(snapshot.instances[0].0, "alpha");
}

#[test]
fn caches_are_replaced_wholesale() {
    let mut state = fresh();
    let w = maa_lifecycle::types::Win32Window {
        handle: 7,
        class_name: "cls".to_string(),
        window_name: "ttl".to_string(),
    };
    state.set_cached_win32_windows(vec![w]);
    assert_eq!(state.get_cached_win32_windows().len(), 1);
    state.set_cached_win32_windows(Vec::new());
    assert!(state.get_cached_win32_windows().is_empty());
    assert!(state.get_cached_adb_devices().is_empty());
}

#[test]
fn instance_ids_in_registry_order() {
    let mut state = fresh();
    state.create_instance("alpha".to_string());
    state.create_instance("beta".to_string());
    assert_eq!(state.instance_ids(), vec!["alpha".to_string(), "beta".to_string()]);
}
