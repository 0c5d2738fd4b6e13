use rebazel::trigger::handle_event;
use rebazel::trigger::EventAction;
use rebazel::trigger::WatchEvent;
use rebazel::watchset::watch_list;

#[test]
fn source_change_relaunches_without_rebuild() {
    let a = handle_event(&WatchEvent::Write("app/a.go".to_string()));
    assert_eq!(a, EventAction::Relaunch { rebuild: false });
}

#[test]
fn source_removal_relaunches_without_rebuild() {
    let a = handle_event(&WatchEvent::Remove("app/a.go".to_string()));
    assert_eq!(a, EventAction::Relaunch { rebuild: false });
}

#[test]
fn source_rename_relaunches_without_rebuild() {
    let a = handle_event(&WatchEvent::Rename(
        "app/a.go".to_string(),
        "app/b.go".to_string(),
    ));
    assert_eq!(a, EventAction::Relaunch { rebuild: false });
}

#[test]
fn buildfile_change_rebuilds_watches_before_relaunch() {
    let a = handle_event(&WatchEvent::Write("app/BUILD".to_string()));
    assert_eq!(a, EventAction::Relaunch { rebuild: true });
}

#[test]
fn build_extension_change_rebuilds_watches() {
    let a = handle_event(&WatchEvent::Remove("tools/defs.bzl".to_string()));
    assert_eq!(a, EventAction::Relaunch { rebuild: true });
}

#[test]
fn irrelevant_events_are_ignored() {
    assert_eq!(handle_event(&WatchEvent::Other), EventAction::Ignore);
}

#[test]
fn initial_watch_set_is_the_normalized_query_results() {
    let source_outputs = vec!["//app:a.go\n//app:b.go\n@remote//x:y\n".to_string()];
    let build_outputs = vec!["//app:BUILD\n".to_string()];
    assert_eq!(
        watch_list(&source_outputs, &build_outputs),
        vec![
            "app/a.go".to_string(),
            "app/b.go".to_string(),
            "app/BUILD".to_string(),
        ]
    );
}

#[test]
fn watch_set_lists_each_target_in_order() {
    let source_outputs = vec!["//app:a.go\n".to_string(), "//lib:l.go\n".to_string()];
    let build_outputs = vec!["//app:BUILD\n".to_string(), "//lib:BUILD\n".to_string()];
    assert_eq!(
        watch_list(&source_outputs, &build_outputs),
        vec![
            "app/a.go".to_string(),
            "app/BUILD".to_string(),
            "lib/l.go".to_string(),
            "lib/BUILD".to_string(),
        ]
    );
}

#[test]
fn empty_query_results_watch_nothing() {
    let source_outputs = vec!["".to_string()];
    let build_outputs = vec!["".to_string()];
    assert_eq!(
        watch_list(&source_outputs, &build_outputs),
        Vec::<String>::new()
    );
}
