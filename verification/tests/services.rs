use ermete::json::{Json, JsonDoc};
use ermete::notifications::notification_id;
use ermete::updater::{layer0_in, layer1_in, UpdateStep};
use ermete::notifications::{upsert_notification, Notification};
use ermete::output::CommandOutput;
use ermete::portal::{ErmetePortal, PortalResource};
use ermete::telemetry::{Bedrock, CoredumpWatcher, GitHubReporter};
use ermete::updater::{UpdateEngine, UpdateStatus, UpdaterIface};
use ermete::watcher::{is_config_event, is_window_event};

fn n(id: u32, s: &str) -> Notification {
    Notification { id, summary: s.to_string(), body: String::new() }
}

#[test]
fn notifications_replace_or_go_on_top() {
    let mut list = Vec::new();
    upsert_notification(&mut list, n(1, "a"));
    upsert_notification(&mut list, n(2, "b"));
    assert_eq!(list, vec![n(2, "b"), n(1, "a")]);
    upsert_notification(&mut list, n(1, "a2"));
    assert_eq!(list, vec![n(2, "b"), n(1, "a2")]);
    assert_eq!(list.len(), 2);
}

fn out(ok: bool, s: &str) -> CommandOutput {
    CommandOutput { success: ok, stdout: s.as_bytes().to_vec() }
}

#[test]
fn updater_layer1() {
    let engine = UpdateEngine::new();
    assert_eq!(engine.check_layer1(&out(true, r#"{"x":"AvailableUpdate"}"#)), Some(UpdateStatus::Layer1AppliedLive));
    assert_eq!(engine.check_layer1(&out(true, r#"{"AvailableUpdate":1}"#)), Some(UpdateStatus::Layer1AppliedLive));
    assert_eq!(engine.check_layer1(&out(false, r#"{"x":"AvailableUpdate"}"#)), None);
    assert_eq!(engine.check_layer1(&out(true, "AvailableUpdate")), None);
    assert_eq!(engine.check_layer1(&out(true, r#"{"deployments":[]}"#)), None);
}

#[test]
fn updater_layer0() {
    let engine = UpdateEngine::new();
    assert_eq!(
        engine.check_layer0(&out(true, r#"{"status":{"type":"updateAvailable"}}"#)),
        UpdateStatus::Layer0RebootRequired
    );
    assert_eq!(engine.check_layer0(&out(true, r#"{"note":"updateAvailable soon"}"#)), UpdateStatus::Layer0RebootRequired);
    assert_eq!(engine.check_layer0(&out(true, r#"{"status":{"type":"idle"}}"#)), UpdateStatus::NoUpdates);
    assert_eq!(engine.check_layer0(&out(false, r#"{"status":{"type":"updateAvailable"}}"#)), UpdateStatus::NoUpdates);
    assert_eq!(engine.check_layer0(&out(true, "garbage")), UpdateStatus::NoUpdates);
}

#[test]
fn updater_interface_answers() {
    let iface = UpdaterIface;
    assert_eq!(iface.apply_updates(true), Ok("Update triggered successfully. Check journalctl for logs.".to_string()));
    assert_eq!(
        iface.apply_updates(false),
        Err("Not authorized: applying updates requires Polkit authentication.".to_string())
    );
    assert_eq!(iface.check_updates(), "Updates available: Yes. Reboot required: No.");
}

#[test]
fn portal_decisions() {
    assert_eq!(ErmetePortal::resource_name(PortalResource::ScreenCast), "ScreenCast");
    assert_eq!(ErmetePortal::resource_name(PortalResource::Microphone), "Microphone");
    assert_eq!(ErmetePortal::prompt_argument("Camera", "org.app"), "Camera:org.app");
    assert!(ErmetePortal::is_granted(Some(true)));
    assert!(!ErmetePortal::is_granted(Some(false)));
    assert!(!ErmetePortal::is_granted(None));
    assert_eq!(ErmetePortal::response_code(true), 0);
    assert_eq!(ErmetePortal::response_code(false), 1);
}

#[test]
fn telemetry_and_bedrock() {
    let mut watcher = CoredumpWatcher::new();
    assert_eq!(watcher.poll_new_crashes(), None);
    let reporter = GitHubReporter::new();
    assert!(reporter.report_crash("trace").is_ok());
    assert_eq!(Bedrock.ping(), "pong");
}

#[test]
fn watcher_decisions() {
    assert!(is_window_event(r#"{"WindowOpenedOrChanged":{}}"#));
    assert!(is_window_event(r#"{"WorkspaceActivated":{}}"#));
    assert!(!is_window_event(r#"{"KeyboardLayoutSwitched":{}}"#));
    let names = vec![Some("other.json".to_string()), Some("dock.json".to_string())];
    assert!(is_config_event(true, false, &names, Some("dock.json")));
    assert!(is_config_event(false, true, &names, Some("dock.json")));
    assert!(!is_config_event(false, false, &names, Some("dock.json")));
    assert!(!is_config_event(true, false, &names, Some("x.json")));
    assert!(is_config_event(true, false, &vec![None], None));
}

#[test]
fn update_order_and_parsed_documents() {
    let engine = UpdateEngine::new();
    assert_eq!(
        engine.after_layer1(&out(true, r#"{"AvailableUpdate":true}"#)),
        UpdateStep::Done(UpdateStatus::Layer1AppliedLive)
    );
    assert_eq!(engine.after_layer1(&out(true, r#"{"deployments":[]}"#)), UpdateStep::CheckLayer0);
    assert_eq!(engine.after_layer1(&out(false, "")), UpdateStep::CheckLayer0);

    let typed = JsonDoc {
        tree: Json::Object(vec![(
            "status".to_string(),
            Json::Object(vec![("type".to_string(), Json::Str("updateAvailable".to_string()))]),
        )]),
        text: "{}".to_string(),
    };
    assert!(layer0_in(&typed));
    let idle = JsonDoc { tree: Json::Null, text: "null".to_string() };
    assert!(!layer0_in(&idle));
    assert!(!layer1_in(&idle));
    let mentioned = JsonDoc { tree: Json::Null, text: "x AvailableUpdate updateAvailable".to_string() };
    assert!(layer1_in(&mentioned));
    assert!(layer0_in(&mentioned));
}

#[test]
fn notification_ids() {
    assert_eq!(notification_id(7, 99), 7);
    assert_eq!(notification_id(0, 99), 99);
}
