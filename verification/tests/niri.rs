use ermete::json::Json;
use ermete::niri::{niri_outputs_in, niri_state_of};
use ermete::niri::{get_niri_state, niri_output_names};
use ermete::output::CommandOutput;

fn ok(s: &str) -> Option<CommandOutput> {
    Some(CommandOutput { success: true, stdout: s.as_bytes().to_vec() })
}

#[test]
fn niri_state_from_workspaces_and_windows() {
    let ws = ok(r#"[{"id":3,"is_active":false},{"id":5,"is_active":true},{"id":9,"is_active":true}]"#);
    let wins = ok(r#"[{"title":"a","is_focused":false},{"title":"Terminal","is_focused":true}]"#);
    let state = get_niri_state(ws, wins);
    assert_eq!(state.total_workspaces, 3);
    assert_eq!(state.active_workspace_id, Some(5));
    assert_eq!(state.focused_window_title, Some("Terminal".to_string()));
}

#[test]
fn niri_state_when_commands_fail() {
    let state = get_niri_state(None, Some(CommandOutput { success: false, stdout: b"[]".to_vec() }));
    assert_eq!(state.total_workspaces, 0);
    assert_eq!(state.active_workspace_id, None);
    assert_eq!(state.focused_window_title, None);
    let state = get_niri_state(ok("not json"), ok(r#"{"title":"x"}"#));
    assert_eq!(state.total_workspaces, 0);
    assert_eq!(state.focused_window_title, None);
}

#[test]
fn niri_state_odd_members() {
    // A non-integer id and a non-string title read as absent.
    let state = get_niri_state(
        ok(r#"[{"id":-1,"is_active":true}]"#),
        ok(r#"[{"title":7,"is_focused":true},{"title":"later","is_focused":true}]"#),
    );
    assert_eq!(state.total_workspaces, 1);
    assert_eq!(state.active_workspace_id, None);
    assert_eq!(state.focused_window_title, None);
}

#[test]
fn output_names_from_object_keys() {
    let names = niri_output_names(ok(r#"{"HDMI-A-1":{},"DP-2":{},"eDP-1":{}}"#));
    assert_eq!(names, vec!["DP-2", "HDMI-A-1", "eDP-1"]);
}

#[test]
fn output_names_from_array_sorted_and_deduplicated() {
    let names = niri_output_names(ok(r#"[{"name":"b"},{"name":"a"},{"x":1},{"name":"b"},{"name":"B"}]"#));
    assert_eq!(names, vec!["B", "a", "b"]);
}

#[test]
fn output_names_default() {
    assert_eq!(niri_output_names(None), vec!["eDP-1"]);
    assert_eq!(niri_output_names(ok("[]")), vec!["eDP-1"]);
    assert_eq!(niri_output_names(ok("42")), vec!["eDP-1"]);
}

fn obj(fields: Vec<(&str, Json)>) -> Json {
    Json::Object(fields.into_iter().map(|(k, v)| (k.to_string(), v)).collect())
}

#[test]
fn niri_state_from_parsed_lists() {
    let ws = vec![
        obj(vec![("id", Json::Number(Some(1))), ("is_active", Json::Bool(false))]),
        obj(vec![("id", Json::Number(Some(4))), ("is_active", Json::Bool(true))]),
    ];
    let wins = vec![obj(vec![("is_focused", Json::Bool(true)), ("title", Json::Str("Editor".to_string()))])];
    let state = niri_state_of(Some(ws), Some(wins));
    assert_eq!(state.total_workspaces, 2);
    assert_eq!(state.active_workspace_id, Some(4));
    assert_eq!(state.focused_window_title, Some("Editor".to_string()));
    let state = niri_state_of(None, Some(vec![Json::Null]));
    assert_eq!(state.total_workspaces, 0);
    assert_eq!(state.active_workspace_id, None);
    assert_eq!(state.focused_window_title, None);
}

#[test]
fn output_names_from_parsed_tree() {
    let tree = Json::Array(vec![
        obj(vec![("name", Json::Str("HDMI-A-1".to_string()))]),
        obj(vec![("name", Json::Str("DP-1".to_string()))]),
        obj(vec![("name", Json::Str("DP-1".to_string()))]),
    ]);
    assert_eq!(niri_outputs_in(Some(&tree)), vec!["DP-1", "HDMI-A-1"]);
    assert_eq!(niri_outputs_in(Some(&Json::Bool(true))), vec!["eDP-1"]);
    assert_eq!(niri_outputs_in(None), vec!["eDP-1"]);
}
