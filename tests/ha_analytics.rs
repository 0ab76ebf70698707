use zeroclaw::ha_report::{HomeAssistantReportTool, ToolArgError};
use zeroclaw::home_assistant::{render_insights, HaState, HomeAssistantClient, HomeHabitAnalyzer};

fn state(entity_id: &str, state: &str) -> HaState {
    HaState {
        entity_id: entity_id.into(),
        state: state.into(),
        last_changed: "2024-02-22T08:00:00Z".into(),
    }
}

#[test]
fn test_analyze_lights() {
    let states = vec![
        HaState {
            entity_id: "light.living_room".into(),
            state: "on".into(),
            last_changed: "2024-02-22T08:00:00Z".into(),
        },
        HaState {
            entity_id: "light.kitchen".into(),
            state: "off".into(),
            last_changed: "2024-02-22T07:00:00Z".into(),
        },
        HaState {
            entity_id: "sensor.temp_living_room".into(),
            state: "22.5".into(),
            last_changed: "2024-02-22T08:00:00Z".into(),
        },
    ];

    let analyzer = HomeHabitAnalyzer::new();
    let summary = analyzer.analyze(&states);

    assert_eq!(summary.active_lights.len(), 1);
    assert_eq!(summary.active_lights[0], "light.living_room");
    assert!(summary.message.contains("1 light is on"));
    assert!(!summary.suggestions.is_empty());
    assert!(summary.suggestions[0].contains("save energy"));
}

#[test]
fn analyze_no_lights_and_many_lights() {
    let analyzer = HomeHabitAnalyzer::new();
    let none = analyzer.analyze(&[state("light.a", "off"), state("switch.b", "on")]);
    assert!(none.active_lights.is_empty());
    assert_eq!(none.message, "All lights are off.");
    assert!(none.suggestions.is_empty());
    assert_eq!(render_insights(&none), "All lights are off.");

    let many = analyzer.analyze(&[
        state("light.a", "on"),
        state("light.b", "on"),
        state("lights.c", "on"),
        state("light.d", "ON"),
    ]);
    assert_eq!(many.active_lights, vec!["light.a", "light.b"]);
    assert_eq!(many.message, "2 lights are on.");
    assert_eq!(
        many.suggestions,
        vec!["You have 2 light(s) on. Would you like me to turn them off to save energy?"]
    );
}

#[test]
fn insights_text_lists_suggestions() {
    let summary = HomeHabitAnalyzer::new().analyze(&[state("light.kitchen", "on")]);
    assert_eq!(
        render_insights(&summary),
        "1 light is on: light.kitchen.\n\nSuggestions:\n- You have 1 light(s) on. Would you like me to turn them off to save energy?\n"
    );
}

#[test]
fn test_ha_client_construction() {
    let client = HomeAssistantClient::new("http://localhost:8123".to_string(), "test_token".to_string());
    assert_eq!(client.base_url(), "http://localhost:8123");
}

#[test]
fn ha_client_endpoints() {
    let client = HomeAssistantClient::new("http://ha.local:8123//".to_string(), "tok".to_string());
    assert_eq!(client.base_url(), "http://ha.local:8123");
    assert_eq!(client.access_token(), "tok");
    assert_eq!(client.states_url(), "http://ha.local:8123/api/states");
    assert_eq!(
        client.state_url("light.living_room"),
        "http://ha.local:8123/api/states/light.living_room"
    );
    assert_eq!(client.authorization(), "Bearer tok");
}

#[test]
fn report_tool_arguments() {
    let tool = HomeAssistantReportTool::new();
    assert_eq!(tool.name(), "ha_report");
    assert_eq!(
        tool.description(),
        "Fetch a summary of home status and analytics from Home Assistant."
    );
    assert!(matches!(tool.client_for(None, Some("t")), Err(ToolArgError::MissingBaseUrl)));
    assert!(matches!(tool.client_for(Some("http://h/"), None), Err(ToolArgError::MissingAccessToken)));
    assert_eq!(ToolArgError::MissingBaseUrl.message(), "Missing base_url");
    assert_eq!(ToolArgError::MissingAccessToken.message(), "Missing access_token");
    let client = tool.client_for(Some("http://h/"), Some("t")).unwrap();
    assert_eq!(client.base_url(), "http://h");
}

#[test]
fn report_tool_results() {
    let tool = HomeAssistantReportTool::new();
    let ok = tool.report_result(Ok("1 light is on: light.kitchen.".to_string()));
    assert!(ok.success);
    assert!(ok.output.contains("1 light is on"));
    assert!(ok.error.is_none());
    let err = tool.report_result(Err("timeout".to_string()));
    assert!(!err.success);
    assert!(err.output.is_empty());
    assert_eq!(
        err.error.as_deref(),
        Some("Failed to fetch Home Assistant insights: timeout")
    );
}
