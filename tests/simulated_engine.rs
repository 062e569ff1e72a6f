use stylo_compute::servo_style_engine::{real_integration_enabled, ServoStyleEngine, ServoStyleError};

fn engine(css: &str) -> ServoStyleEngine {
    let mut e = ServoStyleEngine::new().unwrap();
    e.set_html("<div class='test'>Hello</div>").unwrap();
    e.add_stylesheet(css).unwrap();
    e
}

fn value(styles: &[(String, String)], name: &str) -> Option<String> {
    styles.iter().find(|(k, _)| k == name).map(|(_, v)| v.clone())
}

#[test]
fn simulation_follows_declarations() {
    let e = engine(".test { color: red; font-size: 24px; }");
    let q = e.new_query(".test", Some("color"), None);
    let styles = e.simulate_style_computation(&q);
    assert_eq!(styles.len(), 21);
    assert_eq!(value(&styles, "color").as_deref(), Some("rgb(255, 0, 0)"));
    assert_eq!(value(&styles, "font-size").as_deref(), Some("24px"));
    assert_eq!(value(&styles, "background-color").as_deref(), Some("rgba(0, 0, 0, 0)"));
    assert_eq!(value(&styles, "z-index").as_deref(), Some("auto"));
}

#[test]
fn simulation_defaults() {
    let e = engine("p { margin: 10px; }");
    let styles = e.simulate_style_computation(&e.new_query("p", None, None));
    assert_eq!(value(&styles, "color").as_deref(), Some("rgb(0, 0, 0)"));
    assert_eq!(value(&styles, "display").as_deref(), Some("block"));
    let e = engine("div { background-color: yellow }");
    let styles = e.simulate_style_computation(&e.new_query("div", None, None));
    assert_eq!(value(&styles, "background-color").as_deref(), Some("rgb(255, 255, 0)"));
}

#[test]
fn simulated_responses() {
    let e = engine(".test { color: red; }");
    let r = e.simulate_servo_response(e.new_query(".test", Some("color"), None));
    assert!(r.success);
    assert_eq!(ServoStyleEngine::computed_value_result(r).unwrap(), "rgb(255, 0, 0)");
    let r = e.simulate_servo_response(e.new_query(".test", Some("width"), None));
    assert!(!r.success);
    assert_eq!(r.error.as_deref(), Some("Property 'width' not found or invalid"));
    match ServoStyleEngine::computed_value_result(r) {
        Err(ServoStyleError::ProcessError(m)) => assert_eq!(m, "Property 'width' not found or invalid"),
        _ => panic!("expected an error"),
    }
    let all = e.simulate_servo_response(e.new_query(".test", None, Some("::before")));
    assert_eq!(ServoStyleEngine::computed_styles_result(all).unwrap().len(), 21);
}

#[test]
fn configuration_and_lookup() {
    assert!(real_integration_enabled("x = 1\nenable_real_integration = true\n"));
    assert!(!real_integration_enabled("enable_real_integration = false"));
    assert!(ServoStyleEngine::with_servo_path(Some("/nowhere".to_string()), false).is_ok());
    assert!(matches!(ServoStyleEngine::with_lookup(None, true, false), Err(ServoStyleError::ServoNotFound)));
    assert!(ServoStyleEngine::with_lookup(None, true, true).is_ok());
}

#[test]
fn real_query_page_and_result_line() {
    let e = engine(".test { color: red; }");
    let q = e.new_query(".test", Some("color"), None);
    let page = ServoStyleEngine::query_page(&q);
    assert!(page.starts_with("\n<!DOCTYPE html>"));
    assert!(page.contains("if ('color' !== '') {"));
    assert!(page.contains(&format!("id: '{}',", q.id)));
    assert!(page.contains("error: 'Element not found: .test'"));
    let r = ServoStyleEngine::stylo_result("a\nSTYLO_RESULT:{\"id\":\"1\"}\nSTYLO_RESULT:x", "e");
    assert_eq!(r.unwrap(), "{\"id\":\"1\"}");
    match ServoStyleEngine::stylo_result("none", "err") {
        Err(ServoStyleError::ProcessError(m)) => assert_eq!(m, "No valid response from Servo. Stdout: none, Stderr: err"),
        _ => panic!("expected an error"),
    }
    assert_eq!(ServoStyleError::Timeout.message(), "Timeout waiting for Servo response");
}
