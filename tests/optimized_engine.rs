use stylo_compute::query::StyleQuery;
use stylo_compute::servo_style_engine_optimized::{
    property_requests, ServoStyleEngineOptimized, ServoStyleError,
};

fn engine() -> ServoStyleEngineOptimized {
    let mut e = ServoStyleEngineOptimized::with_lookup(None, false, 5, true).unwrap();
    e.set_html("<div class=\"t\">x</div>").unwrap();
    e.add_stylesheet(".t { color: red; }").unwrap();
    e.add_stylesheet("p { margin: 1px; }").unwrap();
    e
}

fn query(id: &str, selector: &str, property: Option<&str>) -> StyleQuery {
    StyleQuery {
        id: id.to_string(),
        html: String::new(),
        css: String::new(),
        selector: selector.to_string(),
        property: property.map(|p| p.to_string()),
        pseudo_element: None,
    }
}

#[test]
fn servo_not_found_without_executable() {
    let r = ServoStyleEngineOptimized::with_lookup(Some("/no/servo".to_string()), true, 5, false);
    assert!(matches!(r, Err(ServoStyleError::ServoNotFound)));
}

#[test]
fn stylesheets_are_joined_by_newlines() {
    let e = engine();
    assert_eq!(e.combined_css(), ".t { color: red; }\np { margin: 1px; }");
    assert!(!e.uses_daemon());
    assert_eq!(e.servo_command(), "servo");
}

#[test]
fn new_query_fills_page_and_random_id() {
    let e = engine();
    let a = e.new_query(".t", Some("color"));
    let b = e.new_query(".t", None);
    assert_eq!(a.html, "<div class=\"t\">x</div>");
    assert_eq!(a.css, e.combined_css());
    assert_eq!(a.property.as_deref(), Some("color"));
    assert!(b.property.is_none());
    assert_eq!(a.id.len(), 36);
    assert_ne!(a.id, b.id);
}

#[test]
fn batch_page_holds_each_query() {
    let e = engine();
    let qs = vec![query("q1", ".t", Some("color")), query("q2", "#m", None)];
    let page = e.create_batch_html(&qs);
    assert!(page.starts_with("<!DOCTYPE html>\n<html>\n<head>\n    <style>\n        .t { color: red; }"));
    assert!(page.contains("console.log('BATCH_START:2');"));
    assert!(page.contains("document.querySelector('.t');"));
    assert!(page.contains("getPropertyValue('color');"));
    assert!(page.contains("console.log('COMPUTED_STYLE_RESULT:q1:' + JSON.stringify({"));
    assert!(page.contains("console.log('COMPUTED_STYLES_RESULT:q2:' + JSON.stringify({"));
    assert!(page.contains("var styles = {};"));
    assert!(page.ends_with("</script>\n</body>\n</html>"));
}

#[test]
fn batch_output_gives_responses_in_line_order() {
    let e = engine();
    let qs = vec![query("q1", ".t", Some("color")), query("q2", "#m", None), query("q3", "p", Some("x"))];
    let stdout = "noise\nCONSOLE: COMPUTED_STYLE_RESULT:q1:{\"value\":\"rgb(255, 0, 0)\"}\n";
    let stderr = "COMPUTED_STYLES_RESULT:q2:{\"styles\":{\"color\":\"red\",\"n\":3}}\r\n";
    let rs = e.parse_batch_output(stdout, stderr, &qs).unwrap();
    assert_eq!(rs.len(), 3);
    assert_eq!(rs[0].id, "q1");
    assert!(rs[0].success);
    assert_eq!(rs[0].computed_value.as_deref(), Some("rgb(255, 0, 0)"));
    assert_eq!(rs[1].id, "q2");
    assert_eq!(
        rs[1].computed_styles.clone().unwrap(),
        vec![("color".to_string(), "red".to_string()), ("n".to_string(), String::new())]
    );
    assert_eq!(rs[2].id, "q3");
    assert!(!rs[2].success);
    assert_eq!(rs[2].error.as_deref(), Some("No result found in batch output"));
}

#[test]
fn unparsable_result_line_gives_no_response() {
    let e = engine();
    let qs = vec![query("q1", ".t", Some("color"))];
    let rs = e.parse_batch_output("COMPUTED_STYLE_RESULT:q1:{not json}\nCOMPUTED_STYLE_RESULT:nocolon", "", &qs).unwrap();
    assert_eq!(rs.len(), 1);
    assert!(!rs[0].success);
}

#[test]
fn computed_value_of_first_response() {
    let e = engine();
    let qs = vec![query("q1", ".t", Some("color"))];
    let rs = e.parse_batch_output("COMPUTED_STYLE_RESULT:q1:{\"value\":\"16px\"}", "", &qs).unwrap();
    assert_eq!(ServoStyleEngineOptimized::computed_value_result(rs).unwrap(), "16px");
    match ServoStyleEngineOptimized::computed_value_result(Vec::new()) {
        Err(ServoStyleError::ComputationError(m)) => assert_eq!(m, "No response received"),
        _ => panic!("expected an error"),
    }
    let failed = e.parse_batch_output("", "", &qs).unwrap();
    match ServoStyleEngineOptimized::computed_styles_result(failed) {
        Err(ServoStyleError::ComputationError(m)) => assert_eq!(m, "No result found in batch output"),
        _ => panic!("expected an error"),
    }
}

#[test]
fn batch_results_label_and_encode() {
    let e = engine();
    let qs = vec![query("q1", ".t", None), query("q2", "#m", Some("color"))];
    let rs = e
        .parse_batch_output("COMPUTED_STYLES_RESULT:q1:{\"styles\":{\"b\":\"2\",\"a\":\"1\"}}", "", &qs)
        .unwrap();
    let requests = vec![(".t".to_string(), None)];
    let results = ServoStyleEngineOptimized::batch_results(&requests, rs);
    assert_eq!(results.len(), 2);
    assert_eq!(results[0].0, ".t");
    assert_eq!(results[0].1.as_ref().unwrap(), "{\"a\":\"1\",\"b\":\"2\"}");
    assert_eq!(results[1].0, "query_1");
    assert!(matches!(&results[1].1, Err(ServoStyleError::ComputationError(m)) if m == "No result found in batch output"));
}

#[test]
fn batch_queries_follow_requests() {
    let e = engine();
    let reqs = property_requests(&vec![(".a".to_string(), "color".to_string(), None)]);
    assert_eq!(reqs, vec![(".a".to_string(), Some("color".to_string()))]);
    let qs = e.batch_queries(&reqs);
    assert_eq!(qs.len(), 1);
    assert_eq!(qs[0].selector, ".a");
    assert_eq!(qs[0].property.as_deref(), Some("color"));
}

#[test]
fn optimized_error_messages() {
    assert_eq!(ServoStyleError::ServoNotFound.message(), "Servo executable not found");
    assert_eq!(ServoStyleError::DaemonError("x".to_string()).message(), "Servo daemon not available: x");
}
