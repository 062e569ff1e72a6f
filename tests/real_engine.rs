use stylo_compute::servo_style_engine_real::{ServoStyleEngineReal, ServoStyleError};

fn engine() -> ServoStyleEngineReal {
    let mut e = ServoStyleEngineReal::with_lookup(Some("/opt/servo".to_string()), true).unwrap();
    e.set_html("<p id=\"m\">x</p>").unwrap();
    e.add_stylesheet("#m { color: red; }").unwrap();
    e
}

fn communication(r: Result<String, ServoStyleError>) -> String {
    match r {
        Err(ServoStyleError::CommunicationError(m)) => m,
        other => panic!("expected a communication error, got {:?}", other),
    }
}

#[test]
fn real_engine_needs_servo() {
    assert!(matches!(ServoStyleEngineReal::with_lookup(None, false), Err(ServoStyleError::ServoNotFound)));
    assert_eq!(engine().servo_command(), "/opt/servo");
}

#[test]
fn extraction_page_for_property_and_all() {
    let e = engine();
    let one = e.create_style_extraction_html("#m", Some("color"));
    assert!(one.contains("        #m { color: red; }\n    </style>"));
    assert!(one.contains("<body>\n    <p id=\"m\">x</p>\n    <script>"));
    assert!(one.contains("document.querySelector('#m');"));
    assert!(one.contains("getPropertyValue('color');"));
    assert!(one.contains("property: 'color',"));
    let all = e.create_style_extraction_html("#m", None);
    assert!(all.contains("console.log('COMPUTED_STYLES_RESULT:' + JSON.stringify({"));
    assert!(!all.contains("getPropertyValue('color')"));
}

#[test]
fn output_answer_is_trimmed_json_after_mark() {
    let e = engine();
    let r = e.parse_servo_output("x\nCONSOLE COMPUTED_STYLE_RESULT:  {\"value\":\"red\"}  \n", "", "/tmp/p.txt");
    assert_eq!(r.unwrap(), "{\"value\":\"red\"}");
    let r = e.parse_servo_output("", "COMPUTED_STYLES_RESULT:{\"styles\":{}}", "/tmp/p.txt");
    assert_eq!(r.unwrap(), "{\"styles\":{}}");
}

#[test]
fn output_error_and_no_answer() {
    let e = engine();
    let m = communication(e.parse_servo_output(
        "COMPUTED_STYLE_ERROR:Element not found\nCOMPUTED_STYLE_RESULT:{}",
        "",
        "/tmp/p.txt",
    ));
    assert_eq!(m, "Servo error: Element not found");
    let m = communication(e.parse_servo_output("nothing here", "nor here", "/tmp/servo_parsed_1.txt"));
    assert_eq!(
        m,
        "No computed style result found in Servo output. Check result file: /tmp/servo_parsed_1.txt"
    );
}

#[test]
fn run_falls_back_to_page_file() {
    let e = engine();
    let page = "a\nCOMPUTED_STYLE_RESULT: {\"value\":\"1px\"}\n";
    let r = e.extracted_result("", "", Some(page), "/tmp/out.txt", "/tmp/p.txt");
    assert_eq!(r.unwrap(), "{\"value\":\"1px\"}");
    let m = communication(e.extracted_result("junk", "", Some("plain page"), "/tmp/out.txt", "/tmp/p.txt"));
    assert_eq!(m, "No computed style results found. Check output file: /tmp/out.txt");
    let r = e.extracted_result("junk", "", Some("x COMPUTED_STYLES_RESULT:"), "/tmp/o", "/tmp/p.txt");
    assert_eq!(r.unwrap(), "");
    let r = e.extracted_result("COMPUTED_STYLE_RESULT:{\"value\":\"2px\"}", "", None, "/tmp/o", "/tmp/p.txt");
    assert_eq!(r.unwrap(), "{\"value\":\"2px\"}");
}

#[test]
fn answer_gives_response() {
    let r = ServoStyleEngineReal::answer_response("id1", true, "{\"selector\":\"#m\",\"value\":\"red\"}").unwrap();
    assert_eq!(r.id, "id1");
    assert_eq!(r.computed_value.as_deref(), Some("red"));
    let r = ServoStyleEngineReal::answer_response("id2", false, "{\"styles\":{\"color\":\"red\"}}").unwrap();
    assert_eq!(r.computed_styles.unwrap(), vec![("color".to_string(), "red".to_string())]);
    assert!(ServoStyleEngineReal::answer_response("id3", false, "{\"styles\":{\"n\":1}}").is_err());
    let m = communication(ServoStyleEngineReal::answer_response("id4", true, "{\"value\":3}").map(|r| r.id));
    assert_eq!(m, "JSON parse error: no string member value. Raw content: {\"value\":3}");
}

#[test]
fn real_response_outcomes() {
    let ok = ServoStyleEngineReal::answer_response("a", true, "{\"value\":\"16px\"}").unwrap();
    assert_eq!(ServoStyleEngineReal::computed_value_result(ok).unwrap(), "16px");
    let styles = ServoStyleEngineReal::answer_response("b", false, "{\"styles\":{}}").unwrap();
    match ServoStyleEngineReal::computed_value_result(styles) {
        Err(ServoStyleError::ComputationError(m)) => assert_eq!(m, "No computed value returned"),
        _ => panic!("expected an error"),
    }
    assert_eq!(
        ServoStyleError::CommunicationError("x".to_string()).message(),
        "Servo process communication error: x"
    );
}

#[test]
fn parsed_report_for_single_property() {
    let e = engine();
    let out = "COMPUTED_STYLE_RESULT: {\"selector\":\"#m\",\"property\":\"color\",\"value\":\"red\"} ";
    assert_eq!(
        e.parsed_report(out, ""),
        "SINGLE PROPERTY RESULT:\n#m -> color: red\n\nRAW JSON:\n{\"selector\":\"#m\",\"property\":\"color\",\"value\":\"red\"}\n"
    );
    assert_eq!(
        e.parsed_report("COMPUTED_STYLE_RESULT:{oops", ""),
        "SINGLE PROPERTY RESULT (RAW):\n{oops\n"
    );
    assert_eq!(e.parsed_report("COMPUTED_STYLE_RESULT:{\"value\":\"red\"}", ""), "");
}

#[test]
fn parsed_report_for_all_styles() {
    let e = engine();
    let json = "{\"selector\":\".h\",\"styles\":{\"width\":\"auto\",\"color\":\"red\",\"display\":\"block\",\"height\":\"0px\",\"x\":\"1\"}}";
    let out = format!("COMPUTED_STYLES_RESULT:{}", json);
    assert_eq!(
        e.parsed_report(&out, ""),
        format!(
            "ALL STYLES RESULT:\n.h has 5 computed properties\n\nKEY PROPERTIES:\n  color: red\n  display: block\n\nRAW JSON:\n{}\n",
            json
        )
    );
}

#[test]
fn parsed_report_for_error_and_nothing() {
    let e = engine();
    assert_eq!(e.parsed_report("COMPUTED_STYLE_ERROR:boom", ""), "ERROR:\nboom\n");
    assert_eq!(e.parsed_report("a", "b"), "NO RESULT FOUND\n\nSTDOUT:\na\n\nSTDERR:\nb\n");
    assert_eq!(e.extraction_report("", "", None), None);
    assert_eq!(
        e.extraction_report("junk", "", Some("COMPUTED_STYLE_RESULT:x")).as_deref(),
        Some("SINGLE PROPERTY RESULT (RAW):\nx\n")
    );
    assert_eq!(
        e.extraction_report("junk", "", Some("plain")).as_deref(),
        Some("NO RESULT FOUND\n\nSTDOUT:\njunk\n\nSTDERR:\n\n")
    );
}

#[test]
fn new_query_ids_have_uuid_shape() {
    let q = engine().new_query("#m", None);
    assert_eq!(q.id.len(), 36);
    assert!(q.id.chars().all(|c| c.is_ascii_digit() || ('a'..='f').contains(&c) || c == '-'));
    assert!(!q.id.contains(':'));
}

#[test]
fn styles_name_each_property_once() {
    let r = ServoStyleEngineReal::answer_response("i", false, "{\"styles\":{\"a\":\"1\",\"a\":\"2\"}}").unwrap();
    assert_eq!(r.computed_styles.unwrap().len(), 1);
}
