//! The engine that asks Servo one query per page and reads the answer from
//! its output.
use vstd::prelude::*;
use crate::json::{
    json_object_member, json_parses, json_string_member, object_member, parses_as_json,
    string_member,
};
use crate::query::{is_query_id, new_query_id, servo_available, ResponseView, StyleQuery, StyleResponse, ERROR_MARK, STYLES_MARK, VALUE_MARK};
use crate::style_map::{distinct_keys, member_views, opt_view, pair_views};
use crate::template::{fill, filled, str_views, PAGE};
use crate::text::{
    char_views, chars_of, contains, contains_exec, decimal, decimal_exec, join, join_exec, lines,
    lines_exec, prefixed, second_field, second_field_exec, string_from_chars, trim, trim_exec,
};

verus! {

/// Reports one property of the element that a selector picks once the page has loaded; filled with the selector, the property, the selector and the property.
pub const PROPERTY_EXTRACTION_SCRIPT: [&'static str; 5] = [
    r#"
                window.addEventListener('load', function() {
                    try {
                        var element = document.querySelector('"#,
    r#"');
                        if (element) {
                            var computedStyle = window.getComputedStyle(element);
                            var value = computedStyle.getPropertyValue('"#,
    r#"');
                            console.log('COMPUTED_STYLE_RESULT:' + JSON.stringify({
                                selector: '"#,
    r#"',
                                property: '"#,
    r#"',
                                value: value
                            }));
                        } else {
                            console.log('COMPUTED_STYLE_ERROR:Element not found');
                        }
                    } catch (e) {
                        console.log('COMPUTED_STYLE_ERROR:' + e.message);
                    }
                    // Give Servo more time to log then exit
                    setTimeout(function() { window.close(); }, 500);
                });
            "#,
];

/// Reports every computed property of the element that a selector picks once the page has loaded; filled with the selector twice.
pub const STYLES_EXTRACTION_SCRIPT: [&'static str; 3] = [
    r#"
                window.addEventListener('load', function() {
                    try {
                        var element = document.querySelector('"#,
    r#"');
                        if (element) {
                            var computedStyle = window.getComputedStyle(element);
                            var styles = {};
                            for (var i = 0; i < computedStyle.length; i++) {
                                var propName = computedStyle[i];
                                styles[propName] = computedStyle.getPropertyValue(propName);
                            }
                            console.log('COMPUTED_STYLES_RESULT:' + JSON.stringify({
                                selector: '"#,
    r#"',
                                styles: styles
                            }));
                        } else {
                            console.log('COMPUTED_STYLE_ERROR:Element not found');
                        }
                    } catch (e) {
                        console.log('COMPUTED_STYLE_ERROR:' + e.message);
                    }
                    setTimeout(function() { window.close(); }, 500);
                });
            "#,
];

/// The error when no line of the output reports an answer; the path of the
/// file that keeps the parsed result follows it.
pub const NO_RESULT: &'static str = "No computed style result found in Servo output. Check result file: ";

/// The properties that a report of all properties lists, where they are set.
pub const KEY_PROPERTIES: [&'static str; 7] = [
    "color",
    "font-size",
    "font-weight",
    "background-color",
    "display",
    "width",
    "height",
];

/// What can go wrong while computing styles through Servo.
#[derive(Debug)]
pub enum ServoStyleError {
    ServoNotFound,
    ProcessStartError(String),
    CommunicationError(String),
    SerializationError(String),
    ComputationError(String),
}

/// The message that describes the error.
pub open spec fn message_of(e: ServoStyleError) -> Seq<char> {
    match e {
        ServoStyleError::ServoNotFound => "Servo executable not found"@,
        ServoStyleError::ProcessStartError(s) => "Failed to start Servo process: "@ + s@,
        ServoStyleError::CommunicationError(s) => "Servo process communication error: "@ + s@,
        ServoStyleError::SerializationError(s) => "JSON serialization error: "@ + s@,
        ServoStyleError::ComputationError(s) => "Style computation failed: "@ + s@,
    }
}

impl ServoStyleError {
    /// The message that describes the error.
    pub fn message(&self) -> (r: String)
        ensures
            r@ == message_of(*self),
    {
        match self {
            ServoStyleError::ServoNotFound => String::from_str("Servo executable not found"),
            ServoStyleError::ProcessStartError(s) => prefixed("Failed to start Servo process: ", s.as_str()),
            ServoStyleError::CommunicationError(s) => prefixed("Servo process communication error: ", s.as_str()),
            ServoStyleError::SerializationError(s) => prefixed("JSON serialization error: ", s.as_str()),
            ServoStyleError::ComputationError(s) => prefixed("Style computation failed: ", s.as_str()),
        }
    }
}

/// A style engine that runs Servo headless on a page made for each query.
pub struct ServoStyleEngineReal {
    base_html: String,
    stylesheets: Vec<String>,
    servo_path: Option<String>,
}

/// What a [`ServoStyleEngineReal`] holds.
pub struct RealView {
    pub html: Seq<char>,
    pub stylesheets: Seq<Seq<char>>,
    pub servo_path: Option<Seq<char>>,
}

impl View for ServoStyleEngineReal {
    type V = RealView;

    closed spec fn view(&self) -> RealView {
        RealView {
            html: self.base_html@,
            stylesheets: self.stylesheets@.map_values(|s: String| s@),
            servo_path: opt_view(self.servo_path),
        }
    }
}

/// An engine with no page and no style sheet yet.
pub open spec fn fresh(servo_path: Option<Seq<char>>) -> RealView {
    RealView { html: Seq::empty(), stylesheets: Seq::empty(), servo_path }
}

/// The style sheets of the engine, one after another.
pub open spec fn css_of(e: RealView) -> Seq<char> {
    join(e.stylesheets, "\n"@)
}

/// The page that reports `property` (or all properties) of the element that
/// `selector` picks.
pub open spec fn extraction_page(
    css: Seq<char>,
    html: Seq<char>,
    selector: Seq<char>,
    property: Option<Seq<char>>,
) -> Seq<char> {
    let script = match property {
        Some(p) => filled(str_views(PROPERTY_EXTRACTION_SCRIPT@), seq![selector, p, selector, p]),
        None => filled(str_views(STYLES_EXTRACTION_SCRIPT@), seq![selector, selector]),
    };
    filled(str_views(PAGE@), seq![css, html, script])
}

/// What one output line says: an answer (the trimmed JSON text after its
/// mark), a reported failure, or nothing.
pub open spec fn line_outcome(line: Seq<char>) -> Option<Result<Seq<char>, Seq<char>>> {
    match second_field(line, VALUE_MARK@) {
        Some(json) => Some(Ok(trim(json))),
        None => match second_field(line, STYLES_MARK@) {
            Some(json) => Some(Ok(trim(json))),
            None => match second_field(line, ERROR_MARK@) {
                Some(e) => Some(Err("Servo error: "@ + e)),
                None => None,
            },
        },
    }
}

/// The first line that says something.
pub open spec fn first_decisive(ls: Seq<Seq<char>>) -> Option<Seq<char>>
    decreases ls.len(),
{
    if ls.len() == 0 {
        None
    } else if line_outcome(ls[0]) is Some {
        Some(ls[0])
    } else {
        first_decisive(ls.drop_first())
    }
}

/// The first line of Servo's output that says something: standard output is
/// read first.
pub open spec fn decisive_line(stdout: Seq<char>, stderr: Seq<char>) -> Option<Seq<char>> {
    first_decisive(lines(stdout) + lines(stderr))
}

/// What Servo's output says; where no line says anything, a failure that
/// names the file `result_path` that keeps the parsed result.
pub open spec fn output_outcome(stdout: Seq<char>, stderr: Seq<char>, result_path: Seq<char>) -> Result<Seq<char>, Seq<char>> {
    match decisive_line(stdout, stderr) {
        Some(l) => match line_outcome(l) {
            Some(o) => o,
            None => Err(NO_RESULT@ + result_path),
        },
        None => Err(NO_RESULT@ + result_path),
    }
}

/// Whether Servo's output holds an answer.
pub open spec fn output_answers(stdout: Seq<char>, stderr: Seq<char>) -> bool {
    match decisive_line(stdout, stderr) {
        Some(l) => line_outcome(l) matches Some(Ok(_)),
        None => false,
    }
}

/// The value of the first entry named `k`.
pub open spec fn member_lookup(es: Seq<(Seq<char>, Option<Seq<char>>)>, k: Seq<char>) -> Option<Option<Seq<char>>>
    decreases es.len(),
{
    if es.len() == 0 {
        None
    } else if es[0].0 == k {
        Some(es[0].1)
    } else {
        member_lookup(es.drop_first(), k)
    }
}

/// The report line of property `k`: where its value is a string that is not
/// empty, `auto` or `0px`.
pub open spec fn key_line(es: Seq<(Seq<char>, Option<Seq<char>>)>, k: Seq<char>) -> Seq<char> {
    match member_lookup(es, k) {
        Some(Some(v)) => if v.len() > 0 && v != "auto"@ && v != "0px"@ {
            "  "@ + k + ": "@ + v + "\n"@
        } else {
            Seq::empty()
        },
        _ => Seq::empty(),
    }
}

/// The report lines of the properties `ks`, in order.
pub open spec fn key_lines(es: Seq<(Seq<char>, Option<Seq<char>>)>, ks: Seq<Seq<char>>) -> Seq<char>
    decreases ks.len(),
{
    if ks.len() == 0 {
        Seq::empty()
    } else {
        key_lines(es, ks.drop_last()) + key_line(es, ks.last())
    }
}

/// The report of a one-property answer: selector, property and value, then
/// the JSON text; the bare text where it is no JSON; nothing where a member
/// is missing.
pub open spec fn single_report(json: Seq<char>) -> Seq<char> {
    if !json_parses(json) {
        "SINGLE PROPERTY RESULT (RAW):\n"@ + json + "\n"@
    } else {
        match (
            json_string_member(json, "selector"@),
            json_string_member(json, "property"@),
            json_string_member(json, "value"@),
        ) {
            (Some(sel), Some(prop), Some(v)) => "SINGLE PROPERTY RESULT:\n"@ + sel + " -> "@ + prop
                + ": "@ + v + "\n\nRAW JSON:\n"@ + json + "\n"@,
            _ => Seq::empty(),
        }
    }
}

/// The report of an all-properties answer: the selector with the number of
/// properties, the key properties that are set, then the JSON text; the bare
/// text where it is no JSON; nothing where a member is missing.
pub open spec fn styles_report(json: Seq<char>) -> Seq<char> {
    if !json_parses(json) {
        "ALL STYLES RESULT (RAW):\n"@ + json + "\n"@
    } else {
        match (json_string_member(json, "selector"@), json_object_member(json, "styles"@)) {
            (Some(sel), Some(es)) => "ALL STYLES RESULT:\n"@ + sel + " has "@ + decimal(es.len())
                + " computed properties"@ + "\n\nKEY PROPERTIES:\n"@ + key_lines(
                es,
                str_views(KEY_PROPERTIES@),
            ) + "\nRAW JSON:\n"@ + json + "\n"@,
            _ => Seq::empty(),
        }
    }
}

/// The report of the line that decides.
pub open spec fn line_report(line: Seq<char>) -> Seq<char> {
    match second_field(line, VALUE_MARK@) {
        Some(json) => single_report(trim(json)),
        None => match second_field(line, STYLES_MARK@) {
            Some(json) => styles_report(trim(json)),
            None => match second_field(line, ERROR_MARK@) {
                Some(e) => "ERROR:\n"@ + e + "\n"@,
                None => Seq::empty(),
            },
        },
    }
}

/// What the file that keeps the parsed result of Servo's output holds: the
/// report of the line that decides, or both streams where none does.
pub open spec fn output_report(stdout: Seq<char>, stderr: Seq<char>) -> Seq<char> {
    match decisive_line(stdout, stderr) {
        Some(l) => line_report(l),
        None => "NO RESULT FOUND\n\nSTDOUT:\n"@ + stdout + "\n\nSTDERR:\n"@ + stderr + "\n"@,
    }
}

/// Whether the page file is read for an answer: where it names a result mark.
pub open spec fn page_has_mark(page_file: Option<Seq<char>>) -> bool {
    page_file matches Some(t) && (contains(t, VALUE_MARK@) || contains(t, STYLES_MARK@))
}

/// The outcome of a run: the answer in the output where there is output and
/// it holds one, else what the page file says where it names a result mark,
/// else a failure that names the file where the output was kept.
pub open spec fn run_outcome(
    stdout: Seq<char>,
    stderr: Seq<char>,
    page_file: Option<Seq<char>>,
    output_path: Seq<char>,
    result_path: Seq<char>,
) -> Result<Seq<char>, Seq<char>> {
    if (stdout.len() > 0 || stderr.len() > 0) && output_answers(stdout, stderr) {
        output_outcome(stdout, stderr, result_path)
    } else if page_has_mark(page_file) {
        output_outcome(page_file->0, Seq::empty(), result_path)
    } else {
        Err("No computed style results found. Check output file: "@ + output_path)
    }
}

/// What the parsed-result file holds after a run: the report of the last
/// output that was read, if any was.
pub open spec fn run_report(stdout: Seq<char>, stderr: Seq<char>, page_file: Option<Seq<char>>) -> Option<Seq<char>> {
    if (stdout.len() > 0 || stderr.len() > 0) && output_answers(stdout, stderr) {
        Some(output_report(stdout, stderr))
    } else if page_has_mark(page_file) {
        Some(output_report(page_file->0, Seq::empty()))
    } else if stdout.len() > 0 || stderr.len() > 0 {
        Some(output_report(stdout, stderr))
    } else {
        None
    }
}

/// The response that an answer gives: for a property query the string member
/// `value` of the answer, else its object member `styles` where each value is a
/// string; `Err` with the reason where the answer has no such member.
pub open spec fn answer_response(id: Seq<char>, single: bool, json: Seq<char>) -> Result<ResponseView, Seq<char>> {
    if single {
        match json_string_member(json, "value"@) {
            Some(v) => Ok(
                ResponseView {
                    id,
                    success: true,
                    computed_value: Some(v),
                    computed_styles: None,
                    error: None,
                },
            ),
            None => Err("JSON parse error: no string member value. Raw content: "@ + json),
        }
    } else {
        match json_object_member(json, "styles"@) {
            Some(es) if all_strings(es) => Ok(
                ResponseView {
                    id,
                    success: true,
                    computed_value: None,
                    computed_styles: Some(
                        es.map_values(|e: (Seq<char>, Option<Seq<char>>)| (e.0, e.1->0)),
                    ),
                    error: None,
                },
            ),
            _ => Err("JSON parse error: no object member styles of strings"@),
        }
    }
}

/// Every value of the entries is a string.
pub open spec fn all_strings(es: Seq<(Seq<char>, Option<Seq<char>>)>) -> bool {
    forall|i: int| 0 <= i < es.len() ==> (#[trigger] es[i]).1 is Some
}

/// The error a response gives, or `Unknown error`.
pub open spec fn error_or_unknown(e: Option<Seq<char>>) -> Seq<char> {
    match e {
        Some(m) => m,
        None => "Unknown error"@,
    }
}

/// The outcome of a property query: the value of its response, or why there
/// is none.
pub open spec fn value_outcome(r: ResponseView) -> Result<Seq<char>, Seq<char>> {
    if r.success {
        match r.computed_value {
            Some(v) => Ok(v),
            None => Err("No computed value returned"@),
        }
    } else {
        Err(error_or_unknown(r.error))
    }
}

/// The outcome of an all-properties query: the styles of its response, or why
/// there are none.
pub open spec fn styles_outcome(r: ResponseView) -> Result<Seq<(Seq<char>, Seq<char>)>, Seq<char>> {
    if r.success {
        match r.computed_styles {
            Some(v) => Ok(v),
            None => Err("No computed styles returned"@),
        }
    } else {
        Err(error_or_unknown(r.error))
    }
}

/// A communication error holds this message.
pub open spec fn is_communication_error(e: ServoStyleError, m: Seq<char>) -> bool {
    e matches ServoStyleError::CommunicationError(s) && s@ == m
}

/// A computation error holds this message.
pub open spec fn is_computation_error(e: ServoStyleError, m: Seq<char>) -> bool {
    e matches ServoStyleError::ComputationError(s) && s@ == m
}

impl ServoStyleEngineReal {
    /// An engine that runs `servo` from the search path.
    pub fn new() -> (r: Result<Self, ServoStyleError>)
        ensures
            match r {
                Ok(e) => e@ == fresh(None),
                Err(e) => e == ServoStyleError::ServoNotFound,
            },
    {
        Self::with_servo_path(None)
    }

    /// An engine that runs Servo from `servo_path` (or the search path), where
    /// the executable is there.
    pub fn with_servo_path(servo_path: Option<String>) -> (r: Result<Self, ServoStyleError>)
        ensures
            match r {
                Ok(e) => e@ == fresh(opt_view(servo_path)),
                Err(e) => e == ServoStyleError::ServoNotFound,
            },
    {
        let found = servo_available(&servo_path);
        Self::with_lookup(servo_path, found)
    }

    /// An engine that runs Servo from `servo_path`, once it is known whether
    /// the executable was found.
    pub fn with_lookup(servo_path: Option<String>, servo_found: bool) -> (r: Result<
        Self,
        ServoStyleError,
    >)
        ensures
            servo_found <==> r is Ok,
            match r {
                Ok(e) => e@ == fresh(opt_view(servo_path)),
                Err(e) => e == ServoStyleError::ServoNotFound,
            },
    {
        if !servo_found {
            return Err(ServoStyleError::ServoNotFound);
        }
        let e = ServoStyleEngineReal { base_html: String::new(), stylesheets: Vec::new(), servo_path };
        assert(e@.stylesheets =~= Seq::<Seq<char>>::empty());
        Ok(e)
    }

    /// Adds a style sheet after those already there.
    pub fn add_stylesheet(&mut self, css: &str) -> (r: Result<(), ServoStyleError>)
        ensures
            r is Ok,
            final(self)@.stylesheets == old(self)@.stylesheets.push(css@),
            final(self)@.html == old(self)@.html,
            final(self)@.servo_path == old(self)@.servo_path,
    {
        self.stylesheets.push(String::from_str(css));
        assert(self@.stylesheets =~= old(self)@.stylesheets.push(css@));
        Ok(())
    }

    /// Sets the page body in which selectors pick elements.
    pub fn set_html(&mut self, html: &str) -> (r: Result<(), ServoStyleError>)
        ensures
            r is Ok,
            final(self)@.html == html@,
            final(self)@.stylesheets == old(self)@.stylesheets,
            final(self)@.servo_path == old(self)@.servo_path,
    {
        self.base_html = String::from_str(html);
        Ok(())
    }

    /// The command that starts Servo: the configured path, or `servo`.
    pub fn servo_command(&self) -> (r: String)
        ensures
            r@ == match self@.servo_path {
                Some(p) => p,
                None => "servo"@,
            },
    {
        match &self.servo_path {
            Some(p) => p.clone(),
            None => String::from_str("servo"),
        }
    }

    /// The style sheets, one after another.
    pub fn combined_css(&self) -> (r: String)
        ensures
            r@ == css_of(self@),
    {
        let r = join_exec(&self.stylesheets, "\n");
        assert(crate::text::string_views(self.stylesheets@) =~= self@.stylesheets);
        r
    }

    /// A query, under a fresh random id, for `property` (or, where it is
    /// `None`, all properties) of the element that `selector` picks.
    pub fn new_query(&self, selector: &str, property: Option<&str>) -> (r: StyleQuery)
        ensures
            r@.html == self@.html,
            r@.css == css_of(self@),
            r@.selector == selector@,
            is_query_id(r@.id),
            !r@.id.contains(':'),
            r@.property == match property {
                Some(p) => Some(p@),
                None => None::<Seq<char>>,
            },
            r@.pseudo_element is None,
    {
        let prop = match property {
            Some(p) => Some(String::from_str(p)),
            None => None,
        };
        let id = new_query_id();
        proof {
            crate::query::lemma_query_id_has_no_colon(id@);
        }
        StyleQuery {
            id,
            html: self.base_html.clone(),
            css: self.combined_css(),
            selector: String::from_str(selector),
            property: prop,
            pseudo_element: None,
        }
    }

    /// The page that makes Servo report `property` (or, where it is `None`,
    /// all properties) of the element that `selector` picks.
    pub fn create_style_extraction_html(&self, selector: &str, property: Option<&str>) -> (r: String)
        ensures
            r@ == extraction_page(
                css_of(self@),
                self@.html,
                selector@,
                match property {
                    Some(p) => Some(p@),
                    None => None,
                },
            ),
    {
        let combined_css = self.combined_css();
        let script = match property {
            Some(prop) => {
                let args: [&str; 4] = [selector, prop, selector, prop];
                assert(str_views(args@) =~= seq![selector@, prop@, selector@, prop@]);
                fill(&PROPERTY_EXTRACTION_SCRIPT, &args)
            },
            None => {
                let args: [&str; 2] = [selector, selector];
                assert(str_views(args@) =~= seq![selector@, selector@]);
                fill(&STYLES_EXTRACTION_SCRIPT, &args)
            },
        };
        let page_args: [&str; 3] = [combined_css.as_str(), self.base_html.as_str(), script.as_str()];
        assert(str_views(page_args@) =~= seq![css_of(self@), self@.html, script@]);
        fill(&PAGE, &page_args)
    }

    /// What Servo's output says: the trimmed JSON text after the first result
    /// mark, or the failure that the first error mark reports, whichever line
    /// comes first (standard output first); where no line says either, a
    /// failure that names `result_path`, the file that keeps the parsed result.
    pub fn parse_servo_output(&self, stdout: &str, stderr: &str, result_path: &str) -> (r: Result<
        String,
        ServoStyleError,
    >)
        ensures
            match output_outcome(stdout@, stderr@, result_path@) {
                Ok(v) => r matches Ok(s) && s@ == v,
                Err(m) => r matches Err(e) && is_communication_error(e, m),
            },
    {
        parse_output(stdout, stderr, result_path)
    }

    /// What the file that keeps the parsed result of Servo's output holds.
    pub fn parsed_report(&self, stdout: &str, stderr: &str) -> (r: String)
        ensures
            r@ == output_report(stdout@, stderr@),
    {
        report_of(stdout, stderr)
    }

    /// The answer of a run of Servo, given what it wrote (both empty where it
    /// timed out), the page file as read back after the run, the path where
    /// its output was kept and the path of the file that keeps the parsed
    /// result.
    pub fn extracted_result(
        &self,
        stdout: &str,
        stderr: &str,
        page_file: Option<&str>,
        output_path: &str,
        result_path: &str,
    ) -> (r: Result<String, ServoStyleError>)
        ensures
            match run_outcome(
                stdout@,
                stderr@,
                match page_file {
                    Some(t) => Some(t@),
                    None => None,
                },
                output_path@,
                result_path@,
            ) {
                Ok(v) => r matches Ok(s) && s@ == v,
                Err(m) => r matches Err(e) && is_communication_error(e, m),
            },
    {
        if (stdout.unicode_len() > 0 || stderr.unicode_len() > 0) && answers(stdout, stderr) {
            return parse_output(stdout, stderr, result_path);
        }
        if let Some(t) = page_file {
            if names_result_mark(t) {
                proof {
                    reveal_strlit("");
                }
                return parse_output(t, "", result_path);
            }
        }
        let mut m = String::from_str("No computed style results found. Check output file: ");
        m.append(output_path);
        Err(ServoStyleError::CommunicationError(m))
    }

    /// What the file that keeps the parsed result holds after a run: the
    /// report of the last output read, if any was.
    pub fn extraction_report(&self, stdout: &str, stderr: &str, page_file: Option<&str>) -> (r: Option<
        String,
    >)
        ensures
            opt_view(r) == run_report(
                stdout@,
                stderr@,
                match page_file {
                    Some(t) => Some(t@),
                    None => None,
                },
            ),
    {
        let has_output = stdout.unicode_len() > 0 || stderr.unicode_len() > 0;
        if has_output && answers(stdout, stderr) {
            return Some(report_of(stdout, stderr));
        }
        if let Some(t) = page_file {
            if names_result_mark(t) {
                proof {
                    reveal_strlit("");
                }
                return Some(report_of(t, ""));
            }
        }
        if has_output {
            Some(report_of(stdout, stderr))
        } else {
            None
        }
    }

    /// The response to query `id` that an answer gives: for a property query
    /// (`single`) its string member `value`, else its object member `styles`.
    pub fn answer_response(id: &str, single: bool, json: &str) -> (r: Result<StyleResponse, ServoStyleError>)
        ensures
            match answer_response(id@, single, json@) {
                Ok(v) => r matches Ok(s) && s@ == v,
                Err(m) => r matches Err(e) && is_communication_error(e, m),
            },
            r matches Ok(s) ==> (s@.computed_styles matches Some(st) ==> distinct_keys(st)),
    {
        if single {
            match string_member(json, "value") {
                Some(v) => Ok(
                    StyleResponse {
                        id: String::from_str(id),
                        success: true,
                        computed_value: Some(v),
                        computed_styles: None,
                        error: None,
                    },
                ),
                None => {
                    let mut m = String::from_str("JSON parse error: no string member value. Raw content: ");
                    m.append(json);
                    Err(ServoStyleError::CommunicationError(m))
                },
            }
        } else {
            let failure = "JSON parse error: no object member styles of strings";
            match object_member(json, "styles") {
                Some(es) => match strings_only(&es) {
                    Some(styles) => Ok(
                        StyleResponse {
                            id: String::from_str(id),
                            success: true,
                            computed_value: None,
                            computed_styles: Some(styles),
                            error: None,
                        },
                    ),
                    None => Err(ServoStyleError::CommunicationError(String::from_str(failure))),
                },
                None => Err(ServoStyleError::CommunicationError(String::from_str(failure))),
            }
        }
    }

    /// What a property query returns, given its response.
    pub fn computed_value_result(response: StyleResponse) -> (r: Result<String, ServoStyleError>)
        ensures
            match value_outcome(response@) {
                Ok(v) => r matches Ok(s) && s@ == v,
                Err(m) => r matches Err(e) && is_computation_error(e, m),
            },
    {
        if response.success {
            match response.computed_value {
                Some(v) => Ok(v),
                None => Err(
                    ServoStyleError::ComputationError(String::from_str("No computed value returned")),
                ),
            }
        } else {
            Err(ServoStyleError::ComputationError(error_or_unknown_exec(response.error)))
        }
    }

    /// What an all-properties query returns, given its response.
    pub fn computed_styles_result(response: StyleResponse) -> (r: Result<
        Vec<(String, String)>,
        ServoStyleError,
    >)
        ensures
            match styles_outcome(response@) {
                Ok(v) => r matches Ok(s) && pair_views(s@) == v,
                Err(m) => r matches Err(e) && is_computation_error(e, m),
            },
    {
        if response.success {
            match response.computed_styles {
                Some(v) => Ok(v),
                None => Err(
                    ServoStyleError::ComputationError(String::from_str("No computed styles returned")),
                ),
            }
        } else {
            Err(ServoStyleError::ComputationError(error_or_unknown_exec(response.error)))
        }
    }
}

fn error_or_unknown_exec(e: Option<String>) -> (r: String)
    ensures
        r@ == error_or_unknown(opt_view(e)),
{
    match e {
        Some(m) => m,
        None => String::from_str("Unknown error"),
    }
}

/// The entries with their values, where every value is a string.
fn strings_only(es: &Vec<(String, Option<String>)>) -> (r: Option<Vec<(String, String)>>)
    ensures
        match r {
            Some(v) => all_strings(member_views(es@)) && pair_views(v@) == member_views(es@).map_values(
                |e: (Seq<char>, Option<Seq<char>>)| (e.0, e.1->0),
            ) && (distinct_keys(member_views(es@)) ==> distinct_keys(pair_views(v@))),
            None => !all_strings(member_views(es@)),
        },
{
    let ghost ms = member_views(es@);
    let ghost f = |e: (Seq<char>, Option<Seq<char>>)| (e.0, e.1->0);
    let mut r: Vec<(String, String)> = Vec::new();
    let n = es.len();
    let mut i: usize = 0;
    while i < n
        invariant
            n == es@.len(),
            ms == member_views(es@),
            f == (|e: (Seq<char>, Option<Seq<char>>)| (e.0, e.1->0)),
            i <= n,
            all_strings(ms.take(i as int)),
            pair_views(r@) == ms.take(i as int).map_values(f),
        decreases n - i,
    {
        match &es[i].1 {
            Some(v) => {
                let ghost old_r = r@;
                r.push((es[i].0.clone(), v.clone()));
                assert(pair_views(r@) =~= pair_views(old_r).push(f(ms[i as int])));
                assert(ms.take(i + 1).map_values(f) =~= ms.take(i as int).map_values(f).push(
                    f(ms[i as int]),
                ));
                assert(all_strings(ms.take(i + 1))) by {
                    assert forall|k: int| 0 <= k < i + 1 implies (#[trigger] ms.take(i + 1)[k]).1 is Some by {
                        if k < i {
                            assert(ms.take(i + 1)[k] == ms.take(i as int)[k]);
                        }
                    }
                }
            },
            None => {
                assert(ms[i as int].1 is None);
                return None;
            },
        }
        i = i + 1;
    }
    assert(ms.take(n as int) =~= ms);
    assert forall|a: int| 0 <= a < ms.len() implies (#[trigger] pair_views(r@)[a]).0 == ms[a].0 by {
        assert(ms.map_values(f)[a] == f(ms[a]));
    }
    Some(r)
}

/// What one output line says.
fn line_outcome_exec(line: &Vec<char>, value_mark: &Vec<char>, styles_mark: &Vec<char>, error_mark: &Vec<char>) -> (r: Option<Result<String, ServoStyleError>>)
    requires
        value_mark@ == VALUE_MARK@,
        styles_mark@ == STYLES_MARK@,
        error_mark@ == ERROR_MARK@,
    ensures
        match line_outcome(line@) {
            Some(Ok(v)) => r matches Some(Ok(s)) && s@ == v,
            Some(Err(m)) => r matches Some(Err(e)) && is_communication_error(e, m),
            None => r is None,
        },
{
    if let Some(json) = second_field_exec(line, value_mark) {
        let t = trim_exec(&json);
        return Some(Ok(string_from_chars(t.as_slice())));
    }
    if let Some(json) = second_field_exec(line, styles_mark) {
        let t = trim_exec(&json);
        return Some(Ok(string_from_chars(t.as_slice())));
    }
    if let Some(e) = second_field_exec(line, error_mark) {
        let mut m = String::from_str("Servo error: ");
        let part = string_from_chars(e.as_slice());
        m.append(part.as_str());
        return Some(Err(ServoStyleError::CommunicationError(m)));
    }
    None
}

/// The first line of the output that says something.
fn find_decisive(stdout: &str, stderr: &str) -> (r: Option<Vec<char>>)
    ensures
        match decisive_line(stdout@, stderr@) {
            Some(l) => r matches Some(v) && v@ == l,
            None => r is None,
        },
{
    let value_mark = chars_of(VALUE_MARK);
    let styles_mark = chars_of(STYLES_MARK);
    let error_mark = chars_of(ERROR_MARK);
    let mut all = lines_exec(&chars_of(stdout));
    let mut err_lines = lines_exec(&chars_of(stderr));
    all.append(&mut err_lines);
    let ghost ls = lines(stdout@) + lines(stderr@);
    assert(char_views(all@) =~= ls);
    let n = all.len();
    let mut i: usize = 0;
    assert(ls.skip(0) =~= ls);
    while i < n
        invariant
            n == all@.len(),
            char_views(all@) == ls,
            ls == lines(stdout@) + lines(stderr@),
            value_mark@ == VALUE_MARK@,
            styles_mark@ == STYLES_MARK@,
            error_mark@ == ERROR_MARK@,
            i <= n,
            first_decisive(ls) == first_decisive(ls.skip(i as int)),
        decreases n - i,
    {
        assert(ls.len() == n);
        assert(ls.skip(i as int).len() > 0);
        assert(ls.skip(i as int)[0] == all@[i as int]@);
        if line_outcome_exec(&all[i], &value_mark, &styles_mark, &error_mark).is_some() {
            return Some(slice_all(&all[i]));
        }
        assert(ls.skip(i + 1) =~= ls.skip(i as int).drop_first());
        i = i + 1;
    }
    assert(ls.skip(n as int).len() == 0);
    None
}

fn slice_all(v: &Vec<char>) -> (r: Vec<char>)
    ensures
        r@ == v@,
{
    let r = crate::text::slice_chars(v, 0, v.len());
    assert(v@.subrange(0, v@.len() as int) =~= v@);
    r
}

/// Whether the output holds an answer.
fn answers(stdout: &str, stderr: &str) -> (r: bool)
    ensures
        r == output_answers(stdout@, stderr@),
{
    match find_decisive(stdout, stderr) {
        Some(l) => match line_outcome_exec(&l, &chars_of(VALUE_MARK), &chars_of(STYLES_MARK), &chars_of(ERROR_MARK)) {
            Some(o) => o.is_ok(),
            None => false,
        },
        None => false,
    }
}

/// Whether the text names a result mark.
fn names_result_mark(t: &str) -> (r: bool)
    ensures
        r == (contains(t@, VALUE_MARK@) || contains(t@, STYLES_MARK@)),
{
    let cs = chars_of(t);
    contains_exec(&cs, &chars_of(VALUE_MARK)) || contains_exec(&cs, &chars_of(STYLES_MARK))
}

fn no_result(result_path: &str) -> (r: ServoStyleError)
    ensures
        is_communication_error(r, NO_RESULT@ + result_path@),
{
    ServoStyleError::CommunicationError(prefixed(NO_RESULT, result_path))
}

fn parse_output(stdout: &str, stderr: &str, result_path: &str) -> (r: Result<String, ServoStyleError>)
    ensures
        match output_outcome(stdout@, stderr@, result_path@) {
            Ok(v) => r matches Ok(s) && s@ == v,
            Err(m) => r matches Err(e) && is_communication_error(e, m),
        },
{
    match find_decisive(stdout, stderr) {
        Some(l) => match line_outcome_exec(&l, &chars_of(VALUE_MARK), &chars_of(STYLES_MARK), &chars_of(ERROR_MARK)) {
            Some(o) => o,
            None => Err(no_result(result_path)),
        },
        None => Err(no_result(result_path)),
    }
}

/// The value of the first entry named `k`.
fn member_lookup_exec(es: &Vec<(String, Option<String>)>, k: &str) -> (r: Option<Option<String>>)
    ensures
        match member_lookup(member_views(es@), k@) {
            Some(o) => r matches Some(x) && opt_view(x) == o,
            None => r is None,
        },
{
    let key = String::from_str(k);
    let ghost ms = member_views(es@);
    let n = es.len();
    let mut i: usize = 0;
    assert(ms.skip(0) =~= ms);
    while i < n
        invariant
            n == es@.len(),
            ms == member_views(es@),
            key@ == k@,
            i <= n,
            member_lookup(ms, k@) == member_lookup(ms.skip(i as int), k@),
        decreases n - i,
    {
        assert(ms.skip(i as int)[0] == ms[i as int]);
        assert(ms.skip(i + 1) =~= ms.skip(i as int).drop_first());
        if es[i].0 == key {
            return Some(es[i].1.clone());
        }
        i = i + 1;
    }
    None
}

fn key_line_exec(es: &Vec<(String, Option<String>)>, k: &str) -> (r: String)
    ensures
        r@ == key_line(member_views(es@), k@),
{
    proof {
        reveal_strlit("");
    }
    match member_lookup_exec(es, k) {
        Some(Some(v)) => {
            if v.as_str().unicode_len() > 0 && v != String::from_str("auto") && v != String::from_str("0px") {
                let mut l = String::from_str("  ");
                l.append(k);
                l.append(": ");
                l.append(v.as_str());
                l.append("\n");
                l
            } else {
                String::new()
            }
        },
        _ => String::new(),
    }
}

fn key_lines_exec(es: &Vec<(String, Option<String>)>) -> (r: String)
    ensures
        r@ == key_lines(member_views(es@), str_views(KEY_PROPERTIES@)),
{
    let ghost ks = str_views(KEY_PROPERTIES@);
    let mut r = String::new();
    let mut i: usize = 0;
    while i < 7
        invariant
            ks == str_views(KEY_PROPERTIES@),
            ks.len() == 7,
            i <= 7,
            r@ == key_lines(member_views(es@), ks.take(i as int)),
        decreases 7 - i,
    {
        let l = key_line_exec(es, KEY_PROPERTIES[i]);
        r.append(l.as_str());
        assert(ks.take(i + 1).drop_last() =~= ks.take(i as int));
        i = i + 1;
    }
    assert(ks.take(7) =~= ks);
    r
}

fn single_report_exec(json: &str) -> (r: String)
    ensures
        r@ == single_report(json@),
{
    if !parses_as_json(json) {
        let mut m = String::from_str("SINGLE PROPERTY RESULT (RAW):\n");
        m.append(json);
        m.append("\n");
        return m;
    }
    match (string_member(json, "selector"), string_member(json, "property"), string_member(json, "value")) {
        (Some(sel), Some(prop), Some(v)) => {
            let mut m = String::from_str("SINGLE PROPERTY RESULT:\n");
            m.append(sel.as_str());
            m.append(" -> ");
            m.append(prop.as_str());
            m.append(": ");
            m.append(v.as_str());
            m.append("\n\nRAW JSON:\n");
            m.append(json);
            m.append("\n");
            m
        },
        _ => {
            proof {
                reveal_strlit("");
            }
            String::new()
        },
    }
}

fn styles_report_exec(json: &str) -> (r: String)
    ensures
        r@ == styles_report(json@),
{
    if !parses_as_json(json) {
        let mut m = String::from_str("ALL STYLES RESULT (RAW):\n");
        m.append(json);
        m.append("\n");
        return m;
    }
    match (string_member(json, "selector"), object_member(json, "styles")) {
        (Some(sel), Some(es)) => {
            let count = decimal_exec(es.len());
            let keys = key_lines_exec(&es);
            let mut m = String::from_str("ALL STYLES RESULT:\n");
            m.append(sel.as_str());
            m.append(" has ");
            m.append(count.as_str());
            m.append(" computed properties");
            m.append("\n\nKEY PROPERTIES:\n");
            m.append(keys.as_str());
            m.append("\nRAW JSON:\n");
            m.append(json);
            m.append("\n");
            m
        },
        _ => String::new(),
    }
}

fn line_report_exec(line: &Vec<char>) -> (r: String)
    ensures
        r@ == line_report(line@),
{
    if let Some(json) = second_field_exec(line, &chars_of(VALUE_MARK)) {
        let t = string_from_chars(trim_exec(&json).as_slice());
        return single_report_exec(t.as_str());
    }
    if let Some(json) = second_field_exec(line, &chars_of(STYLES_MARK)) {
        let t = string_from_chars(trim_exec(&json).as_slice());
        return styles_report_exec(t.as_str());
    }
    if let Some(e) = second_field_exec(line, &chars_of(ERROR_MARK)) {
        let mut m = String::from_str("ERROR:\n");
        let part = string_from_chars(e.as_slice());
        m.append(part.as_str());
        m.append("\n");
        return m;
    }
    String::new()
}

fn report_of(stdout: &str, stderr: &str) -> (r: String)
    ensures
        r@ == output_report(stdout@, stderr@),
{
    match find_decisive(stdout, stderr) {
        Some(l) => line_report_exec(&l),
        None => {
            let mut m = String::from_str("NO RESULT FOUND\n\nSTDOUT:\n");
            m.append(stdout);
            m.append("\n\nSTDERR:\n");
            m.append(stderr);
            m.append("\n");
            m
        },
    }
}

} // verus!
