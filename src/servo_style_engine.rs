//! The first engine: it simulates Servo's answers, or asks a real Servo
//! where the configuration enables that.
use vstd::prelude::*;
use crate::query::{is_query_id, new_query_id, servo_available, QueryView, ResponseView, StyleQuery, StyleResponse};
use crate::style_map::{lookup, opt_view, pair_views, style_get};
use crate::template::{fill, filled, str_views};
use crate::text::{
    prefixed,
    char_views, chars_of, contains, contains_exec, join, join_exec, lines, lines_exec,
    second_field, second_field_exec, string_from_chars,
};

verus! {

/// A page that reports its answer to one query on a `STYLO_RESULT:` line; filled with the style sheet, the body, the selector, the property (or nothing) twice, the id, the id, the selector and the id.
pub const QUERY_PAGE: [&'static str; 10] = [
    r#"
<!DOCTYPE html>
<html>
<head>
    <style>
        "#,
    r#"
    </style>
</head>
<body>
    "#,
    r#"
    <script>
        try {
            const element = document.querySelector('"#,
    r#"');
            if (element) {
                const styles = window.getComputedStyle(element);
                const result = {};

                if ('"#,
    r#"' !== '') {
                    // Single property request
                    result.computed_value = styles.getPropertyValue('"#,
    r#"');
                } else {
                    // All properties request
                    for (let i = 0; i < styles.length; i++) {
                        const prop = styles[i];
                        result[prop] = styles.getPropertyValue(prop);
                    }
                }

                console.log('STYLO_RESULT:' + JSON.stringify({
                    id: '"#,
    r#"',
                    success: true,
                    computed_value: result.computed_value,
                    computed_styles: result
                }));
            } else {
                console.log('STYLO_RESULT:' + JSON.stringify({
                    id: '"#,
    r#"',
                    success: false,
                    error: 'Element not found: "#,
    r#"'
                }));
            }
        } catch (e) {
            console.log('STYLO_RESULT:' + JSON.stringify({
                id: '"#,
    r#"',
                success: false,
                error: 'JavaScript error: ' + e.message
            }));
        }
    </script>
</body>
</html>
"#,
];

/// Marks the output line that holds Servo's answer.
pub const RESULT_MARK: &'static str = "STYLO_RESULT:";

/// The line of the configuration that enables a real Servo.
pub const REAL_INTEGRATION_LINE: &'static str = "enable_real_integration = true";

/// What can go wrong while computing styles.
#[derive(Debug)]
pub enum ServoStyleError {
    ProcessError(String),
    ServoNotFound,
    JsonError(String),
    IoError(String),
    Timeout,
    InvalidSelector(String),
    InvalidProperty(String),
    ElementNotFound(String),
}

/// The message that describes the error.
pub open spec fn message_of(e: ServoStyleError) -> Seq<char> {
    match e {
        ServoStyleError::ProcessError(s) => "Servo process error: "@ + s@,
        ServoStyleError::ServoNotFound => "Servo not found in PATH"@,
        ServoStyleError::JsonError(s) => "JSON serialization error: "@ + s@,
        ServoStyleError::IoError(s) => "IO error: "@ + s@,
        ServoStyleError::Timeout => "Timeout waiting for Servo response"@,
        ServoStyleError::InvalidSelector(s) => "Invalid CSS selector: "@ + s@,
        ServoStyleError::InvalidProperty(s) => "Invalid CSS property: "@ + s@,
        ServoStyleError::ElementNotFound(s) => "Element not found: "@ + s@,
    }
}

impl ServoStyleError {
    /// The message that describes the error.
    pub fn message(&self) -> (r: String)
        ensures
            r@ == message_of(*self),
    {
        match self {
            ServoStyleError::ProcessError(s) => prefixed("Servo process error: ", s.as_str()),
            ServoStyleError::ServoNotFound => String::from_str("Servo not found in PATH"),
            ServoStyleError::JsonError(s) => prefixed("JSON serialization error: ", s.as_str()),
            ServoStyleError::IoError(s) => prefixed("IO error: ", s.as_str()),
            ServoStyleError::Timeout => String::from_str("Timeout waiting for Servo response"),
            ServoStyleError::InvalidSelector(s) => prefixed("Invalid CSS selector: ", s.as_str()),
            ServoStyleError::InvalidProperty(s) => prefixed("Invalid CSS property: ", s.as_str()),
            ServoStyleError::ElementNotFound(s) => prefixed("Element not found: ", s.as_str()),
        }
    }
}

/// A style engine that simulates Servo's answers unless the configuration
/// enables a real Servo.
pub struct ServoStyleEngine {
    base_html: String,
    stylesheets: Vec<String>,
    servo_path: Option<String>,
}

/// What a [`ServoStyleEngine`] holds.
pub struct EngineView {
    pub html: Seq<char>,
    pub stylesheets: Seq<Seq<char>>,
    pub servo_path: Option<Seq<char>>,
}

impl View for ServoStyleEngine {
    type V = EngineView;

    closed spec fn view(&self) -> EngineView {
        EngineView {
            html: self.base_html@,
            stylesheets: self.stylesheets@.map_values(|s: String| s@),
            servo_path: opt_view(self.servo_path),
        }
    }
}

/// An engine with no page and no style sheet yet.
pub open spec fn fresh(servo_path: Option<Seq<char>>) -> EngineView {
    EngineView { html: Seq::empty(), stylesheets: Seq::empty(), servo_path }
}

/// The style sheets of the engine, one after another.
pub open spec fn css_of(e: EngineView) -> Seq<char> {
    join(e.stylesheets, "\n"@)
}

/// The property a query names, or nothing.
pub open spec fn property_or_empty(q: QueryView) -> Seq<char> {
    match q.property {
        Some(p) => p,
        None => Seq::empty(),
    }
}

/// The page that makes a real Servo answer a query on a `STYLO_RESULT:` line.
pub open spec fn query_page(q: QueryView) -> Seq<char> {
    let p = property_or_empty(q);
    filled(
        str_views(QUERY_PAGE@),
        seq![q.css, q.html, q.selector, p, p, q.id, q.id, q.selector, q.id],
    )
}

/// The answer on the first line of the output that holds the result mark:
/// the text after the mark up to its next occurrence; `None` where no line
/// holds it.
pub open spec fn first_result(ls: Seq<Seq<char>>) -> Option<Seq<char>>
    decreases ls.len(),
{
    if ls.len() == 0 {
        None
    } else if contains(ls[0], RESULT_MARK@) {
        second_field(ls[0], RESULT_MARK@)
    } else {
        first_result(ls.drop_first())
    }
}

/// The failure where Servo's standard output holds no answer.
pub open spec fn no_response(stdout: Seq<char>, stderr: Seq<char>) -> Seq<char> {
    "No valid response from Servo. Stdout: "@ + stdout + ", Stderr: "@ + stderr
}

/// The property values that the simulation gives for a style sheet: fixed
/// defaults, where three of them follow the sheet when it holds a given
/// declaration.
pub open spec fn simulated_styles(css: Seq<char>) -> Seq<(Seq<char>, Seq<char>)> {
    let color = if contains(css, "color: red"@) {
        "rgb(255, 0, 0)"@
    } else {
        "rgb(0, 0, 0)"@
    };
    let font_size = if contains(css, "font-size: 24px"@) {
        "24px"@
    } else {
        "16px"@
    };
    let background = if contains(css, "background-color: yellow"@) {
        "rgb(255, 255, 0)"@
    } else {
        "rgba(0, 0, 0, 0)"@
    };
    seq![
        ("display"@, "block"@),
        ("color"@, color),
        ("font-family"@, "serif"@),
        ("font-size"@, font_size),
        ("font-weight"@, "400"@),
        ("line-height"@, "normal"@),
        ("margin-top"@, "0px"@),
        ("margin-right"@, "0px"@),
        ("margin-bottom"@, "0px"@),
        ("margin-left"@, "0px"@),
        ("padding-top"@, "0px"@),
        ("padding-right"@, "0px"@),
        ("padding-bottom"@, "0px"@),
        ("padding-left"@, "0px"@),
        ("border-top-width"@, "0px"@),
        ("border-right-width"@, "0px"@),
        ("border-bottom-width"@, "0px"@),
        ("border-left-width"@, "0px"@),
        ("background-color"@, background),
        ("position"@, "static"@),
        ("z-index"@, "auto"@),
    ]
}

/// The simulated response to a query: the value of its property where the
/// simulation knows it, or all simulated values.
pub open spec fn simulated_response(q: QueryView) -> ResponseView {
    let styles = simulated_styles(q.css);
    match q.property {
        Some(p) => {
            let v = lookup(styles, p);
            ResponseView {
                id: q.id,
                success: v is Some,
                computed_value: v,
                computed_styles: None,
                error: if v is Some {
                    None
                } else {
                    Some("Property '"@ + p + "' not found or invalid"@)
                },
            }
        },
        None => ResponseView {
            id: q.id,
            success: true,
            computed_value: None,
            computed_styles: Some(styles),
            error: None,
        },
    }
}

/// The error a response gives, or `Unknown error`.
pub open spec fn error_or_unknown(e: Option<Seq<char>>) -> Seq<char> {
    match e {
        Some(m) => m,
        None => "Unknown error"@,
    }
}

/// The outcome of a property query: the value of its response, or why there
/// is none.
pub open spec fn value_outcome(r: ResponseView) -> Result<Seq<char>, Seq<char>> {
    if r.success {
        match r.computed_value {
            Some(v) => Ok(v),
            None => Err("No computed value in response"@),
        }
    } else {
        Err(error_or_unknown(r.error))
    }
}

/// The outcome of an all-properties query: the styles of its response, or why
/// there are none.
pub open spec fn styles_outcome(r: ResponseView) -> Result<Seq<(Seq<char>, Seq<char>)>, Seq<char>> {
    if r.success {
        match r.computed_styles {
            Some(v) => Ok(v),
            None => Err("No computed styles in response"@),
        }
    } else {
        Err(error_or_unknown(r.error))
    }
}

/// A process error holds this message.
pub open spec fn is_process_error(e: ServoStyleError, m: Seq<char>) -> bool {
    e matches ServoStyleError::ProcessError(s) && s@ == m
}

/// Whether a configuration text enables a real Servo.
pub fn real_integration_enabled(config: &str) -> (r: bool)
    ensures
        r == contains(config@, REAL_INTEGRATION_LINE@),
{
    contains_exec(&chars_of(config), &chars_of(REAL_INTEGRATION_LINE))
}

impl ServoStyleEngine {
    /// A simulating engine; it looks for no Servo executable.
    pub fn new() -> (r: Result<Self, ServoStyleError>)
        ensures
            r matches Ok(e) && e@ == fresh(None),
    {
        Self::with_lookup(None, false, false)
    }

    /// An engine that runs Servo from `servo_path` (or the search path) where
    /// `real_integration` is set, and then only where the executable is
    /// there; a simulating engine otherwise.
    pub fn with_servo_path(servo_path: Option<String>, real_integration: bool) -> (r: Result<
        Self,
        ServoStyleError,
    >)
        ensures
            !real_integration ==> r is Ok,
            match r {
                Ok(e) => e@ == fresh(opt_view(servo_path)),
                Err(e) => e == ServoStyleError::ServoNotFound,
            },
    {
        let found = if real_integration {
            servo_available(&servo_path)
        } else {
            false
        };
        Self::with_lookup(servo_path, real_integration, found)
    }

    /// An engine for `servo_path`, once it is known whether a real Servo is
    /// wanted and whether its executable was found.
    pub fn with_lookup(servo_path: Option<String>, real_integration: bool, servo_found: bool) -> (r:
        Result<Self, ServoStyleError>)
        ensures
            r is Ok <==> (!real_integration || servo_found),
            match r {
                Ok(e) => e@ == fresh(opt_view(servo_path)),
                Err(e) => e == ServoStyleError::ServoNotFound,
            },
    {
        if real_integration && !servo_found {
            return Err(ServoStyleError::ServoNotFound);
        }
        let e = ServoStyleEngine { base_html: String::new(), stylesheets: Vec::new(), servo_path };
        assert(e@.stylesheets =~= Seq::<Seq<char>>::empty());
        Ok(e)
    }

    /// Adds a style sheet after those already there.
    pub fn add_stylesheet(&mut self, css: &str) -> (r: Result<(), ServoStyleError>)
        ensures
            r is Ok,
            final(self)@.stylesheets == old(self)@.stylesheets.push(css@),
            final(self)@.html == old(self)@.html,
            final(self)@.servo_path == old(self)@.servo_path,
    {
        self.stylesheets.push(String::from_str(css));
        assert(self@.stylesheets =~= old(self)@.stylesheets.push(css@));
        Ok(())
    }

    /// Sets the page body in which selectors pick elements.
    pub fn set_html(&mut self, html: &str) -> (r: Result<(), ServoStyleError>)
        ensures
            r is Ok,
            final(self)@.html == html@,
            final(self)@.stylesheets == old(self)@.stylesheets,
            final(self)@.servo_path == old(self)@.servo_path,
    {
        self.base_html = String::from_str(html);
        Ok(())
    }

    /// The command that starts Servo: the configured path, or `servo`.
    pub fn servo_command(&self) -> (r: String)
        ensures
            r@ == match self@.servo_path {
                Some(p) => p,
                None => "servo"@,
            },
    {
        match &self.servo_path {
            Some(p) => p.clone(),
            None => String::from_str("servo"),
        }
    }

    /// The style sheets, one after another.
    pub fn combined_css(&self) -> (r: String)
        ensures
            r@ == css_of(self@),
    {
        let r = join_exec(&self.stylesheets, "\n");
        assert(crate::text::string_views(self.stylesheets@) =~= self@.stylesheets);
        r
    }

    /// A query, under a fresh random id, for `property` (or, where it is
    /// `None`, all properties) of the element that `selector` picks.
    pub fn new_query(&self, selector: &str, property: Option<&str>, pseudo_element: Option<&str>) -> (r:
        StyleQuery)
        ensures
            r@.html == self@.html,
            r@.css == css_of(self@),
            r@.selector == selector@,
            is_query_id(r@.id),
            !r@.id.contains(':'),
            r@.property == match property {
                Some(p) => Some(p@),
                None => None::<Seq<char>>,
            },
            r@.pseudo_element == match pseudo_element {
                Some(p) => Some(p@),
                None => None::<Seq<char>>,
            },
    {
        let prop = match property {
            Some(p) => Some(String::from_str(p)),
            None => None,
        };
        let pseudo = match pseudo_element {
            Some(p) => Some(String::from_str(p)),
            None => None,
        };
        let id = new_query_id();
        proof {
            crate::query::lemma_query_id_has_no_colon(id@);
        }
        StyleQuery {
            id,
            html: self.base_html.clone(),
            css: self.combined_css(),
            selector: String::from_str(selector),
            property: prop,
            pseudo_element: pseudo,
        }
    }

    /// The page that makes a real Servo answer `query`.
    pub fn query_page(query: &StyleQuery) -> (r: String)
        ensures
            r@ == query_page(query@),
    {
        proof {
            reveal_strlit("");
        }
        let p: &str = match &query.property {
            Some(p) => p.as_str(),
            None => "",
        };
        assert(p@ =~= property_or_empty(query@));
        let sel = query.selector.as_str();
        let id = query.id.as_str();
        let args: [&str; 9] = [query.css.as_str(), query.html.as_str(), sel, p, p, id, id, sel, id];
        assert(str_views(args@) =~= seq![
            query@.css,
            query@.html,
            query@.selector,
            property_or_empty(query@),
            property_or_empty(query@),
            query@.id,
            query@.id,
            query@.selector,
            query@.id,
        ]);
        fill(&QUERY_PAGE, &args)
    }

    /// The JSON answer that a real Servo wrote on standard output: the text
    /// after the result mark on the first line that holds it; a process error
    /// that quotes both streams where no line does.
    pub fn stylo_result(stdout: &str, stderr: &str) -> (r: Result<String, ServoStyleError>)
        ensures
            match first_result(lines(stdout@)) {
                Some(v) => r matches Ok(s) && s@ == v,
                None => r matches Err(e) && is_process_error(e, no_response(stdout@, stderr@)),
            },
    {
        let mark = chars_of(RESULT_MARK);
        let ls = lines_exec(&chars_of(stdout));
        let ghost lv = char_views(ls@);
        let n = ls.len();
        let mut i: usize = 0;
        assert(lv.skip(0) =~= lv);
        while i < n
            invariant
                n == ls@.len(),
                lv == char_views(ls@),
                lv == lines(stdout@),
                mark@ == RESULT_MARK@,
                i <= n,
                first_result(lv) == first_result(lv.skip(i as int)),
            decreases n - i,
        {
            assert(lv.skip(i as int).len() > 0);
            assert(lv.skip(i as int)[0] == ls@[i as int]@);
            if contains_exec(&ls[i], &mark) {
                proof {
                    crate::text::lemma_find_from(ls@[i as int]@, mark@, 0);
                }
                match second_field_exec(&ls[i], &mark) {
                    Some(f) => {
                        return Ok(string_from_chars(f.as_slice()));
                    },
                    None => {
                        return Ok(String::new());
                    },
                }
            }
            assert(lv.skip(i + 1) =~= lv.skip(i as int).drop_first());
            i = i + 1;
        }
        let mut m = String::from_str("No valid response from Servo. Stdout: ");
        m.append(stdout);
        m.append(", Stderr: ");
        m.append(stderr);
        Err(ServoStyleError::ProcessError(m))
    }

    /// The property values that the simulation gives for `query`'s style
    /// sheets.
    pub fn simulate_style_computation(&self, query: &StyleQuery) -> (r: Vec<(String, String)>)
        ensures
            pair_views(r@) == simulated_styles(query@.css),
    {
        simulated_styles_exec(query.css.as_str())
    }

    /// The simulated response to `query`.
    pub fn simulate_servo_response(&self, query: StyleQuery) -> (r: StyleResponse)
        ensures
            r@ == simulated_response(query@),
    {
        let styles = simulated_styles_exec(query.css.as_str());
        match query.property {
            Some(property) => {
                let computed_value = style_get(&styles, property.as_str());
                let has_value = computed_value.is_some();
                let error = if !has_value {
                    let mut m = String::from_str("Property '");
                    m.append(property.as_str());
                    m.append("' not found or invalid");
                    Some(m)
                } else {
                    None
                };
                StyleResponse {
                    id: query.id,
                    success: has_value,
                    computed_value,
                    computed_styles: None,
                    error,
                }
            },
            None => StyleResponse {
                id: query.id,
                success: true,
                computed_value: None,
                computed_styles: Some(styles),
                error: None,
            },
        }
    }

    /// What a property query returns, given its response.
    pub fn computed_value_result(response: StyleResponse) -> (r: Result<String, ServoStyleError>)
        ensures
            match value_outcome(response@) {
                Ok(v) => r matches Ok(s) && s@ == v,
                Err(m) => r matches Err(e) && is_process_error(e, m),
            },
    {
        if response.success {
            match response.computed_value {
                Some(v) => Ok(v),
                None => Err(
                    ServoStyleError::ProcessError(String::from_str("No computed value in response")),
                ),
            }
        } else {
            Err(ServoStyleError::ProcessError(error_or_unknown_exec(response.error)))
        }
    }

    /// What an all-properties query returns, given its response.
    pub fn computed_styles_result(response: StyleResponse) -> (r: Result<
        Vec<(String, String)>,
        ServoStyleError,
    >)
        ensures
            match styles_outcome(response@) {
                Ok(v) => r matches Ok(s) && pair_views(s@) == v,
                Err(m) => r matches Err(e) && is_process_error(e, m),
            },
    {
        if response.success {
            match response.computed_styles {
                Some(v) => Ok(v),
                None => Err(
                    ServoStyleError::ProcessError(String::from_str("No computed styles in response")),
                ),
            }
        } else {
            Err(ServoStyleError::ProcessError(error_or_unknown_exec(response.error)))
        }
    }
}

fn error_or_unknown_exec(e: Option<String>) -> (r: String)
    ensures
        r@ == error_or_unknown(opt_view(e)),
{
    match e {
        Some(m) => m,
        None => String::from_str("Unknown error"),
    }
}

fn push_pair(v: &mut Vec<(String, String)>, name: &str, value: &str)
    ensures
        pair_views(final(v)@) == pair_views(old(v)@).push((name@, value@)),
{
    v.push((String::from_str(name), String::from_str(value)));
    assert(pair_views(v@) =~= pair_views(old(v)@).push((name@, value@)));
}

fn simulated_styles_exec(css: &str) -> (r: Vec<(String, String)>)
    ensures
        pair_views(r@) == simulated_styles(css@),
{
    let cs = chars_of(css);
    let color = if contains_exec(&cs, &chars_of("color: red")) {
        "rgb(255, 0, 0)"
    } else {
        "rgb(0, 0, 0)"
    };
    let font_size = if contains_exec(&cs, &chars_of("font-size: 24px")) {
        "24px"
    } else {
        "16px"
    };
    let background = if contains_exec(&cs, &chars_of("background-color: yellow")) {
        "rgb(255, 255, 0)"
    } else {
        "rgba(0, 0, 0, 0)"
    };
    let mut styles: Vec<(String, String)> = Vec::new();
    push_pair(&mut styles, "display", "block");
    push_pair(&mut styles, "color", color);
    push_pair(&mut styles, "font-family", "serif");
    push_pair(&mut styles, "font-size", font_size);
    push_pair(&mut styles, "font-weight", "400");
    push_pair(&mut styles, "line-height", "normal");
    push_pair(&mut styles, "margin-top", "0px");
    push_pair(&mut styles, "margin-right", "0px");
    push_pair(&mut styles, "margin-bottom", "0px");
    push_pair(&mut styles, "margin-left", "0px");
    push_pair(&mut styles, "padding-top", "0px");
    push_pair(&mut styles, "padding-right", "0px");
    push_pair(&mut styles, "padding-bottom", "0px");
    push_pair(&mut styles, "padding-left", "0px");
    push_pair(&mut styles, "border-top-width", "0px");
    push_pair(&mut styles, "border-right-width", "0px");
    push_pair(&mut styles, "border-bottom-width", "0px");
    push_pair(&mut styles, "border-left-width", "0px");
    push_pair(&mut styles, "background-color", background);
    push_pair(&mut styles, "position", "static");
    push_pair(&mut styles, "z-index", "auto");
    assert(pair_views(styles@) =~= simulated_styles(css@));
    styles
}

/// The simulation names each property once.
pub proof fn lemma_simulated_styles_distinct(css: Seq<char>)
    ensures
        crate::style_map::distinct_keys(simulated_styles(css)),
{
    let es = simulated_styles(css);
    assert forall|a: int, b: int| 0 <= a < b < es.len() implies es[a].0 != es[b].0 by {
        reveal_strlit("display");
        reveal_strlit("color");
        reveal_strlit("font-family");
        reveal_strlit("font-size");
        reveal_strlit("font-weight");
        reveal_strlit("line-height");
        reveal_strlit("margin-top");
        reveal_strlit("margin-right");
        reveal_strlit("margin-bottom");
        reveal_strlit("margin-left");
        reveal_strlit("padding-top");
        reveal_strlit("padding-right");
        reveal_strlit("padding-bottom");
        reveal_strlit("padding-left");
        reveal_strlit("border-top-width");
        reveal_strlit("border-right-width");
        reveal_strlit("border-bottom-width");
        reveal_strlit("border-left-width");
        reveal_strlit("background-color");
        reveal_strlit("position");
        reveal_strlit("z-index");
        // Any two names differ in length, first character or last character.
        assert(es[a].0.len() != es[b].0.len() || es[a].0[0] != es[b].0[0] || es[a].0.last()
            != es[b].0.last());
    }
}

} // verus!
