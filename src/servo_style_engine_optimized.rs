//! The engine that asks Servo a batch of queries at once, in one page.
use vstd::prelude::*;
use crate::json::{json_object_member, json_object_text, json_string_member, object_member, object_text, string_member};
use crate::query::{
    is_query_id, new_query_id, query_views, response_views, servo_available, QueryView, ResponseView,
    StyleQuery, StyleResponse, STYLES_MARK, VALUE_MARK,
};
use crate::style_map::{distinct_keys, opt_view, pair_views};
use crate::template::{fill, filled, str_views, PAGE};
use crate::text::{
    prefixed,
    char_views, chars_of, contains, decimal, decimal_exec, find_from, join, join_exec, lines, lines_exec,
    second_field, second_field_exec, split_once, split_once_exec, string_from_chars,
};

verus! {

/// The error of a query that no output line answered.
pub const NO_RESULT: &'static str = "No result found in batch output";

/// Reports one property of the element that a selector picks; filled with the selector, the property, the query id, the id, the selector, the property, the id and the id.
pub const PROPERTY_QUERY_SCRIPT: [&'static str; 9] = [
    r#"
                    try {
                        var element = document.querySelector('"#,
    r#"');
                        if (element) {
                            var computedStyle = window.getComputedStyle(element);
                            var value = computedStyle.getPropertyValue('"#,
    r#"');
                            console.log('COMPUTED_STYLE_RESULT:"#,
    r#":' + JSON.stringify({
                                id: '"#,
    r#"',
                                selector: '"#,
    r#"',
                                property: '"#,
    r#"',
                                value: value
                            }));
                        } else {
                            console.log('COMPUTED_STYLE_ERROR:"#,
    r#":Element not found');
                        }
                    } catch (e) {
                        console.log('COMPUTED_STYLE_ERROR:"#,
    r#":' + e.message);
                    }
                "#,
];

/// Reports every computed property of the element that a selector picks; filled with the selector, the query id, the id, the selector, the id and the id.
pub const STYLES_QUERY_SCRIPT: [&'static str; 7] = [
    r#"
                    try {
                        var element = document.querySelector('"#,
    r#"');
                        if (element) {
                            var computedStyle = window.getComputedStyle(element);
                            var styles = {};
                            for (var i = 0; i < computedStyle.length; i++) {
                                var propName = computedStyle[i];
                                styles[propName] = computedStyle.getPropertyValue(propName);
                            }
                            console.log('COMPUTED_STYLES_RESULT:"#,
    r#":' + JSON.stringify({
                                id: '"#,
    r#"',
                                selector: '"#,
    r#"',
                                styles: styles
                            }));
                        } else {
                            console.log('COMPUTED_STYLE_ERROR:"#,
    r#":Element not found');
                        }
                    } catch (e) {
                        console.log('COMPUTED_STYLE_ERROR:"#,
    r#":' + e.message);
                    }
                "#,
];

/// Runs the query scripts once the page has loaded; filled with the number of queries, the scripts and the number again.
pub const BATCH_SCRIPT: [&'static str; 4] = [
    r#"
            window.addEventListener('load', function() {
                console.log('BATCH_START:"#,
    r#"');
                "#,
    r#"
                console.log('BATCH_END:"#,
    r#"');
                setTimeout(function() { window.close(); }, 200);
            });
        "#,
];

/// What can go wrong while computing styles in batches.
#[derive(Debug)]
pub enum ServoStyleError {
    ServoNotFound,
    ProcessStartError(String),
    CommunicationError(String),
    SerializationError(String),
    ComputationError(String),
    DaemonError(String),
}

/// The message that describes the error.
pub open spec fn message_of(e: ServoStyleError) -> Seq<char> {
    match e {
        ServoStyleError::ServoNotFound => "Servo executable not found"@,
        ServoStyleError::ProcessStartError(s) => "Failed to start Servo process: "@ + s@,
        ServoStyleError::CommunicationError(s) => "Servo process communication error: "@ + s@,
        ServoStyleError::SerializationError(s) => "JSON serialization error: "@ + s@,
        ServoStyleError::ComputationError(s) => "Style computation failed: "@ + s@,
        ServoStyleError::DaemonError(s) => "Servo daemon not available: "@ + s@,
    }
}

impl ServoStyleError {
    /// The message that describes the error.
    pub fn message(&self) -> (r: String)
        ensures
            r@ == message_of(*self),
    {
        match self {
            ServoStyleError::ServoNotFound => String::from_str("Servo executable not found"),
            ServoStyleError::ProcessStartError(s) => prefixed("Failed to start Servo process: ", s.as_str()),
            ServoStyleError::CommunicationError(s) => prefixed("Servo process communication error: ", s.as_str()),
            ServoStyleError::SerializationError(s) => prefixed("JSON serialization error: ", s.as_str()),
            ServoStyleError::ComputationError(s) => prefixed("Style computation failed: ", s.as_str()),
            ServoStyleError::DaemonError(s) => prefixed("Servo daemon not available: ", s.as_str()),
        }
    }
}

/// A style engine that asks Servo its queries in batches, optionally through
/// a long-lived Servo process.
pub struct ServoStyleEngineOptimized {
    base_html: String,
    stylesheets: Vec<String>,
    servo_path: Option<String>,
    use_daemon: bool,
    batch_size: usize,
}

/// What a [`ServoStyleEngineOptimized`] holds.
pub struct OptimizedView {
    pub html: Seq<char>,
    pub stylesheets: Seq<Seq<char>>,
    pub servo_path: Option<Seq<char>>,
    pub use_daemon: bool,
    pub batch_size: nat,
}

impl View for ServoStyleEngineOptimized {
    type V = OptimizedView;

    closed spec fn view(&self) -> OptimizedView {
        OptimizedView {
            html: self.base_html@,
            stylesheets: self.stylesheets@.map_values(|s: String| s@),
            servo_path: opt_view(self.servo_path),
            use_daemon: self.use_daemon,
            batch_size: self.batch_size as nat,
        }
    }
}

/// An engine with no page and no style sheet yet.
pub open spec fn fresh(servo_path: Option<Seq<char>>, use_daemon: bool, batch_size: nat) -> OptimizedView {
    OptimizedView {
        html: Seq::empty(),
        stylesheets: Seq::empty(),
        servo_path,
        use_daemon,
        batch_size,
    }
}

/// The style sheets of the engine, one after another.
pub open spec fn css_of(e: OptimizedView) -> Seq<char> {
    join(e.stylesheets, "\n"@)
}

/// The script that answers one query.
pub open spec fn query_script(q: QueryView) -> Seq<char> {
    match q.property {
        Some(p) => filled(
            str_views(PROPERTY_QUERY_SCRIPT@),
            seq![q.selector, p, q.id, q.id, q.selector, p, q.id, q.id],
        ),
        None => filled(
            str_views(STYLES_QUERY_SCRIPT@),
            seq![q.selector, q.id, q.id, q.selector, q.id, q.id],
        ),
    }
}

/// The scripts of the queries, one after another.
pub open spec fn queries_script(qs: Seq<QueryView>) -> Seq<char>
    decreases qs.len(),
{
    if qs.len() == 0 {
        Seq::empty()
    } else {
        queries_script(qs.drop_last()) + query_script(qs.last())
    }
}

/// The page that answers a batch of queries on its output lines.
pub open spec fn batch_page(css: Seq<char>, html: Seq<char>, qs: Seq<QueryView>) -> Seq<char> {
    let n = decimal(qs.len());
    let script = filled(str_views(BATCH_SCRIPT@), seq![n, queries_script(qs), n]);
    filled(str_views(PAGE@), seq![css, html, script])
}

/// The id and the JSON text that follow `mark` on an output line.
pub open spec fn marked_fields(line: Seq<char>, mark: Seq<char>) -> Option<(Seq<char>, Seq<char>)> {
    match second_field(line, mark) {
        None => None,
        Some(rest) => split_once(rest, ':'),
    }
}

/// The response that a line reporting one property gives.
pub open spec fn value_line_response(line: Seq<char>) -> Option<ResponseView> {
    match marked_fields(line, VALUE_MARK@) {
        None => None,
        Some((id, json)) => match json_string_member(json, "value"@) {
            None => None,
            Some(v) => Some(
                ResponseView {
                    id,
                    success: true,
                    computed_value: Some(v),
                    computed_styles: None,
                    error: None,
                },
            ),
        },
    }
}

/// A string, or the empty string.
pub open spec fn string_or_empty(o: Option<Seq<char>>) -> Seq<char> {
    match o {
        Some(s) => s,
        None => Seq::empty(),
    }
}

/// Object entries with each value that is no string read as the empty string.
pub open spec fn entries_as_strings(es: Seq<(Seq<char>, Option<Seq<char>>)>) -> Seq<(Seq<char>, Seq<char>)> {
    es.map_values(|e: (Seq<char>, Option<Seq<char>>)| (e.0, string_or_empty(e.1)))
}

/// The response that a line reporting all properties gives.
pub open spec fn styles_line_response(line: Seq<char>) -> Option<ResponseView> {
    match marked_fields(line, STYLES_MARK@) {
        None => None,
        Some((id, json)) => match json_object_member(json, "styles"@) {
            None => None,
            Some(es) => Some(
                ResponseView {
                    id,
                    success: true,
                    computed_value: None,
                    computed_styles: Some(entries_as_strings(es)),
                    error: None,
                },
            ),
        },
    }
}

/// Nothing, or the one response.
pub open spec fn opt_seq(o: Option<ResponseView>) -> Seq<ResponseView> {
    match o {
        Some(r) => seq![r],
        None => Seq::empty(),
    }
}

/// The responses that one output line gives: a property, then all properties.
pub open spec fn line_responses(line: Seq<char>) -> Seq<ResponseView> {
    opt_seq(value_line_response(line)) + opt_seq(styles_line_response(line))
}

/// The responses that the output lines give, in order.
pub open spec fn output_responses(ls: Seq<Seq<char>>) -> Seq<ResponseView>
    decreases ls.len(),
{
    if ls.len() == 0 {
        Seq::empty()
    } else {
        output_responses(ls.drop_last()) + line_responses(ls.last())
    }
}

/// The styles of a response, if it has any, name each property once.
pub open spec fn styles_distinct(r: ResponseView) -> bool {
    r.computed_styles matches Some(s) ==> distinct_keys(s)
}

/// Some response has this id.
pub open spec fn has_id(rs: Seq<ResponseView>, id: Seq<char>) -> bool {
    exists|i: int| 0 <= i < rs.len() && rs[i].id == id
}

/// The failed response of a query that no output line answered.
pub open spec fn unanswered(id: Seq<char>) -> ResponseView {
    ResponseView {
        id,
        success: false,
        computed_value: None,
        computed_styles: None,
        error: Some(NO_RESULT@),
    }
}

/// A failed response for each query, in order, whose id no found response has.
pub open spec fn missing_responses(found: Seq<ResponseView>, qs: Seq<QueryView>) -> Seq<ResponseView>
    decreases qs.len(),
{
    if qs.len() == 0 {
        Seq::empty()
    } else if has_id(found, qs.last().id) {
        missing_responses(found, qs.drop_last())
    } else {
        missing_responses(found, qs.drop_last()).push(unanswered(qs.last().id))
    }
}

/// The responses that Servo's output gives for a batch: those that its lines
/// report (standard output first), then a failure for each unanswered query.
pub open spec fn batch_responses(stdout: Seq<char>, stderr: Seq<char>, qs: Seq<QueryView>) -> Seq<ResponseView> {
    let found = output_responses(lines(stdout) + lines(stderr));
    found + missing_responses(found, qs)
}

/// The outcome of a property query: the value of its first response, or why
/// there is none.
pub open spec fn value_outcome(rs: Seq<ResponseView>) -> Result<Seq<char>, Seq<char>> {
    if rs.len() == 0 {
        Err("No response received"@)
    } else if rs[0].success {
        match rs[0].computed_value {
            Some(v) => Ok(v),
            None => Err("No computed value returned"@),
        }
    } else {
        Err(error_or_unknown(rs[0].error))
    }
}

/// The outcome of an all-properties query: the styles of its first response,
/// or why there are none.
pub open spec fn styles_outcome(rs: Seq<ResponseView>) -> Result<Seq<(Seq<char>, Seq<char>)>, Seq<char>> {
    if rs.len() == 0 {
        Err("No response received"@)
    } else if rs[0].success {
        match rs[0].computed_styles {
            Some(v) => Ok(v),
            None => Err("No computed styles returned"@),
        }
    } else {
        Err(error_or_unknown(rs[0].error))
    }
}

/// The error a response gives, or `Unknown error`.
pub open spec fn error_or_unknown(e: Option<Seq<char>>) -> Seq<char> {
    match e {
        Some(m) => m,
        None => "Unknown error"@,
    }
}

/// The outcome of one query of a batch.
pub open spec fn batch_outcome(r: ResponseView) -> Result<Seq<char>, Seq<char>> {
    if r.success {
        match r.computed_value {
            Some(v) => Ok(v),
            None => match r.computed_styles {
                Some(s) => Ok(json_object_text(s)),
                None => Err("No result data"@),
            },
        }
    } else {
        Err(error_or_unknown(r.error))
    }
}

/// The label of the `i`-th result of a batch: the selector of the `i`-th
/// request, or `query_<i>` where there is none.
pub open spec fn batch_label(selectors: Seq<Seq<char>>, i: int) -> Seq<char> {
    if i < selectors.len() {
        selectors[i]
    } else {
        "query_"@ + decimal(i as nat)
    }
}

/// A computation error holds this message.
pub open spec fn is_computation_error(e: ServoStyleError, m: Seq<char>) -> bool {
    e matches ServoStyleError::ComputationError(s) && s@ == m
}

impl ServoStyleEngineOptimized {
    /// An engine that runs `servo` from the search path through a daemon, five
    /// queries to a batch.
    pub fn new() -> (r: Result<Self, ServoStyleError>)
        ensures
            match r {
                Ok(e) => e@ == fresh(None, true, 5),
                Err(e) => e == ServoStyleError::ServoNotFound,
            },
    {
        Self::with_options(None, true, 5)
    }

    /// An engine with the given options, where the Servo executable is there
    /// (at `servo_path`, or on the search path).
    pub fn with_options(servo_path: Option<String>, use_daemon: bool, batch_size: usize) -> (r:
        Result<Self, ServoStyleError>)
        ensures
            match r {
                Ok(e) => e@ == fresh(opt_view(servo_path), use_daemon, batch_size as nat),
                Err(e) => e == ServoStyleError::ServoNotFound,
            },
    {
        let found = servo_available(&servo_path);
        Self::with_lookup(servo_path, use_daemon, batch_size, found)
    }

    /// An engine with the given options once it is known whether the Servo
    /// executable was found.
    pub fn with_lookup(
        servo_path: Option<String>,
        use_daemon: bool,
        batch_size: usize,
        servo_found: bool,
    ) -> (r: Result<Self, ServoStyleError>)
        ensures
            servo_found <==> r is Ok,
            match r {
                Ok(e) => e@ == fresh(opt_view(servo_path), use_daemon, batch_size as nat),
                Err(e) => e == ServoStyleError::ServoNotFound,
            },
    {
        if !servo_found {
            return Err(ServoStyleError::ServoNotFound);
        }
        let e = ServoStyleEngineOptimized {
            base_html: String::new(),
            stylesheets: Vec::new(),
            servo_path,
            use_daemon,
            batch_size,
        };
        assert(e@.stylesheets =~= Seq::<Seq<char>>::empty());
        Ok(e)
    }

    /// Adds a style sheet after those already there.
    pub fn add_stylesheet(&mut self, css: &str) -> (r: Result<(), ServoStyleError>)
        ensures
            r is Ok,
            final(self)@.stylesheets == old(self)@.stylesheets.push(css@),
            final(self)@.html == old(self)@.html,
            final(self)@.servo_path == old(self)@.servo_path,
            final(self)@.use_daemon == old(self)@.use_daemon,
            final(self)@.batch_size == old(self)@.batch_size,
    {
        self.stylesheets.push(String::from_str(css));
        assert(self@.stylesheets =~= old(self)@.stylesheets.push(css@));
        Ok(())
    }

    /// Sets the page body in which selectors pick elements.
    pub fn set_html(&mut self, html: &str) -> (r: Result<(), ServoStyleError>)
        ensures
            r is Ok,
            final(self)@.html == html@,
            final(self)@.stylesheets == old(self)@.stylesheets,
            final(self)@.servo_path == old(self)@.servo_path,
            final(self)@.use_daemon == old(self)@.use_daemon,
            final(self)@.batch_size == old(self)@.batch_size,
    {
        self.base_html = String::from_str(html);
        Ok(())
    }

    /// Whether queries go through a long-lived Servo process.
    pub fn uses_daemon(&self) -> (r: bool)
        ensures
            r == self@.use_daemon,
    {
        self.use_daemon
    }

    /// The command that starts Servo: the configured path, or `servo`.
    pub fn servo_command(&self) -> (r: String)
        ensures
            r@ == match self@.servo_path {
                Some(p) => p,
                None => "servo"@,
            },
    {
        match &self.servo_path {
            Some(p) => p.clone(),
            None => String::from_str("servo"),
        }
    }

    /// The style sheets, one after another.
    pub fn combined_css(&self) -> (r: String)
        ensures
            r@ == css_of(self@),
    {
        let r = join_exec(&self.stylesheets, "\n");
        assert(crate::text::string_views(self.stylesheets@) =~= self@.stylesheets);
        r
    }

    /// A query, under a fresh random id, for `property` (or, where it is
    /// `None`, all properties) of the element that `selector` picks.
    pub fn new_query(&self, selector: &str, property: Option<&str>) -> (r: StyleQuery)
        ensures
            r@.html == self@.html,
            r@.css == css_of(self@),
            r@.selector == selector@,
            is_query_id(r@.id),
            !r@.id.contains(':'),
            r@.property == match property {
                Some(p) => Some(p@),
                None => None::<Seq<char>>,
            },
            r@.pseudo_element is None,
    {
        let prop = match property {
            Some(p) => Some(String::from_str(p)),
            None => None,
        };
        let id = new_query_id();
        proof {
            crate::query::lemma_query_id_has_no_colon(id@);
        }
        StyleQuery {
            id,
            html: self.base_html.clone(),
            css: self.combined_css(),
            selector: String::from_str(selector),
            property: prop,
            pseudo_element: None,
        }
    }

    /// One query for each (selector, property) request, in order.
    pub fn batch_queries(&self, requests: &Vec<(String, Option<String>)>) -> (r: Vec<StyleQuery>)
        ensures
            r@.len() == requests@.len(),
            forall|i: int|
                0 <= i < r@.len() ==> {
                    &&& (#[trigger] r@[i])@.html == self@.html
                    &&& r@[i]@.css == css_of(self@)
                    &&& r@[i]@.selector == requests@[i].0@
                    &&& is_query_id(r@[i]@.id)
                    &&& !r@[i]@.id.contains(':')
                    &&& r@[i]@.property == opt_view(requests@[i].1)
                    &&& r@[i]@.pseudo_element is None
                },
    {
        let mut r: Vec<StyleQuery> = Vec::new();
        let n = requests.len();
        let mut i: usize = 0;
        while i < n
            invariant
                n == requests@.len(),
                i <= n,
                r@.len() == i,
                forall|k: int|
                    0 <= k < i ==> {
                        &&& (#[trigger] r@[k])@.html == self@.html
                        &&& r@[k]@.css == css_of(self@)
                        &&& r@[k]@.selector == requests@[k].0@
                        &&& is_query_id(r@[k]@.id)
                        &&& !r@[k]@.id.contains(':')
                        &&& r@[k]@.property == opt_view(requests@[k].1)
                        &&& r@[k]@.pseudo_element is None
                    },
            decreases n - i,
        {
            let prop: Option<&str> = match &requests[i].1 {
                Some(p) => Some(p.as_str()),
                None => None,
            };
            let q = self.new_query(requests[i].0.as_str(), prop);
            r.push(q);
            i = i + 1;
        }
        r
    }

    /// The page that asks Servo all `queries` at once: the style sheets, the
    /// page body, and a script that reports each answer on a line of its own.
    pub fn create_batch_html(&self, queries: &[StyleQuery]) -> (r: String)
        ensures
            r@ == batch_page(css_of(self@), self@.html, query_views(queries@)),
    {
        let combined_css = self.combined_css();
        let mut js_queries = String::new();
        let n = queries.len();
        let mut i: usize = 0;
        while i < n
            invariant
                n == queries@.len(),
                i <= n,
                js_queries@ == queries_script(query_views(queries@).take(i as int)),
            decreases n - i,
        {
            let s = query_script_exec(&queries[i]);
            js_queries.append(s.as_str());
            assert(query_views(queries@).take(i + 1).drop_last() =~= query_views(queries@).take(
                i as int,
            ));
            i = i + 1;
        }
        assert(query_views(queries@).take(n as int) =~= query_views(queries@));
        let count = decimal_exec(n);
        let script_args: [&str; 3] = [count.as_str(), js_queries.as_str(), count.as_str()];
        let script = fill(&BATCH_SCRIPT, &script_args);
        let page_args: [&str; 3] = [combined_css.as_str(), self.base_html.as_str(), script.as_str()];
        let page = fill(&PAGE, &page_args);
        assert(str_views(script_args@) =~= seq![
            decimal(n as nat),
            queries_script(query_views(queries@)),
            decimal(n as nat),
        ]);
        assert(str_views(page_args@) =~= seq![css_of(self@), self@.html, script@]);
        page
    }

    /// The responses that Servo's output gives for a batch of `queries`: one
    /// for each line that reports an answer (standard output first), then a
    /// failure for each query that no line answered.
    pub fn parse_batch_output(&self, stdout: &str, stderr: &str, queries: &[StyleQuery]) -> (r:
        Result<Vec<StyleResponse>, ServoStyleError>)
        ensures
            r matches Ok(v) && response_views(v@) == batch_responses(
                stdout@,
                stderr@,
                query_views(queries@),
            ) && forall|i: int| 0 <= i < v@.len() ==> styles_distinct(#[trigger] v@[i]@),
    {
        Ok(batch_responses_exec(stdout, stderr, queries))
    }

    /// What a property query returns, given the responses to its batch.
    pub fn computed_value_result(responses: Vec<StyleResponse>) -> (r: Result<String, ServoStyleError>)
        ensures
            match value_outcome(response_views(responses@)) {
                Ok(v) => r matches Ok(s) && s@ == v,
                Err(m) => r matches Err(e) && is_computation_error(e, m),
            },
    {
        if responses.len() == 0 {
            return Err(ServoStyleError::ComputationError(String::from_str("No response received")));
        }
        let mut responses = responses;
        let ghost rs = response_views(responses@);
        let response = responses.swap_remove(0);
        assert(response@ == rs[0]);
        if response.success {
            match response.computed_value {
                Some(v) => Ok(v),
                None => Err(
                    ServoStyleError::ComputationError(String::from_str("No computed value returned")),
                ),
            }
        } else {
            Err(ServoStyleError::ComputationError(error_or_unknown_exec(response.error)))
        }
    }

    /// What an all-properties query returns, given the responses to its batch.
    pub fn computed_styles_result(responses: Vec<StyleResponse>) -> (r: Result<
        Vec<(String, String)>,
        ServoStyleError,
    >)
        ensures
            match styles_outcome(response_views(responses@)) {
                Ok(v) => r matches Ok(s) && pair_views(s@) == v,
                Err(m) => r matches Err(e) && is_computation_error(e, m),
            },
    {
        if responses.len() == 0 {
            return Err(ServoStyleError::ComputationError(String::from_str("No response received")));
        }
        let mut responses = responses;
        let ghost rs = response_views(responses@);
        let response = responses.swap_remove(0);
        assert(response@ == rs[0]);
        if response.success {
            match response.computed_styles {
                Some(v) => Ok(v),
                None => Err(
                    ServoStyleError::ComputationError(
                        String::from_str("No computed styles returned"),
                    ),
                ),
            }
        } else {
            Err(ServoStyleError::ComputationError(error_or_unknown_exec(response.error)))
        }
    }

    /// The labelled outcome of each response of a batch, in order: labelled
    /// with the selector of the request at the same place.
    pub fn batch_results(requests: &Vec<(String, Option<String>)>, responses: Vec<StyleResponse>) -> (r:
        Vec<(String, Result<String, ServoStyleError>)>)
        ensures
            r@.len() == responses@.len(),
            forall|i: int|
                0 <= i < r@.len() ==> {
                    &&& (#[trigger] r@[i]).0@ == batch_label(
                        requests@.map_values(|q: (String, Option<String>)| q.0@),
                        i,
                    )
                    &&& match batch_outcome(responses@[i]@) {
                        Ok(v) => r@[i].1 matches Ok(s) && s@ == v,
                        Err(m) => r@[i].1 matches Err(e) && is_computation_error(e, m),
                    }
                },
    {
        let ghost sels = requests@.map_values(|q: (String, Option<String>)| q.0@);
        let ghost rs = responses@;
        let mut results: Vec<(String, Result<String, ServoStyleError>)> = Vec::new();
        let n = responses.len();
        let mut i: usize = 0;
        while i < n
            invariant
                n == rs.len(),
                i <= n,
                results@.len() == i,
                sels == requests@.map_values(|q: (String, Option<String>)| q.0@),
                forall|k: int|
                    0 <= k < i ==> {
                        &&& (#[trigger] results@[k]).0@ == batch_label(sels, k)
                        &&& match batch_outcome(rs[k]@) {
                            Ok(v) => results@[k].1 matches Ok(s) && s@ == v,
                            Err(m) => results@[k].1 matches Err(e) && is_computation_error(e, m),
                        }
                    },
                responses@ == rs,
            decreases n - i,
        {
            let label = if i < requests.len() {
                requests[i].0.clone()
            } else {
                let mut l = String::from_str("query_");
                let d = decimal_exec(i);
                l.append(d.as_str());
                l
            };
            let outcome = batch_outcome_exec(&responses[i]);
            results.push((label, outcome));
            i = i + 1;
        }
        results
    }
}

/// Each request of a batch as a (selector, property) request.
pub fn property_requests(queries: &Vec<(String, String, Option<String>)>) -> (r: Vec<(String, Option<String>)>)
    ensures
        r@.len() == queries@.len(),
        forall|i: int|
            0 <= i < r@.len() ==> (#[trigger] r@[i]).0@ == queries@[i].0@ && opt_view(r@[i].1)
                == Some(queries@[i].1@),
{
    let mut r: Vec<(String, Option<String>)> = Vec::new();
    let n = queries.len();
    let mut i: usize = 0;
    while i < n
        invariant
            n == queries@.len(),
            i <= n,
            r@.len() == i,
            forall|k: int|
                0 <= k < i ==> (#[trigger] r@[k]).0@ == queries@[k].0@ && opt_view(r@[k].1)
                    == Some(queries@[k].1@),
        decreases n - i,
    {
        r.push((queries[i].0.clone(), Some(queries[i].1.clone())));
        i = i + 1;
    }
    r
}

fn error_or_unknown_exec(e: Option<String>) -> (r: String)
    ensures
        r@ == error_or_unknown(opt_view(e)),
{
    match e {
        Some(m) => m,
        None => String::from_str("Unknown error"),
    }
}

fn batch_outcome_exec(r: &StyleResponse) -> (o: Result<String, ServoStyleError>)
    ensures
        match batch_outcome(r@) {
            Ok(v) => o matches Ok(s) && s@ == v,
            Err(m) => o matches Err(e) && is_computation_error(e, m),
        },
{
    if r.success {
        match &r.computed_value {
            Some(v) => Ok(v.clone()),
            None => match &r.computed_styles {
                Some(s) => Ok(object_text(s)),
                None => Err(ServoStyleError::ComputationError(String::from_str("No result data"))),
            },
        }
    } else {
        Err(ServoStyleError::ComputationError(error_or_unknown_exec(r.error.clone())))
    }
}

fn query_script_exec(q: &StyleQuery) -> (r: String)
    ensures
        r@ == query_script(q@),
{
    match &q.property {
        Some(p) => {
            let sel = q.selector.as_str();
            let id = q.id.as_str();
            let args: [&str; 8] = [sel, p.as_str(), id, id, sel, p.as_str(), id, id];
            assert(str_views(args@) =~= seq![
                q@.selector,
                p@,
                q@.id,
                q@.id,
                q@.selector,
                p@,
                q@.id,
                q@.id,
            ]);
            fill(&PROPERTY_QUERY_SCRIPT, &args)
        },
        None => {
            let sel = q.selector.as_str();
            let id = q.id.as_str();
            let args: [&str; 6] = [sel, id, id, sel, id, id];
            assert(str_views(args@) =~= seq![
                q@.selector,
                q@.id,
                q@.id,
                q@.selector,
                q@.id,
                q@.id,
            ]);
            fill(&STYLES_QUERY_SCRIPT, &args)
        },
    }
}

/// The id and JSON text that follow `mark` on `line`.
fn marked_fields_exec(line: &Vec<char>, mark: &Vec<char>) -> (r: Option<(String, String)>)
    ensures
        match r {
            Some((id, json)) => marked_fields(line@, mark@) == Some((id@, json@)),
            None => marked_fields(line@, mark@) is None,
        },
{
    match second_field_exec(line, mark) {
        None => None,
        Some(rest) => match split_once_exec(&rest, ':') {
            None => None,
            Some((id, json)) => Some(
                (string_from_chars(id.as_slice()), string_from_chars(json.as_slice())),
            ),
        },
    }
}

fn entries_as_strings_exec(es: Vec<(String, Option<String>)>) -> (r: Vec<(String, String)>)
    ensures
        pair_views(r@) == entries_as_strings(crate::style_map::member_views(es@)),
        distinct_keys(crate::style_map::member_views(es@)) ==> distinct_keys(pair_views(r@)),
{
    let ghost ms = crate::style_map::member_views(es@);
    let mut r: Vec<(String, String)> = Vec::new();
    let n = es.len();
    let mut i: usize = 0;
    while i < n
        invariant
            n == es@.len(),
            ms == crate::style_map::member_views(es@),
            i <= n,
            pair_views(r@) == entries_as_strings(ms.take(i as int)),
        decreases n - i,
    {
        let v = match &es[i].1 {
            Some(s) => s.clone(),
            None => String::new(),
        };
        let ghost old_r = r@;
        r.push((es[i].0.clone(), v));
        assert(pair_views(r@) =~= pair_views(old_r).push((es@[i as int].0@, v@)));
        assert(entries_as_strings(ms.take(i + 1)) =~= entries_as_strings(ms.take(i as int)).push(
            (ms[i as int].0, string_or_empty(ms[i as int].1)),
        ));
        i = i + 1;
    }
    assert(ms.take(n as int) =~= ms);
    assert forall|a: int| 0 <= a < ms.len() implies (#[trigger] pair_views(r@)[a]).0 == ms[a].0 by {
        assert(entries_as_strings(ms)[a].0 == ms[a].0);
    }
    r
}

/// Appends the responses that `line` gives.
fn push_line_responses(line: &Vec<char>, value_mark: &Vec<char>, styles_mark: &Vec<char>, out: &mut Vec<StyleResponse>)
    requires
        value_mark@ == VALUE_MARK@,
        styles_mark@ == STYLES_MARK@,
    ensures
        response_views(final(out)@) == response_views(old(out)@) + line_responses(line@),
        (forall|i: int| 0 <= i < old(out)@.len() ==> styles_distinct(#[trigger] old(out)@[i]@))
            ==> (forall|i: int| 0 <= i < final(out)@.len() ==> styles_distinct(#[trigger] final(out)@[i]@)),
{
    let ghost start = response_views(out@);
    if let Some((id, json)) = marked_fields_exec(line, value_mark) {
        if let Some(value) = string_member(json.as_str(), "value") {
            out.push(
                StyleResponse {
                    id,
                    success: true,
                    computed_value: Some(value),
                    computed_styles: None,
                    error: None,
                },
            );
        }
    }
    assert(response_views(out@) =~= start + opt_seq(value_line_response(line@)));
    let ghost mid = response_views(out@);
    if let Some((id, json)) = marked_fields_exec(line, styles_mark) {
        if let Some(es) = object_member(json.as_str(), "styles") {
            let styles = entries_as_strings_exec(es);
            out.push(
                StyleResponse {
                    id,
                    success: true,
                    computed_value: None,
                    computed_styles: Some(styles),
                    error: None,
                },
            );
        }
    }
    assert(response_views(out@) =~= mid + opt_seq(styles_line_response(line@)));
    assert(response_views(out@) =~= start + line_responses(line@));
}

/// Whether one of the first `found` responses has this id.
fn has_id_exec(rs: &Vec<StyleResponse>, found: usize, id: &String) -> (r: bool)
    requires
        found <= rs@.len(),
    ensures
        r == has_id(response_views(rs@).take(found as int), id@),
{
    let ghost fs = response_views(rs@).take(found as int);
    let mut j: usize = 0;
    while j < found
        invariant
            found <= rs@.len(),
            fs == response_views(rs@).take(found as int),
            j <= found,
            forall|k: int| 0 <= k < j ==> fs[k].id != id@,
        decreases found - j,
    {
        if rs[j].id == *id {
            assert(fs[j as int].id == id@);
            return true;
        }
        j = j + 1;
    }
    false
}

fn batch_responses_exec(stdout: &str, stderr: &str, queries: &[StyleQuery]) -> (r: Vec<StyleResponse>)
    ensures
        response_views(r@) == batch_responses(stdout@, stderr@, query_views(queries@)),
        forall|i: int| 0 <= i < r@.len() ==> styles_distinct(#[trigger] r@[i]@),
{
    let value_mark = chars_of(VALUE_MARK);
    let styles_mark = chars_of(STYLES_MARK);
    let mut all = lines_exec(&chars_of(stdout));
    let mut err_lines = lines_exec(&chars_of(stderr));
    let ghost out_v = char_views(all@);
    let ghost err_v = char_views(err_lines@);
    all.append(&mut err_lines);
    let ghost ls = lines(stdout@) + lines(stderr@);
    assert(char_views(all@) =~= ls);
    let mut responses: Vec<StyleResponse> = Vec::new();
    let n = all.len();
    let mut i: usize = 0;
    while i < n
        invariant
            n == all@.len(),
            char_views(all@) == ls,
            value_mark@ == VALUE_MARK@,
            styles_mark@ == STYLES_MARK@,
            i <= n,
            response_views(responses@) == output_responses(ls.take(i as int)),
            forall|j: int| 0 <= j < responses@.len() ==> styles_distinct(#[trigger] responses@[j]@),
        decreases n - i,
    {
        push_line_responses(&all[i], &value_mark, &styles_mark, &mut responses);
        assert(ls.take(i + 1).drop_last() =~= ls.take(i as int));
        i = i + 1;
    }
    assert(ls.take(n as int) =~= ls);
    let found = responses.len();
    let ghost fs = response_views(responses@);
    let ghost qs = query_views(queries@);
    let m = queries.len();
    let mut k: usize = 0;
    while k < m
        invariant
            m == queries@.len(),
            qs == query_views(queries@),
            found <= responses@.len(),
            fs == response_views(responses@).take(found as int),
            fs == output_responses(ls),
            k <= m,
            response_views(responses@) == fs + missing_responses(fs, qs.take(k as int)),
            forall|j: int| 0 <= j < responses@.len() ==> styles_distinct(#[trigger] responses@[j]@),
        decreases m - k,
    {
        assert(qs.take(k + 1).drop_last() =~= qs.take(k as int));
        let ghost before = response_views(responses@);
        if !has_id_exec(&responses, found, &queries[k].id) {
            responses.push(
                StyleResponse {
                    id: queries[k].id.clone(),
                    success: false,
                    computed_value: None,
                    computed_styles: None,
                    error: Some(String::from_str(NO_RESULT)),
                },
            );
            assert(response_views(responses@) =~= before.push(unanswered(qs[k as int].id)));
        }
        assert(response_views(responses@).take(found as int) =~= fs);
        k = k + 1;
    }
    assert(qs.take(m as int) =~= qs);
    responses
}

/// A query that the found responses did not answer gets a failed response.
proof fn lemma_missing_covers(found: Seq<ResponseView>, qs: Seq<QueryView>)
    ensures
        forall|i: int|
            0 <= i < qs.len() ==> has_id(found, #[trigger] qs[i].id) || has_id(
                missing_responses(found, qs),
                qs[i].id,
            ),
    decreases qs.len(),
{
    if qs.len() > 0 {
        let prev = qs.drop_last();
        lemma_missing_covers(found, prev);
        let ms = missing_responses(found, qs);
        let pm = missing_responses(found, prev);
        assert forall|i: int| 0 <= i < qs.len() implies has_id(found, #[trigger] qs[i].id) || has_id(
            ms,
            qs[i].id,
        ) by {
            if i < qs.len() - 1 {
                assert(prev[i] == qs[i]);
                if !has_id(found, qs[i].id) {
                    let j = choose|j: int| 0 <= j < pm.len() && pm[j].id == qs[i].id;
                    assert(ms[j] == pm[j]);
                }
            } else if !has_id(found, qs[i].id) {
                assert(ms[ms.len() - 1] == unanswered(qs.last().id));
            }
        }
    }
}

/// Every query of a batch gets a response with its id, whatever Servo wrote.
pub proof fn lemma_every_query_answered(stdout: Seq<char>, stderr: Seq<char>, qs: Seq<QueryView>)
    ensures
        forall|i: int|
            0 <= i < qs.len() ==> has_id(batch_responses(stdout, stderr, qs), #[trigger] qs[i].id),
{
    let found = output_responses(lines(stdout) + lines(stderr));
    let all = batch_responses(stdout, stderr, qs);
    lemma_missing_covers(found, qs);
    assert forall|i: int| 0 <= i < qs.len() implies has_id(all, #[trigger] qs[i].id) by {
        if has_id(found, qs[i].id) {
            let j = choose|j: int| 0 <= j < found.len() && found[j].id == qs[i].id;
            assert(all[j] == found[j]);
        } else {
            let ms = missing_responses(found, qs);
            let j = choose|j: int| 0 <= j < ms.len() && ms[j].id == qs[i].id;
            assert(all[found.len() + j] == ms[j]);
        }
    }
}

/// A line made of a mark, an id, a colon and a JSON text gives back that id
/// and that text, where the id holds no colon and the text after the mark
/// holds no second mark.
pub proof fn lemma_marked_fields_read_back(mark: Seq<char>, id: Seq<char>, json: Seq<char>)
    requires
        !id.contains(':'),
        !contains(id.push(':') + json, mark),
    ensures
        marked_fields(mark + (id.push(':') + json), mark) == Some((id, json)),
{
    let rest = id.push(':') + json;
    let line = mark + rest;
    // The mark opens the line.
    assert(line.subrange(0, mark.len() as int) =~= mark);
    assert(find_from(line, mark, 0) == Some(0int));
    // No second mark follows it.
    crate::text::lemma_find_from(rest, mark, 0);
    assert forall|j: int| mark.len() <= j implies !#[trigger] crate::text::occurs_at(line, mark, j) by {
        crate::text::lemma_occurs_shift(mark, rest, mark, j - mark.len());
    }
    crate::text::lemma_find_none(line, mark, mark.len() as int);
    assert(line.subrange(mark.len() as int, line.len() as int) =~= rest);
    assert(second_field(line, mark) == Some(rest));
    // The first colon of the rest ends the id.
    let colon = seq![':'];
    let k = id.len() as int;
    assert(rest.subrange(k, k + 1) =~= colon);
    assert(crate::text::occurs_at(rest, colon, k));
    crate::text::lemma_find_from(rest, colon, 0);
    match find_from(rest, colon, 0) {
        Some(i) => {
            if i < k {
                assert(rest.subrange(i, i + 1)[0] == rest[i]);
                assert(rest[i] == id[i]);
                assert(id.contains(':'));
            }
            assert(i == k);
        },
        None => {},
    }
    assert(rest.subrange(0, k) =~= id);
    assert(rest.subrange(k + 1, rest.len() as int) =~= json);
}

/// A line that reports a property for query `id` in the shape the batch page
/// logs it is read back as that query's answer: the `value` that its JSON
/// text holds.
pub proof fn lemma_value_line_read_back(id: Seq<char>, json: Seq<char>)
    requires
        !id.contains(':'),
        !contains(id.push(':') + json, VALUE_MARK@),
    ensures
        value_line_response(VALUE_MARK@ + (id.push(':') + json)) == match json_string_member(
            json,
            "value"@,
        ) {
            Some(v) => Some(
                ResponseView {
                    id,
                    success: true,
                    computed_value: Some(v),
                    computed_styles: None,
                    error: None,
                },
            ),
            None => None,
        },
{
    lemma_marked_fields_read_back(VALUE_MARK@, id, json);
}

/// A line that reports all properties for query `id` in the shape the batch
/// page logs it is read back as that query's answer: the `styles` object that
/// its JSON text holds.
pub proof fn lemma_styles_line_read_back(id: Seq<char>, json: Seq<char>)
    requires
        !id.contains(':'),
        !contains(id.push(':') + json, STYLES_MARK@),
    ensures
        styles_line_response(STYLES_MARK@ + (id.push(':') + json)) == match json_object_member(
            json,
            "styles"@,
        ) {
            Some(es) => Some(
                ResponseView {
                    id,
                    success: true,
                    computed_value: None,
                    computed_styles: Some(entries_as_strings(es)),
                    error: None,
                },
            ),
            None => None,
        },
{
    lemma_marked_fields_read_back(STYLES_MARK@, id, json);
}

} // verus!
