//! Style queries put to Servo and the responses read back.
use vstd::prelude::*;
use crate::style_map::{opt_view, pair_views};

verus! {

/// Marks an output line that reports one property.
pub const VALUE_MARK: &'static str = "COMPUTED_STYLE_RESULT:";

/// Marks an output line that reports all properties.
pub const STYLES_MARK: &'static str = "COMPUTED_STYLES_RESULT:";

/// Marks an output line that reports a failed query.
pub const ERROR_MARK: &'static str = "COMPUTED_STYLE_ERROR:";

/// One question for the engine: the value of a property (or of all
/// properties) of the element that a selector picks in a page.
#[derive(Debug)]
pub struct StyleQuery {
    pub id: String,
    pub html: String,
    pub css: String,
    pub selector: String,
    /// `None` asks for every property.
    pub property: Option<String>,
    pub pseudo_element: Option<String>,
}

/// What a [`StyleQuery`] is, as plain text values.
pub struct QueryView {
    pub id: Seq<char>,
    pub html: Seq<char>,
    pub css: Seq<char>,
    pub selector: Seq<char>,
    pub property: Option<Seq<char>>,
    pub pseudo_element: Option<Seq<char>>,
}

impl View for StyleQuery {
    type V = QueryView;

    open spec fn view(&self) -> QueryView {
        QueryView {
            id: self.id@,
            html: self.html@,
            css: self.css@,
            selector: self.selector@,
            property: opt_view(self.property),
            pseudo_element: opt_view(self.pseudo_element),
        }
    }
}

/// The answer to one query.
#[derive(Debug)]
pub struct StyleResponse {
    pub id: String,
    pub success: bool,
    pub computed_value: Option<String>,
    /// Property names with their values, each name once.
    pub computed_styles: Option<Vec<(String, String)>>,
    pub error: Option<String>,
}

/// What a [`StyleResponse`] is, as plain text values.
pub struct ResponseView {
    pub id: Seq<char>,
    pub success: bool,
    pub computed_value: Option<Seq<char>>,
    pub computed_styles: Option<Seq<(Seq<char>, Seq<char>)>>,
    pub error: Option<Seq<char>>,
}

/// The view of optional style pairs.
pub open spec fn styles_view(o: Option<Vec<(String, String)>>) -> Option<Seq<(Seq<char>, Seq<char>)>> {
    match o {
        Some(v) => Some(pair_views(v@)),
        None => None,
    }
}

impl View for StyleResponse {
    type V = ResponseView;

    open spec fn view(&self) -> ResponseView {
        ResponseView {
            id: self.id@,
            success: self.success,
            computed_value: opt_view(self.computed_value),
            computed_styles: styles_view(self.computed_styles),
            error: opt_view(self.error),
        }
    }
}

/// The views of the queries, in order.
pub open spec fn query_views(v: Seq<StyleQuery>) -> Seq<QueryView> {
    v.map_values(|q: StyleQuery| q@)
}

/// The views of the responses, in order.
pub open spec fn response_views(v: Seq<StyleResponse>) -> Seq<ResponseView> {
    v.map_values(|r: StyleResponse| r@)
}

/// A character of the hyphenated lower-case text form of a UUID.
pub open spec fn is_id_char(c: char) -> bool {
    ('0' <= c && c <= '9') || ('a' <= c && c <= 'f') || c == '-'
}

/// The shape of a query id: 36 lower-case hexadecimal digits and hyphens.
pub open spec fn is_query_id(s: Seq<char>) -> bool {
    s.len() == 36 && forall|i: int| 0 <= i < s.len() ==> is_id_char(#[trigger] s[i])
}

/// A query id holds no colon, so it ends where an output line puts one.
pub proof fn lemma_query_id_has_no_colon(s: Seq<char>)
    requires
        is_query_id(s),
    ensures
        !s.contains(':'),
{
    assert forall|i: int| 0 <= i < s.len() implies s[i] != ':' by {
        assert(is_id_char(s[i]));
    }
}

/// Relies on `uuid::Uuid::new_v4` and the `Display` of a UUID, which writes its
/// hyphenated form in lower case: 32 hexadecimal digits and 4 hyphens. The
/// value itself is random.
#[verifier::external_body]
pub fn new_query_id() -> (r: String)
    ensures
        is_query_id(r@),
{
    uuid::Uuid::new_v4().to_string()
}

/// Relies on `which::which`: whether an executable of this name is found on
/// the search path, which depends on the environment and the disk.
#[verifier::external_body]
fn on_search_path(name: &str) -> (r: bool) {
    which::which(name).is_ok()
}

/// Relies on `std::path::Path::exists`: whether something is at `path`, which
/// depends on the disk.
#[verifier::external_body]
fn path_exists(path: &str) -> (r: bool) {
    std::path::Path::new(path).exists()
}

/// Whether a Servo executable is there: at `servo_path` when one is given,
/// else on the search path under the name `servo`.
pub fn servo_available(servo_path: &Option<String>) -> (r: bool) {
    match servo_path {
        Some(p) => path_exists(p.as_str()),
        None => on_search_path("servo"),
    }
}

} // verus!
