//! Reads of HTML documents, made with the `scraper` crate.
use vstd::prelude::*;

verus! {

/// The views of a list of strings.
pub open spec fn views(v: Seq<String>) -> Seq<Seq<char>> {
    v.map_values(|s: String| s@)
}

/// The views of a list of lists of strings.
pub open spec fn views2(v: Seq<Vec<String>>) -> Seq<Seq<Seq<char>>> {
    v.map_values(|l: Vec<String>| views(l@))
}

/// The view of an optional string.
pub open spec fn opt_view(o: Option<String>) -> Option<Seq<char>> {
    match o {
        Some(s) => Some(s@),
        None => None,
    }
}

/// The views of a list of lists of optional strings.
pub open spec fn attrs_view(v: Seq<Vec<Option<String>>>) -> Seq<Seq<Option<Seq<char>>>> {
    v.map_values(|e: Vec<Option<String>>| e@.map_values(|o: Option<String>| opt_view(o)))
}

/// What `scraper` finds in a document parsed with `Html::parse_document`: for each
/// element that `selector` matches, in document order, the text nodes below it.
pub uninterp spec fn document_text_nodes(html: Seq<char>, selector: Seq<char>) -> Option<Seq<Seq<Seq<char>>>>;

/// What `scraper` finds in a document parsed with `Html::parse_document`: for each
/// element that `selector` matches, in document order, its inner HTML.
pub uninterp spec fn document_inner_htmls(html: Seq<char>, selector: Seq<char>) -> Option<Seq<Seq<char>>>;

/// What `scraper` finds in a document parsed with `Html::parse_document`: for each
/// element that `selector` matches, in document order, the value of each attribute in `names`.
pub uninterp spec fn document_attributes(html: Seq<char>, selector: Seq<char>, names: Seq<Seq<char>>) -> Option<Seq<Seq<Option<Seq<char>>>>>;

/// What `scraper` finds in HTML parsed with `Html::parse_fragment`: for each element
/// that `outer` matches, for each element below it that `inner` matches, its text nodes.
pub uninterp spec fn fragment_scoped_text_nodes(html: Seq<char>, outer: Seq<char>, inner: Seq<char>) -> Option<Seq<Seq<Seq<Seq<char>>>>>;

/// What `scraper` finds in HTML parsed with `Html::parse_fragment`: for each element
/// that `outer` matches, for each element below it that `middle` matches, for each
/// element below that one that `inner` matches, its text nodes.
pub uninterp spec fn fragment_scoped2_text_nodes(html: Seq<char>, outer: Seq<char>, middle: Seq<char>, inner: Seq<char>) -> Option<Seq<Seq<Seq<Seq<Seq<char>>>>>>;

/// Calls `Html::parse_document`, `Selector::parse`, `Html::select` and `ElementRef::text`:
/// the text nodes below each element that `selector` matches. The result is named, not
/// stated; it is `None` where `Selector::parse` refuses the selector.
#[verifier::external_body]
pub(crate) fn select_text_nodes(html: &str, selector: &str) -> (r: Option<Vec<Vec<String>>>)
    ensures
        r is None <==> document_text_nodes(html@, selector@) is None,
        r matches Some(v) ==> document_text_nodes(html@, selector@) == Some(views2(v@)),
{
    let sel = scraper::Selector::parse(selector).ok()?;
    let doc = scraper::Html::parse_document(html);
    Some(doc.select(&sel).map(|e| e.text().map(String::from).collect()).collect())
}

/// Calls `Html::parse_document`, `Selector::parse`, `Html::select` and
/// `ElementRef::inner_html`: the inner HTML of each element that `selector` matches.
/// The result is named, not stated; it is `None` where `Selector::parse` refuses the selector.
#[verifier::external_body]
pub(crate) fn select_inner_html(html: &str, selector: &str) -> (r: Option<Vec<String>>)
    ensures
        r is None <==> document_inner_htmls(html@, selector@) is None,
        r matches Some(v) ==> document_inner_htmls(html@, selector@) == Some(views(v@)),
{
    let sel = scraper::Selector::parse(selector).ok()?;
    let doc = scraper::Html::parse_document(html);
    Some(doc.select(&sel).map(|e| e.inner_html()).collect())
}

/// Calls `Html::parse_document`, `Selector::parse`, `Html::select` and `Element::attr`:
/// for each element that `selector` matches, the value of each attribute named in
/// `names`, one per name. Which elements match is named, not stated; the result is
/// `None` where `Selector::parse` refuses the selector.
#[verifier::external_body]
pub(crate) fn select_attributes(html: &str, selector: &str, names: &Vec<String>) -> (r: Option<Vec<Vec<Option<String>>>>)
    ensures
        r is None <==> document_attributes(html@, selector@, views(names@)) is None,
        r matches Some(v) ==> document_attributes(html@, selector@, views(names@)) == Some(attrs_view(v@)),
        r matches Some(v) ==> forall|i: int| 0 <= i < v@.len() ==> (#[trigger] v@[i])@.len() == names@.len(),
{
    let sel = scraper::Selector::parse(selector).ok()?;
    let doc = scraper::Html::parse_document(html);
    Some(doc.select(&sel).map(|e| names.iter().map(|n| e.value().attr(n).map(String::from)).collect()).collect())
}

/// Calls `Html::parse_fragment`, `Selector::parse`, `Html::select`, `ElementRef::select`
/// and `ElementRef::text`: for each element that `outer` matches, for each element
/// below it that `inner` matches, its text nodes. The result is named, not stated; it
/// is `None` where `Selector::parse` refuses either selector.
#[verifier::external_body]
pub(crate) fn select_scoped_text_nodes(html: &str, outer: &str, inner: &str) -> (r: Option<Vec<Vec<Vec<String>>>>)
    ensures
        r is None <==> fragment_scoped_text_nodes(html@, outer@, inner@) is None,
        r matches Some(v) ==> fragment_scoped_text_nodes(html@, outer@, inner@) == Some(
            v@.map_values(|l: Vec<Vec<String>>| views2(l@)),
        ),
{
    let (o, i) = (scraper::Selector::parse(outer).ok()?, scraper::Selector::parse(inner).ok()?);
    let doc = scraper::Html::parse_fragment(html);
    Some(doc.select(&o).map(|d| d.select(&i).map(|e| e.text().map(String::from).collect()).collect()).collect())
}


/// Calls `Html::parse_fragment`, `Selector::parse`, `Html::select`, `ElementRef::select`
/// and `ElementRef::text` on three nested selectors: for each element that `outer`
/// matches, for each element below it that `middle` matches, for each element below
/// that one that `inner` matches, its text nodes. The result is named, not stated; it
/// is `None` where `Selector::parse` refuses a selector.
#[verifier::external_body]
pub(crate) fn select_scoped2_text_nodes(html: &str, outer: &str, middle: &str, inner: &str) -> (r: Option<Vec<Vec<Vec<Vec<String>>>>>)
    ensures
        r is None <==> fragment_scoped2_text_nodes(html@, outer@, middle@, inner@) is None,
        r matches Some(v) ==> fragment_scoped2_text_nodes(html@, outer@, middle@, inner@) == Some(
            v@.map_values(|a: Vec<Vec<Vec<String>>>| a@.map_values(|b: Vec<Vec<String>>| views2(b@))),
        ),
{
    let o = scraper::Selector::parse(outer).ok()?;
    let (m, i) = (scraper::Selector::parse(middle).ok()?, scraper::Selector::parse(inner).ok()?);
    let doc = scraper::Html::parse_fragment(html);
    Some(doc.select(&o).map(|d| d.select(&m).map(|b| b.select(&i).map(|e| e.text().map(String::from).collect()).collect()).collect()).collect())
}

} // verus!
