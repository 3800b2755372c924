//! Selection of elements in HTML documents, done by the `scraper` crate.
use vstd::prelude::*;

use scraper::{Html, Selector};

verus! {

/// The texts of the elements that the CSS `selector` matches in the HTML
/// `document`, in the order in which `Html::select` yields them (the order in
/// which the parser created the nodes); `None` where `selector` is not a valid
/// selector.
/// The text of an element is the concatenation of its descendant text nodes.
pub uninterp spec fn selected_texts(document: Seq<char>, selector: Seq<char>) -> Option<
    Seq<Seq<char>>,
>;

/// For each element that `scope` matches in the HTML `document`, in the order in
/// which `Html::select` yields them: the elements that `row` matches within it, in
/// the order in which `ElementRef::select` yields them (tree order), and for
/// each of them and each selector of `fields` the texts of the elements that the
/// field selector matches within the row (`None` for a field selector that is not
/// valid). `None` where `scope` or `row` is not a valid selector.
pub uninterp spec fn selected_table(
    document: Seq<char>,
    scope: Seq<char>,
    row: Seq<char>,
    fields: Seq<Seq<char>>,
) -> Option<Seq<Seq<Seq<Option<Seq<Seq<char>>>>>>>;

/// The elements that `row` matches in the whole HTML `document`, in the order in
/// which `Html::select` yields them, and for each of them and each selector of
/// `fields` the texts of the elements that the field selector matches within the
/// row (`None` for a field selector that is not valid). `None` where `row` is not
/// a valid selector.
pub uninterp spec fn selected_rows(
    document: Seq<char>,
    row: Seq<char>,
    fields: Seq<Seq<char>>,
) -> Option<Seq<Seq<Option<Seq<Seq<char>>>>>>;

/// Parses `document` with `scraper::Html::parse_document` and `selector` with
/// `scraper::Selector::parse`, then collects, for each element that
/// `Html::select` yields, the text that `ElementRef::text` yields. The result is
/// taken to be a function of the two texts alone, named `selected_texts`; what it
/// is for given texts is not stated.
#[verifier::external_body]
pub(crate) fn select_texts(document: &str, selector: &str) -> (r: Option<Vec<String>>)
    ensures
        r.deep_view() == selected_texts(document@, selector@),
{
    let html = Html::parse_document(document);
    let sel = Selector::parse(selector).ok()?;
    Some(html.select(&sel).map(|e| e.text().collect::<String>()).collect())
}

/// Parses `document` with `scraper::Html::parse_document` and each selector with
/// `scraper::Selector::parse`; for each element that `Html::select` yields for
/// `scope`, the elements that `ElementRef::select` yields within it for `row`, and
/// within each row, for each field selector, the text (`ElementRef::text`) of each
/// element that `ElementRef::select` yields. The result is taken to be a function
/// of the texts alone, named `selected_table`; beyond that each row holds one
/// entry per field selector, which the collection here builds, nothing is stated
/// of it.
#[verifier::external_body]
pub(crate) fn select_table(document: &str, scope: &str, row: &str, fields: &Vec<&str>) -> (r:
    Option<Vec<Vec<Vec<Option<Vec<String>>>>>>)
    ensures
        r.deep_view() == selected_table(document@, scope@, row@, fields.deep_view()),
        r matches Some(scopes) ==> forall|i: int, j: int|
            0 <= i < scopes.len() && 0 <= j < scopes[i].len() ==> #[trigger] scopes[i][j].len()
                == fields.len(),
{
    let html = Html::parse_document(document);
    let scope_sel = Selector::parse(scope).ok()?;
    let row_sel = Selector::parse(row).ok()?;
    let field_sels: Vec<Option<Selector>> = fields.iter().map(|f| Selector::parse(f).ok()).collect();
    Some(html.select(&scope_sel).map(|p| p.select(&row_sel).map(|r| field_sels.iter().map(|s| s
        .as_ref().map(|s| r.select(s).map(|e| e.text().collect::<String>()).collect())).collect())
        .collect()).collect())
}

/// Parses `document` with `scraper::Html::parse_document` and each selector with
/// `scraper::Selector::parse`; for each element that `Html::select` yields for
/// `row`, and for each field selector, the text (`ElementRef::text`) of each
/// element that `ElementRef::select` yields within the row. The result is taken to
/// be a function of the texts alone, named `selected_rows`; beyond that each row
/// holds one entry per field selector, which the collection here builds, nothing
/// is stated of it.
#[verifier::external_body]
pub(crate) fn select_rows(document: &str, row: &str, fields: &Vec<&str>) -> (r: Option<
    Vec<Vec<Option<Vec<String>>>>,
>)
    ensures
        r.deep_view() == selected_rows(document@, row@, fields.deep_view()),
        r matches Some(rows) ==> forall|i: int|
            0 <= i < rows.len() ==> #[trigger] rows[i].len() == fields.len(),
{
    let html = Html::parse_document(document);
    let row_sel = Selector::parse(row).ok()?;
    let field_sels: Vec<Option<Selector>> = fields.iter().map(|f| Selector::parse(f).ok()).collect();
    Some(html.select(&row_sel).map(|r| field_sels.iter().map(|s| s.as_ref().map(|s| r.select(s)
        .map(|e| e.text().collect::<String>()).collect())).collect()).collect())
}

} // verus!
