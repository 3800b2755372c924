//! What the scraper keeps of a fetched profile page and of a fetched page of
//! publications.
use vstd::prelude::*;

use crate::html::{select_rows, select_table, select_texts, selected_rows, selected_table, selected_texts};
use crate::model::{Publication, PublicationView, Scholar};
use crate::text::{trim_spec, trim_text};

verus! {

/// The element that holds the scholar's name.
pub const NAME_SELECTOR: &'static str = "div#gsc_prf_in";

/// The link that holds the scholar's affiliation.
pub const AFFILIATION_SELECTOR: &'static str = "div.gsc_prf_il > a.gsc_prf_ila";

/// The table body that holds the citation metrics.
pub const CITATIONS_TABLE_SELECTOR: &'static str = "tbody:has(> tr > .gsc_rsb_std)";

/// A table row.
pub const ROW_SELECTOR: &'static str = "tr";

/// A metric cell of the citation table (one for all years, one for the last five).
pub const METRIC_CELL_SELECTOR: &'static str = "td.gsc_rsb_std";

/// The cell that names the metric of a citation table row.
pub const METRIC_NAME_SELECTOR: &'static str = "td.gsc_rsb_sc1";

/// The title link of a publication row.
pub const TITLE_SELECTOR: &'static str = "td.gsc_a_t a.gsc_a_at";

/// The journal line of a publication row.
pub const JOURNAL_SELECTOR: &'static str = "td.gsc_a_t div.gs_gray:nth-of-type(2)";

/// The year of a publication row.
pub const YEAR_SELECTOR: &'static str = "td.gsc_a_y span.gsc_a_h";

/// The citation count of a publication row.
pub const CITED_BY_SELECTOR: &'static str = "td.gsc_a_c a.gsc_a_ac";

/// The text that stands for a value that the page did not give.
pub open spec fn unknown_text() -> Seq<char> {
    "Unknown"@
}

/// What is kept of the matches of one selector: the trimmed text of the first
/// match, or `Unknown` where nothing matched or the selector was not valid.
pub open spec fn first_text(matches: Option<Seq<Seq<char>>>) -> Seq<char> {
    match matches {
        Some(texts) => if texts.len() > 0 {
            trim_spec(texts[0])
        } else {
            unknown_text()
        },
        None => unknown_text(),
    }
}

/// The matches of the `k`-th field selector in a row, `None` where the row has
/// no such field.
pub open spec fn row_field(row: Seq<Option<Seq<Seq<char>>>>, k: int) -> Option<Seq<Seq<char>>> {
    if 0 <= k < row.len() {
        row[k]
    } else {
        None
    }
}

/// Six `Unknown` texts: the citation metrics before any row is read.
pub open spec fn unknown_citations() -> Seq<Seq<char>> {
    seq![unknown_text(), unknown_text(), unknown_text(), unknown_text(), unknown_text(), unknown_text()]
}

/// The metrics after reading one row of the citation table, whose fields are its
/// metric cells and its name cells: a row with exactly two metric cells and a
/// name cell `Citations`, `h-index` or `i10-index` sets the pair of that metric
/// (all years, last five years); any other row changes nothing.
pub open spec fn citation_row_update(vals: Seq<Seq<char>>, row: Seq<Option<Seq<Seq<char>>>>) -> Seq<
    Seq<char>,
> {
    match (row_field(row, 0), row_field(row, 1)) {
        (Some(cells), Some(names)) => if cells.len() == 2 && names.len() > 0 {
            if names[0] == "Citations"@ {
                vals.update(0, cells[0]).update(1, cells[1])
            } else if names[0] == "h-index"@ {
                vals.update(2, cells[0]).update(3, cells[1])
            } else if names[0] == "i10-index"@ {
                vals.update(4, cells[0]).update(5, cells[1])
            } else {
                vals
            }
        } else {
            vals
        },
        _ => vals,
    }
}

/// The metrics after reading the rows in order: a later row overrides an earlier one.
pub open spec fn citation_values(rows: Seq<Seq<Option<Seq<Seq<char>>>>>) -> Seq<Seq<char>>
    decreases rows.len(),
{
    if rows.len() == 0 {
        unknown_citations()
    } else {
        citation_row_update(citation_values(rows.drop_last()), rows.last())
    }
}

/// The six citation metrics (citations, citations in the last five years,
/// h-index, its five-year value, i10-index, its five-year value) read from the
/// rows of the first citation table; all `Unknown` where a selector was not valid
/// or the page has no such table.
pub open spec fn citations_from(table: Option<Seq<Seq<Seq<Option<Seq<Seq<char>>>>>>>) -> Seq<
    Seq<char>,
> {
    match table {
        Some(scopes) => if scopes.len() > 0 {
            citation_values(scopes[0])
        } else {
            unknown_citations()
        },
        None => unknown_citations(),
    }
}

/// The selectors of the citation table's fields: metric cells, then name cells.
pub open spec fn citation_fields() -> Seq<Seq<char>> {
    seq![METRIC_CELL_SELECTOR@, METRIC_NAME_SELECTOR@]
}

/// The selectors of a publication row's fields: title, journal, year, citations.
pub open spec fn publication_fields() -> Seq<Seq<char>> {
    seq![TITLE_SELECTOR@, JOURNAL_SELECTOR@, YEAR_SELECTOR@, CITED_BY_SELECTOR@]
}

/// The publication that one row of a publication page describes.
pub open spec fn row_publication(row: Seq<Option<Seq<Seq<char>>>>) -> PublicationView {
    PublicationView {
        title: first_text(row_field(row, 0)),
        journal: first_text(row_field(row, 1)),
        year: first_text(row_field(row, 2)),
        cited_by: first_text(row_field(row, 3)),
    }
}

/// The publications of a page, one per row, in the order of the rows; `None`
/// where the row selector was not valid.
pub open spec fn page_publications(rows: Option<Seq<Seq<Option<Seq<Seq<char>>>>>>) -> Option<
    Seq<PublicationView>,
> {
    match rows {
        None => None,
        Some(rows) => Some(rows.map_values(|row: Seq<Option<Seq<Seq<char>>>>| row_publication(row))),
    }
}

/// A page of publication rows as the server sends it, put into a table so that
/// its rows are parsed as rows.
pub open spec fn page_document(page: Seq<char>) -> Seq<char> {
    "<table>"@ + page + "</table>"@
}

/// The text `Unknown`.
pub fn unknown() -> (r: String)
    ensures
        r@ == unknown_text(),
{
    String::from_str("Unknown")
}

/// The trimmed text of the first match, or `Unknown`.
pub fn first_text_of(matches: &Option<Vec<String>>) -> (r: String)
    ensures
        r@ == first_text(matches.deep_view()),
{
    match matches {
        Some(texts) => {
            if texts.len() > 0 {
                trim_text(texts[0].as_str())
            } else {
                unknown()
            }
        },
        None => unknown(),
    }
}

/// The trimmed text of the first element that `selector` matches in the HTML
/// `document`, or `Unknown` where there is none or the selector is not valid.
pub fn extract_content(document: &str, selector: &str) -> (r: String)
    ensures
        r@ == first_text(selected_texts(document@, selector@)),
{
    let matches = select_texts(document, selector);
    first_text_of(&matches)
}

fn field_text_of(row: &Vec<Option<Vec<String>>>, k: usize) -> (r: String)
    ensures
        r@ == first_text(row_field(row.deep_view(), k as int)),
{
    if k < row.len() {
        first_text_of(&row[k])
    } else {
        unknown()
    }
}

/// The six citation metrics read from the rows of the first table of a selection, each row
/// holding the texts of its metric cells and of its name cells.
pub fn citations_from_table(table: &Option<Vec<Vec<Vec<Option<Vec<String>>>>>>) -> (r: (
    String,
    String,
    String,
    String,
    String,
    String,
))
    ensures
        seq![r.0@, r.1@, r.2@, r.3@, r.4@, r.5@] == citations_from(table.deep_view()),
{
    let mut vals: Vec<String> = vec![unknown(), unknown(), unknown(), unknown(), unknown(), unknown()];
    assert(vals.deep_view() =~= unknown_citations());
    match table {
        Some(scopes) if scopes.len() > 0 => {
            let rows = &scopes[0];
            let ghost rv = rows.deep_view();
            let citations = String::from_str("Citations");
            let h_index = String::from_str("h-index");
            let i10_index = String::from_str("i10-index");
            let mut k: usize = 0;
            assert(rv.subrange(0, 0) =~= Seq::<Seq<Option<Seq<Seq<char>>>>>::empty());
            while k < rows.len()
                invariant
                    k <= rows.len(),
                    rv == rows.deep_view(),
                    citations@ == "Citations"@,
                    h_index@ == "h-index"@,
                    i10_index@ == "i10-index"@,
                    vals.len() == 6,
                    vals.deep_view() == citation_values(rv.subrange(0, k as int)),
                decreases rows.len() - k,
            {
                let row = &rows[k];
                let ghost prev = vals.deep_view();
                assert(rv.subrange(0, k + 1).drop_last() =~= rv.subrange(0, k as int));
                assert(rv.subrange(0, k + 1).last() == row.deep_view());
                if row.len() >= 2 {
                    match (&row[0], &row[1]) {
                        (Some(cells), Some(names)) => {
                            if cells.len() == 2 && names.len() > 0 {
                                let name = &names[0];
                                let base: usize = if *name == citations {
                                    0
                                } else if *name == h_index {
                                    2
                                } else if *name == i10_index {
                                    4
                                } else {
                                    6
                                };
                                if base < 6 {
                                    vals.set(base, cells[0].clone());
                                    vals.set(base + 1, cells[1].clone());
                                }
                                assert(vals.deep_view() =~= citation_row_update(
                                    prev,
                                    row.deep_view(),
                                ));
                            }
                        },
                        _ => {},
                    }
                }
                assert(vals.deep_view() =~= citation_row_update(prev, row.deep_view()));
                k = k + 1;
            }
            assert(rv.subrange(0, rows.len() as int) =~= rv);
        },
        _ => {},
    }
    let v5 = vals.pop().unwrap();
    let v4 = vals.pop().unwrap();
    let v3 = vals.pop().unwrap();
    let v2 = vals.pop().unwrap();
    let v1 = vals.pop().unwrap();
    let v0 = vals.pop().unwrap();
    (v0, v1, v2, v3, v4, v5)
}

/// The six citation metrics of a profile page: for each row of the first
/// citation table with two metric cells and a known metric name, the texts of the
/// two cells; `Unknown` for a metric that no row gives.
pub fn extract_citations_table(document: &str) -> (r: (String, String, String, String, String, String))
    ensures
        seq![r.0@, r.1@, r.2@, r.3@, r.4@, r.5@] == citations_from(
            selected_table(document@, CITATIONS_TABLE_SELECTOR@, ROW_SELECTOR@, citation_fields()),
        ),
{
    let fields: Vec<&str> = vec![METRIC_CELL_SELECTOR, METRIC_NAME_SELECTOR];
    assert(fields.deep_view() =~= citation_fields());
    let table = select_table(document, CITATIONS_TABLE_SELECTOR, ROW_SELECTOR, &fields);
    citations_from_table(&table)
}

/// The publications that rows of a publication page describe, each row holding
/// the texts of its title, journal, year and citation count fields.
pub fn publications_from_rows(rows: &Option<Vec<Vec<Option<Vec<String>>>>>) -> (r: Option<
    Vec<Publication>,
>)
    ensures
        r.deep_view() == page_publications(rows.deep_view()),
{
    match rows {
        None => None,
        Some(rows) => {
            let ghost rv = rows.deep_view();
            let mut pubs: Vec<Publication> = Vec::new();
            let mut k: usize = 0;
            while k < rows.len()
                invariant
                    k <= rows.len(),
                    rv == rows.deep_view(),
                    pubs.len() == k,
                    forall|i: int| 0 <= i < k ==> #[trigger] pubs@[i]@ == row_publication(rv[i]),
                decreases rows.len() - k,
            {
                let row = &rows[k];
                let title = field_text_of(row, 0);
                let journal = field_text_of(row, 1);
                let year = field_text_of(row, 2);
                let cited_by = field_text_of(row, 3);
                pubs.push(Publication::new(title, journal, year, cited_by));
                k = k + 1;
            }
            assert(pubs.deep_view() =~= rv.map_values(
                |row: Seq<Option<Seq<Seq<char>>>>| row_publication(row),
            ));
            Some(pubs)
        },
    }
}

/// The publications on a page of publication rows as the server sends them: the
/// page is put into a table, and each row of the document, in the order in which
/// `Html::select` yields the rows, gives its trimmed title, journal, year and
/// citation count, `Unknown` for a field it lacks. `None` only where the row
/// selector is not valid.
pub fn publications_from_page(page: &str) -> (r: Option<Vec<Publication>>)
    ensures
        r.deep_view() == page_publications(
            selected_rows(page_document(page@), ROW_SELECTOR@, publication_fields()),
        ),
{
    let mut document = String::from_str("<table>");
    document.append(page);
    document.append("</table>");
    let fields: Vec<&str> = vec![TITLE_SELECTOR, JOURNAL_SELECTOR, YEAR_SELECTOR, CITED_BY_SELECTOR];
    assert(fields.deep_view() =~= publication_fields());
    let rows = select_rows(document.as_str(), ROW_SELECTOR, &fields);
    publications_from_rows(&rows)
}

/// A scholar built from its id, its profile page and its publications: the name
/// and affiliation are the trimmed texts of their elements (`Unknown` where the
/// page lacks them), the six metrics come from the citation table, and the
/// document count is the number of publications.
pub fn scholar_from_profile(google_id: String, profile: &str, publications: Vec<Publication>) -> (s:
    Scholar)
    ensures
        s.google_id == google_id,
        s.name@ == first_text(selected_texts(profile@, NAME_SELECTOR@)),
        s.affiliation@ == first_text(selected_texts(profile@, AFFILIATION_SELECTOR@)),
        seq![
            s.cited_by@,
            s.cited_5_years@,
            s.h_index@,
            s.h_index_5_years@,
            s.i10_index@,
            s.i10_index_5_years@,
        ] == citations_from(
            selected_table(profile@, CITATIONS_TABLE_SELECTOR@, ROW_SELECTOR@, citation_fields()),
        ),
        s.document_count == publications.len(),
        s.publication == publications,
{
    let document_count = publications.len();
    let name = extract_content(profile, NAME_SELECTOR);
    let affiliation = extract_content(profile, AFFILIATION_SELECTOR);
    let (cited_by, cited_5_years, h_index_all, h_index_5, i10_index_all, i10_index_5) =
        extract_citations_table(profile);
    Scholar::new(
        google_id,
        name,
        affiliation,
        document_count,
        cited_by,
        cited_5_years,
        h_index_all,
        h_index_5,
        i10_index_all,
        i10_index_5,
        publications,
    )
}

/// Where the selector matches, what is kept is exactly the trimmed text of the
/// first match, whole; where it matches nothing or is not valid, `Unknown`.
pub proof fn lemma_first_text_keeps_first_match(texts: Seq<Seq<char>>)
    ensures
        texts.len() > 0 ==> first_text(Some(texts)) == trim_spec(texts[0]),
        texts.len() > 0 ==> first_text(Some(texts)).len() == trim_spec(texts[0]).len(),
        texts.len() == 0 ==> first_text(Some(texts)) == "Unknown"@,
        first_text(None) == "Unknown"@,
{
}

proof fn lemma_citation_values_len(rows: Seq<Seq<Option<Seq<Seq<char>>>>>)
    ensures
        citation_values(rows).len() == 6,
    decreases rows.len(),
{
    if rows.len() > 0 {
        lemma_citation_values_len(rows.drop_last());
    }
}

/// A citation-table row with exactly two metric cells and a name cell
/// `Citations`, `h-index` or `i10-index` sets that metric's pair (all years, last
/// five years) to the two cell texts, whatever they are (equal ones too), and
/// leaves the other metrics as the earlier rows left them.
pub proof fn lemma_citation_row_sets_its_pair(
    rows: Seq<Seq<Option<Seq<Seq<char>>>>>,
    cells: Seq<Seq<char>>,
    names: Seq<Seq<char>>,
)
    requires
        rows.len() > 0,
        rows.last().len() >= 2,
        rows.last()[0] == Some(cells),
        rows.last()[1] == Some(names),
        cells.len() == 2,
        names.len() > 0,
    ensures
        ({
            let r = citations_from(Some(seq![rows]));
            let before = citations_from(Some(seq![rows.drop_last()]));
            &&& r.len() == 6
            &&& names[0] == "Citations"@ ==> r[0] == cells[0] && r[1] == cells[1] && r[2] == before[2]
                && r[3] == before[3] && r[4] == before[4] && r[5] == before[5]
            &&& names[0] == "h-index"@ ==> r[2] == cells[0] && r[3] == cells[1] && r[0] == before[0]
                && r[1] == before[1] && r[4] == before[4] && r[5] == before[5]
            &&& names[0] == "i10-index"@ ==> r[4] == cells[0] && r[5] == cells[1] && r[0]
                == before[0] && r[1] == before[1] && r[2] == before[2] && r[3] == before[3]
        }),
{
    reveal_strlit("Citations");
    reveal_strlit("h-index");
    reveal_strlit("i10-index");
    lemma_citation_values_len(rows);
    lemma_citation_values_len(rows.drop_last());
    assert(seq![rows][0] == rows);
    assert(seq![rows.drop_last()][0] == rows.drop_last());
    assert(citation_values(rows) == citation_row_update(
        citation_values(rows.drop_last()),
        rows.last(),
    ));
    assert(row_field(rows.last(), 0) == Some(cells));
    assert(row_field(rows.last(), 1) == Some(names));
    assert("Citations"@ != "h-index"@) by {
        assert("Citations"@[0] != "h-index"@[0]);
    }
    assert("Citations"@ != "i10-index"@) by {
        assert("Citations"@[0] != "i10-index"@[0]);
    }
    assert("h-index"@ != "i10-index"@) by {
        assert("h-index"@[0] != "i10-index"@[0]);
    }
}

/// Without a citation table every metric is `Unknown`.
pub proof fn lemma_citations_default()
    ensures
        citations_from(None) == seq!["Unknown"@, "Unknown"@, "Unknown"@, "Unknown"@, "Unknown"@, "Unknown"@],
        citations_from(Some(Seq::empty())) == citations_from(None),
{
}

/// A page gives exactly one publication per row, in the order of the rows: the
/// `i`-th publication's title, journal, year and citation count are the trimmed
/// first texts of the `i`-th row's four fields.
pub proof fn lemma_one_publication_per_row(rows: Seq<Seq<Option<Seq<Seq<char>>>>>)
    ensures
        page_publications(Some(rows)) is Some,
        page_publications(Some(rows)).unwrap().len() == rows.len(),
        forall|i: int|
            0 <= i < rows.len() && 0 < rows[i].len() && rows[i][0] is Some && rows[i][0].unwrap().len()
                > 0 ==> #[trigger] page_publications(Some(rows)).unwrap()[i].title == trim_spec(
                rows[i][0].unwrap()[0],
            ),
        forall|i: int|
            0 <= i < rows.len() && 1 < rows[i].len() && rows[i][1] is Some && rows[i][1].unwrap().len()
                > 0 ==> #[trigger] page_publications(Some(rows)).unwrap()[i].journal == trim_spec(
                rows[i][1].unwrap()[0],
            ),
        forall|i: int|
            0 <= i < rows.len() && 2 < rows[i].len() && rows[i][2] is Some && rows[i][2].unwrap().len()
                > 0 ==> #[trigger] page_publications(Some(rows)).unwrap()[i].year == trim_spec(
                rows[i][2].unwrap()[0],
            ),
        forall|i: int|
            0 <= i < rows.len() && 3 < rows[i].len() && rows[i][3] is Some && rows[i][3].unwrap().len()
                > 0 ==> #[trigger] page_publications(Some(rows)).unwrap()[i].cited_by == trim_spec(
                rows[i][3].unwrap()[0],
            ),
        page_publications(None) is None,
{
}

} // verus!
