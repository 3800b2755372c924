use scholar_scraper::extract::{
    citations_from_table, extract_citations_table, extract_content, first_text_of,
    publications_from_page, publications_from_rows, scholar_from_profile, AFFILIATION_SELECTOR,
    NAME_SELECTOR,
};
use scholar_scraper::model::Publication;

const PROFILE: &str = r#"<html><body>
<div id="gsc_prf_in">  Grace Hopper
</div>
<div class="gsc_prf_il"><a class="gsc_prf_ila" href="/x">Yale <b>University</b></a></div>
<table id="gsc_rsb_st">
<thead><tr><th></th><th>All</th><th>Since 2019</th></tr></thead>
<tbody>
<tr><td class="gsc_rsb_sc1"><a>Citations</a></td><td class="gsc_rsb_std">1234</td><td class="gsc_rsb_std">567</td></tr>
<tr><td class="gsc_rsb_sc1"><a>h-index</a></td><td class="gsc_rsb_std">15</td><td class="gsc_rsb_std">11</td></tr>
<tr><td class="gsc_rsb_sc1"><a>i10-index</a></td><td class="gsc_rsb_std">20</td><td class="gsc_rsb_std">12</td></tr>
</tbody></table>
</body></html>"#;

const PAGE: &str = r#"<tr class="gsc_a_tr"><td class="gsc_a_t"><a class="gsc_a_at"> COBOL design </a><div class="gs_gray">G Hopper</div><div class="gs_gray">Journal of Compilers 3, 1959</div></td><td class="gsc_a_c"><a class="gsc_a_ac">99</a></td><td class="gsc_a_y"><span class="gsc_a_h">1959</span></td></tr><tr class="gsc_a_tr"><td class="gsc_a_t"><a class="gsc_a_at">Bugs</a></td><td class="gsc_a_c"></td><td class="gsc_a_y"><span class="gsc_a_h">1947</span></td></tr>"#;

#[test]
fn name_and_affiliation_are_trimmed_texts() {
    assert_eq!(extract_content(PROFILE, NAME_SELECTOR), "Grace Hopper");
    assert_eq!(extract_content(PROFILE, AFFILIATION_SELECTOR), "Yale University");
}

#[test]
fn missing_element_or_bad_selector_is_unknown() {
    assert_eq!(extract_content(PROFILE, "div#nothing"), "Unknown");
    assert_eq!(extract_content(PROFILE, "[[["), "Unknown");
}

#[test]
fn citation_metrics_are_read_by_name() {
    let c = extract_citations_table(PROFILE);
    assert_eq!(c, (
        "1234".to_string(),
        "567".to_string(),
        "15".to_string(),
        "11".to_string(),
        "20".to_string(),
        "12".to_string()
    ));
}

#[test]
fn page_without_citation_table_has_unknown_metrics() {
    let u = "Unknown".to_string();
    assert_eq!(
        extract_citations_table("<html><body><p>none</p></body></html>"),
        (u.clone(), u.clone(), u.clone(), u.clone(), u.clone(), u)
    );
}

#[test]
fn citation_rows_need_two_cells_and_a_known_name() {
    let cells = |a: &str, b: &str| Some(vec![a.to_string(), b.to_string()]);
    let name = |n: &str| Some(vec![n.to_string()]);
    let rows = vec![
        vec![cells("1", "2"), name("Citations")],
        vec![Some(vec!["9".to_string()]), name("h-index")],
        vec![cells("3", "4"), name("Other")],
        vec![cells("5", "6"), None],
        vec![cells("7", "8"), name("i10-index")],
        vec![cells("10", "11"), name("Citations")],
    ];
    let c = citations_from_table(&Some(vec![rows]));
    assert_eq!(c.0, "10");
    assert_eq!(c.1, "11");
    assert_eq!(c.2, "Unknown");
    assert_eq!(c.3, "Unknown");
    assert_eq!(c.4, "7");
    assert_eq!(c.5, "8");
    assert_eq!(citations_from_table(&None).0, "Unknown");
    assert_eq!(citations_from_table(&Some(vec![])).5, "Unknown");
}

#[test]
fn first_text_of_takes_the_first_match_trimmed() {
    assert_eq!(first_text_of(&Some(vec![" a ".to_string(), "b".to_string()])), "a");
    assert_eq!(first_text_of(&Some(vec![])), "Unknown");
    assert_eq!(first_text_of(&None), "Unknown");
}

#[test]
fn page_rows_become_publications() {
    let pubs = publications_from_page(PAGE).unwrap();
    assert_eq!(pubs.len(), 2);
    assert_eq!(pubs[0].title, "COBOL design");
    assert_eq!(pubs[0].journal, "Journal of Compilers 3, 1959");
    assert_eq!(pubs[0].year, "1959");
    assert_eq!(pubs[0].cited_by, "99");
    assert_eq!(pubs[1].title, "Bugs");
    assert_eq!(pubs[1].journal, "Unknown");
    assert_eq!(pubs[1].year, "1947");
    assert_eq!(pubs[1].cited_by, "Unknown");
}

#[test]
fn empty_page_has_no_publications() {
    assert!(publications_from_page("").unwrap().is_empty());
}

#[test]
fn rows_become_publications_field_by_field() {
    let t = |s: &str| Some(vec![s.to_string()]);
    let rows = vec![vec![t("T"), t("J"), t("2001"), t(" 5 ")], vec![t("Only title")]];
    let pubs = publications_from_rows(&Some(rows)).unwrap();
    assert_eq!(pubs[0].title, "T");
    assert_eq!(pubs[0].cited_by, "5");
    assert_eq!(pubs[1].title, "Only title");
    assert_eq!(pubs[1].journal, "Unknown");
    assert!(publications_from_rows(&None).is_none());
    assert!(publications_from_rows(&Some(vec![])).unwrap().is_empty());
}

#[test]
fn scholar_from_profile_counts_publications() {
    let pubs = vec![
        Publication::new("a".into(), "b".into(), "c".into(), "d".into()),
        Publication::new("e".into(), "f".into(), "g".into(), "h".into()),
    ];
    let s = scholar_from_profile("id42".to_string(), PROFILE, pubs);
    assert_eq!(s.google_id, "id42");
    assert_eq!(s.name, "Grace Hopper");
    assert_eq!(s.affiliation, "Yale University");
    assert_eq!(s.document_count, 2);
    assert_eq!(s.cited_by, "1234");
    assert_eq!(s.i10_index_5_years, "12");
    assert_eq!(s.publication.len(), 2);
}

#[test]
fn page_rows_keep_the_order_of_a_document_wide_select() {
    let page = r#"<tr><td class="gsc_a_t"><a class="gsc_a_at">A</a></td></tr><div><table><tr><td class="gsc_a_t"><a class="gsc_a_at">B</a></td></tr></table></div>"#;
    let titles: Vec<String> = publications_from_page(page).unwrap().into_iter().map(|p| p.title).collect();
    let html = scraper::Html::parse_document(&format!("<table>{page}</table>"));
    let rows = scraper::Selector::parse("tr").unwrap();
    let title = scraper::Selector::parse("td.gsc_a_t a.gsc_a_at").unwrap();
    let expected: Vec<String> = html
        .select(&rows)
        .map(|r| r.select(&title).next().map(|e| e.text().collect::<String>()).unwrap_or_else(|| "Unknown".to_string()))
        .collect();
    assert_eq!(titles, expected);
    assert_eq!(titles, vec!["A".to_string(), "B".to_string()]);
}
