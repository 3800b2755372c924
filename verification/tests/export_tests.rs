use scholar_scraper::export::{
    csv_content, csv_header, csv_row, escape_csv, export_file_name, get_publication_size,
};
use scholar_scraper::model::{Publication, Scholar};

fn publication(title: &str, journal: &str, year: &str, cited_by: &str) -> Publication {
    Publication::new(title.to_string(), journal.to_string(), year.to_string(), cited_by.to_string())
}

fn scholar(id: &str, count: usize, publications: Vec<Publication>) -> Scholar {
    Scholar::new(
        id.to_string(),
        "Ada Lovelace".to_string(),
        "Analytical Engines Ltd".to_string(),
        count,
        "120".to_string(),
        "80".to_string(),
        "7".to_string(),
        "5".to_string(),
        "6".to_string(),
        "4".to_string(),
        publications,
    )
}

#[test]
fn publication_new_keeps_fields() {
    let p = publication("On Engines", "Notes", "1843", "42");
    assert_eq!(p.title, "On Engines");
    assert_eq!(p.journal, "Notes");
    assert_eq!(p.year, "1843");
    assert_eq!(p.cited_by, "42");
}

#[test]
fn scholar_new_keeps_fields() {
    let s = scholar("abc", 1, vec![publication("T", "J", "2000", "1")]);
    assert_eq!(s.google_id, "abc");
    assert_eq!(s.name, "Ada Lovelace");
    assert_eq!(s.affiliation, "Analytical Engines Ltd");
    assert_eq!(s.document_count, 1);
    assert_eq!(s.cited_by, "120");
    assert_eq!(s.cited_5_years, "80");
    assert_eq!(s.h_index, "7");
    assert_eq!(s.h_index_5_years, "5");
    assert_eq!(s.i10_index, "6");
    assert_eq!(s.i10_index_5_years, "4");
    assert_eq!(s.publication.len(), 1);
}

#[test]
fn publication_size_is_the_largest_count() {
    let scholars = vec![
        scholar("a", 1, vec![publication("T", "J", "2000", "1")]),
        scholar("b", 3, vec![
            publication("T1", "J", "2000", "1"),
            publication("T2", "J", "2001", "2"),
            publication("T3", "J", "2002", "3"),
        ]),
        scholar("c", 0, vec![]),
    ];
    assert_eq!(get_publication_size(&scholars), 3);
}

#[test]
fn publication_size_of_no_scholar_is_zero() {
    assert_eq!(get_publication_size(&vec![]), 0);
    assert_eq!(get_publication_size(&vec![scholar("a", 0, vec![])]), 0);
}

#[test]
fn escape_csv_quotes_the_field() {
    assert_eq!(escape_csv("Deep, learning".to_string()), "\"Deep, learning\"");
    assert_eq!(escape_csv(String::new()), "\"\"");
}

#[test]
fn header_without_publications() {
    assert_eq!(
        csv_header(0),
        "google_id,name,affiliation,document_count,cited_by,cited_5_years,h_index,h_index_5_years,i10_index,i10_index_5_years\n"
    );
}

#[test]
fn header_numbers_publication_columns_from_zero() {
    let h = csv_header(12);
    assert!(h.starts_with("google_id,name,"));
    assert!(h.contains(",publication_title_0,journal,year,cited_by,publication_title_1,journal,year,cited_by,"));
    assert!(h.ends_with(",publication_title_11,journal,year,cited_by\n"));
    assert_eq!(h.matches(',').count(), 9 + 4 * 12);
}

#[test]
fn row_lists_fields_then_publications() {
    let s = scholar("xyz", 2, vec![
        publication("A, study", "J. Things", "2019", "10"),
        publication("B", "Unknown", "Unknown", "Unknown"),
    ]);
    assert_eq!(
        csv_row(&s),
        "xyz,Ada Lovelace,Analytical Engines Ltd,2,120,80,7,5,6,4,\"A, study\",\"J. Things\",2019,10,\"B\",\"Unknown\",Unknown,Unknown\n"
    );
}

#[test]
fn row_without_publications() {
    let s = scholar("q", 0, vec![]);
    assert_eq!(csv_row(&s), "q,Ada Lovelace,Analytical Engines Ltd,0,120,80,7,5,6,4\n");
}

#[test]
fn content_is_header_then_rows() {
    let scholars = vec![
        scholar("a", 1, vec![publication("T", "J", "2000", "1")]),
        scholar("b", 0, vec![]),
    ];
    let expected = format!("{}{}{}", csv_header(1), csv_row(&scholars[0]), csv_row(&scholars[1]));
    let content = csv_content(&scholars);
    assert_eq!(content, expected);
    assert_eq!(content.lines().count(), 3);
}

#[test]
fn content_of_no_scholar_is_the_bare_header() {
    assert_eq!(csv_content(&vec![]), csv_header(0));
}

#[test]
fn export_file_name_embeds_the_timestamp() {
    assert_eq!(
        export_file_name("2024-05-01 10:20:30"),
        "scholar_data_2024-05-01 10:20:30.csv"
    );
}

#[test]
fn rows_never_outgrow_the_header() {
    let scholars = vec![
        scholar("a", 1, vec![publication("T", "J", "2000", "1")]),
        scholar("b", 2, vec![publication("T", "J", "2000", "1"), publication("U", "K", "2001", "2")]),
    ];
    let header = csv_header(get_publication_size(&scholars));
    for s in &scholars {
        let row = csv_row(s);
        assert_eq!(row.matches(',').count(), 9 + 4 * s.publication.len());
        assert!(row.matches(',').count() <= header.matches(',').count());
    }
}

#[test]
fn content_has_one_line_per_scholar() {
    let scholars = vec![scholar("a", 0, vec![]), scholar("b", 0, vec![]), scholar("c", 0, vec![])];
    let content = csv_content(&scholars);
    assert_eq!(content.matches('\n').count(), scholars.len() + 1);
    assert!(content.ends_with('\n'));
}
