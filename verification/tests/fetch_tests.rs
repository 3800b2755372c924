use scholar_scraper::error::{status_text, Error};
use scholar_scraper::fetch::{
    check_status, profile_url, publication_url, PublicationPager, PAGE_SIZE,
};
use scholar_scraper::json::{markup_from_member, publication_page_markup};
use scholar_scraper::model::Publication;

fn page(n: usize, tag: &str) -> Vec<Publication> {
    (0..n)
        .map(|i| Publication::new(format!("{tag}{i}"), "J".to_string(), "2020".to_string(), "0".to_string()))
        .collect()
}

#[test]
fn profile_url_names_the_user() {
    assert_eq!(profile_url("AbC_12"), "https://scholar.google.com/citations?user=AbC_12&hl=en");
}

#[test]
fn publication_url_names_user_and_offset() {
    assert_eq!(
        publication_url("AbC_12", 200),
        "https://scholar.google.com/citations?user=AbC_12&hl=en&cstart=200&pagesize=100"
    );
    assert_eq!(
        publication_url("x", 0),
        "https://scholar.google.com/citations?user=x&hl=en&cstart=0&pagesize=100"
    );
}

#[test]
fn status_codes_from_200_to_299_pass() {
    assert!(check_status(200).is_ok());
    assert!(check_status(204).is_ok());
    assert!(check_status(299).is_ok());
    assert!(matches!(check_status(404), Err(Error::HttpError(404))));
    assert!(matches!(check_status(302), Err(Error::HttpError(302))));
    assert!(matches!(check_status(199), Err(Error::HttpError(199))));
}

#[test]
fn pager_asks_until_a_short_page() {
    let mut pager = PublicationPager::new();
    assert_eq!(pager.next_request(), Some(0));
    pager.record_page(page(PAGE_SIZE, "a"));
    assert_eq!(pager.next_request(), Some(100));
    pager.record_page(page(PAGE_SIZE, "b"));
    assert_eq!(pager.next_request(), Some(200));
    pager.record_page(page(3, "c"));
    assert_eq!(pager.next_request(), None);
    let pubs = pager.into_publications();
    assert_eq!(pubs.len(), 203);
    assert_eq!(pubs[0].title, "a0");
    assert_eq!(pubs[100].title, "b0");
    assert_eq!(pubs[202].title, "c2");
}

#[test]
fn pager_stops_on_an_empty_first_page() {
    let mut pager = PublicationPager::new();
    pager.record_page(vec![]);
    assert_eq!(pager.next_request(), None);
    assert!(pager.into_publications().is_empty());
}

#[test]
fn page_markup_is_member_b() {
    let r = publication_page_markup(r#"{"A": 1, "B": "<tr><td>x</td></tr>"}"#);
    assert_eq!(r.unwrap(), "<tr><td>x</td></tr>");
}

#[test]
fn page_markup_of_non_json_is_convert_json() {
    assert!(matches!(publication_page_markup("<html>"), Err(Error::ConvertJson)));
    assert!(matches!(publication_page_markup(""), Err(Error::ConvertJson)));
}

#[test]
fn page_markup_without_text_member_b_is_read_json() {
    assert!(matches!(publication_page_markup(r#"{"A": "x"}"#), Err(Error::ReadJson)));
    assert!(matches!(publication_page_markup(r#"{"B": 3}"#), Err(Error::ReadJson)));
    assert!(matches!(publication_page_markup(r#"["B"]"#), Err(Error::ReadJson)));
}

#[test]
fn member_read_outcomes_map_to_markup_or_errors() {
    assert_eq!(markup_from_member(Some(Some("<tr></tr>".to_string()))).unwrap(), "<tr></tr>");
    assert!(matches!(markup_from_member(Some(None)), Err(Error::ReadJson)));
    assert!(matches!(markup_from_member(None), Err(Error::ConvertJson)));
}

#[test]
fn error_messages_read_as_the_program_reports_them() {
    assert_eq!(Error::ReadArgs.message(), "Failed to read arguments");
    assert_eq!(Error::ReadFile.message(), "Failed to read file");
    assert_eq!(Error::FailedFetch("http://x".to_string()).message(), "Failed to access the http://x");
    assert_eq!(Error::HttpError(404).message(), "HTTP request failed with status code 404 Not Found");
    assert_eq!(
        Error::HttpError(599).message(),
        "HTTP request failed with status code 599 <unknown status code>"
    );
    assert_eq!(Error::ConvertText("id1".to_string()).message(), "Failed to convert response with id: id1");
    assert_eq!(Error::ConvertJson.message(), "Failed to convert JSON response");
    assert_eq!(Error::ReadJson.message(), "Failed to read JSON response");
    assert_eq!(Error::FailedProcess.message(), "Failed Processing");
}

#[test]
fn status_text_uses_the_reason_phrase() {
    assert_eq!(status_text(429, Some("Too Many Requests".to_string())), "429 Too Many Requests");
    assert_eq!(status_text(42, None), "42 <unknown status code>");
}
