use scholar_scraper::error::Error;
use scholar_scraper::input::{author_list_path, keep_parsed_records, retrieve_list_from_input};
use scholar_scraper::model::PreScholar;

fn args(list: &[&str]) -> Vec<String> {
    list.iter().map(|s| s.to_string()).collect()
}

#[test]
fn first_argument_names_the_list() {
    let r = retrieve_list_from_input(&args(&["prog", "people.csv", "extra"]));
    assert_eq!(r.unwrap(), "people.csv");
}

#[test]
fn no_argument_is_read_args() {
    assert!(matches!(retrieve_list_from_input(&args(&["prog"])), Err(Error::ReadArgs)));
    assert!(matches!(retrieve_list_from_input(&args(&[])), Err(Error::ReadArgs)));
}

#[test]
fn author_list_defaults_to_authorlist_csv() {
    assert_eq!(author_list_path(&args(&["prog"])), "authorlist.csv");
    assert_eq!(author_list_path(&args(&["prog", "x.csv"])), "x.csv");
}

#[test]
fn unreadable_records_are_dropped_in_order() {
    let id = |s: &str| Some(PreScholar { google_id: s.to_string() });
    let kept = keep_parsed_records(vec![id("a"), None, id("b"), None, None, id("c")]);
    let ids: Vec<&str> = kept.iter().map(|p| p.google_id.as_str()).collect();
    assert_eq!(ids, vec!["a", "b", "c"]);
    assert!(keep_parsed_records(vec![None, None]).is_empty());
}
