use vstd::prelude::*;

verus! {

/// One publication of a scholar, as listed on the profile's publication table.
#[derive(Debug, Clone)]
pub struct Publication {
    pub title: String,
    pub journal: String,
    pub year: String,
    pub cited_by: String,
}

/// The texts of a publication's four fields.
pub ghost struct PublicationView {
    pub title: Seq<char>,
    pub journal: Seq<char>,
    pub year: Seq<char>,
    pub cited_by: Seq<char>,
}

impl View for Publication {
    type V = PublicationView;

    open spec fn view(&self) -> PublicationView {
        PublicationView {
            title: self.title@,
            journal: self.journal@,
            year: self.year@,
            cited_by: self.cited_by@,
        }
    }
}

impl DeepView for Publication {
    type V = PublicationView;

    open spec fn deep_view(&self) -> PublicationView {
        self@
    }
}

impl Publication {
    /// Builds a publication from its four fields.
    pub fn new(title: String, journal: String, year: String, cited_by: String) -> (p: Self)
        ensures
            p.title == title,
            p.journal == journal,
            p.year == year,
            p.cited_by == cited_by,
    {
        Publication { title, journal, year, cited_by }
    }
}

/// A scholar's profile: identity, citation metrics and publications.
#[derive(Debug, Clone)]
pub struct Scholar {
    pub google_id: String,
    pub name: String,
    pub affiliation: String,
    pub document_count: usize,
    pub cited_by: String,
    pub cited_5_years: String,
    pub h_index: String,
    pub h_index_5_years: String,
    pub i10_index: String,
    pub i10_index_5_years: String,
    pub publication: Vec<Publication>,
}

impl Scholar {
    /// Builds a scholar from all of its fields.
    pub fn new(
        google_id: String,
        name: String,
        affiliation: String,
        document_count: usize,
        cited_by: String,
        cited_5_years: String,
        h_index: String,
        h_index_5_years: String,
        i10_index: String,
        i10_index_5_years: String,
        publication: Vec<Publication>,
    ) -> (s: Self)
        ensures
            s.google_id == google_id,
            s.name == name,
            s.affiliation == affiliation,
            s.document_count == document_count,
            s.cited_by == cited_by,
            s.cited_5_years == cited_5_years,
            s.h_index == h_index,
            s.h_index_5_years == h_index_5_years,
            s.i10_index == i10_index,
            s.i10_index_5_years == i10_index_5_years,
            s.publication == publication,
    {
        Scholar {
            google_id,
            name,
            affiliation,
            document_count,
            cited_by,
            cited_5_years,
            h_index,
            h_index_5_years,
            i10_index,
            i10_index_5_years,
            publication,
        }
    }
}

/// An entry of the author list: the Google Scholar id of one profile to scrape.
#[derive(Debug, Clone)]
pub struct PreScholar {
    pub google_id: String,
}

} // verus!
