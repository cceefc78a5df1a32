//! The package-metadata record the registry reports for one package,
//! and its mathematical view.

use vstd::prelude::*;

verus! {

/// The metadata the registry reports for one package. Optional fields
/// are ones the registry may leave out of the record.
pub struct PackageRecord {
    pub name: String,
    pub description: String,
    pub keywords: Vec<String>,
    pub max_stable_version: String,
    pub max_version: String,
    pub homepage: Option<String>,
    pub repository: Option<String>,
    pub documentation: Option<String>,
}

/// The record as mathematics: every textual field a sequence of
/// characters.
pub ghost struct RecordView {
    pub name: Seq<char>,
    pub description: Seq<char>,
    pub keywords: Seq<Seq<char>>,
    pub max_stable_version: Seq<char>,
    pub max_version: Seq<char>,
    pub homepage: Option<Seq<char>>,
    pub repository: Option<Seq<char>>,
    pub documentation: Option<Seq<char>>,
}

impl View for PackageRecord {
    type V = RecordView;

    open spec fn view(&self) -> RecordView {
        RecordView {
            name: self.name@,
            description: self.description@,
            keywords: self.keywords.deep_view(),
            max_stable_version: self.max_stable_version@,
            max_version: self.max_version@,
            homepage: self.homepage.deep_view(),
            repository: self.repository.deep_view(),
            documentation: self.documentation.deep_view(),
        }
    }
}

} // verus!
