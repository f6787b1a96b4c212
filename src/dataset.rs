//! The weather dataset: loaded once from JSON text, then only read.
//!
//! Its expected shape is country -> city -> month -> record, each level a JSON
//! object keyed by name; a record is any JSON value and is handed out as it is.

use vstd::prelude::*;
use crate::json::{is_json_text, json_of, lists_keys_of, member, member_of, object_keys, object_of, parse_value};

verus! {

/// Why the dataset could not be loaded; either way the service does not start.
#[derive(Debug, Clone, Copy, PartialEq, Eq, Structural)]
pub enum LoadError {
    /// The dataset file was missing or could not be read.
    FileAccess,
    /// The dataset file was read but is not well-formed JSON.
    MalformedDataset,
}

impl LoadError {
    /// The diagnostic to stop the service with.
    pub fn message(&self) -> (r: String)
        ensures
            *self == LoadError::FileAccess ==> r@ == "Unable to read weather.json"@,
            *self == LoadError::MalformedDataset ==> r@ == "Invalid JSON format"@,
    {
        match self {
            LoadError::FileAccess => "Unable to read weather.json".to_owned(),
            LoadError::MalformedDataset => "Invalid JSON format".to_owned(),
        }
    }
}

/// A lookup found nothing at the country / city / month asked for.
#[derive(Debug, Clone, Copy, PartialEq, Eq, Structural)]
pub struct LookupMiss;

/// The record stored under `country`, `city` and `month` in `tree`, if every
/// level holds the key.
pub open spec fn record_at(
    tree: serde_json::Value,
    country: Seq<char>,
    city: Seq<char>,
    month: Seq<char>,
) -> Option<serde_json::Value> {
    match member_of(tree, country) {
        Some(c) => match member_of(c, city) {
            Some(t) => member_of(t, month),
            None => None,
        },
        None => None,
    }
}

/// A record stored at a country, city and month, each level a JSON object,
/// is found there exactly as stored.
pub proof fn lemma_stored_record_found(
    tree: serde_json::Value,
    country: Seq<char>,
    city: Seq<char>,
    month: Seq<char>,
    rec: serde_json::Value,
)
    requires
        object_of(tree) matches Some(countries)
            && (countries.contains_key(country)
            && (object_of(countries[country]) matches Some(cities)
            && (cities.contains_key(city)
            && (object_of(cities[city]) matches Some(months)
            && (months.contains_key(month) && months[month] == rec))))),
    ensures
        record_at(tree, country, city, month) == Some(rec),
{
}

/// When the country, the city under it, or the month under that is absent,
/// nothing is found, whichever level missed. The lookup depends on the
/// document and the three keys alone, so asking again misses again.
pub proof fn lemma_missing_key_misses(
    tree: serde_json::Value,
    country: Seq<char>,
    city: Seq<char>,
    month: Seq<char>,
)
    requires
        member_of(tree, country) is None
            || (member_of(tree, country) matches Some(c) && member_of(c, city) is None)
            || (member_of(tree, country) matches Some(c) && (member_of(c, city) matches Some(t)
            && member_of(t, month) is None)),
    ensures
        record_at(tree, country, city, month) is None,
{
}

/// The whole weather document, held read-only.
#[derive(Debug)]
pub struct Dataset {
    tree: serde_json::Value,
}

impl Dataset {
    /// The JSON document this dataset holds.
    pub closed spec fn tree(&self) -> serde_json::Value {
        self.tree
    }

    /// A dataset holding `tree` as it is.
    pub fn from_value(tree: serde_json::Value) -> (d: Dataset)
        ensures
            d.tree() == tree,
    {
        Dataset { tree }
    }

    /// Parses dataset text: any well-formed JSON is accepted, whatever its
    /// shape; anything else is a malformed dataset.
    pub fn parse(text: &str) -> (r: Result<Dataset, LoadError>)
        ensures
            r is Ok <==> is_json_text(text@),
            r matches Ok(d) ==> d.tree() == json_of(text@),
            r is Err ==> r == Err::<Dataset, LoadError>(LoadError::MalformedDataset),
    {
        match parse_value(text) {
            Ok(tree) => Ok(Dataset { tree }),
            Err(_) => Err(LoadError::MalformedDataset),
        }
    }

    /// Loads the dataset from what reading its file gave: `None` when the file
    /// could not be read.
    pub fn load(contents: Option<&str>) -> (r: Result<Dataset, LoadError>)
        ensures
            contents is None ==> r == Err::<Dataset, LoadError>(LoadError::FileAccess),
            contents matches Some(text) ==> {
                &&& r is Ok <==> is_json_text(text@)
                &&& r matches Ok(d) ==> d.tree() == json_of(text@)
                &&& r is Err ==> r == Err::<Dataset, LoadError>(LoadError::MalformedDataset)
            },
    {
        match contents {
            Some(text) => Dataset::parse(text),
            None => Err(LoadError::FileAccess),
        }
    }

    /// Whether the document is a JSON object, keyed by country, as listing
    /// the countries needs.
    pub fn is_mapping(&self) -> (r: bool)
        ensures
            r == object_of(self.tree()) is Some,
    {
        self.tree.is_object()
    }

    /// The names of all countries, each once, in no promised order.
    pub fn get_countries(&self) -> (r: Vec<String>)
        requires
            object_of(self.tree()) is Some,
        ensures
            lists_keys_of(r@, object_of(self.tree())->0),
    {
        match object_keys(&self.tree) {
            Some(names) => names,
            None => Vec::new(),
        }
    }

    /// The record for `month` in `city` of `country`, exactly as stored; a
    /// miss when any of the three keys is absent at its level.
    pub fn get_weather(&self, country: &str, city: &str, month: &str) -> (r: Result<
        &serde_json::Value,
        LookupMiss,
    >)
        ensures
            r is Err <==> record_at(self.tree(), country@, city@, month@) is None,
            r matches Ok(rec) ==> record_at(self.tree(), country@, city@, month@) == Some(*rec),
    {
        match member(&self.tree, country) {
            Some(c) => match member(c, city) {
                Some(t) => match member(t, month) {
                    Some(rec) => Ok(rec),
                    None => Err(LookupMiss),
                },
                None => Err(LookupMiss),
            },
            None => Err(LookupMiss),
        }
    }
}

} // verus!
