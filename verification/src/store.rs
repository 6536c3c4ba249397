//! The weather store: the loaded document, never changed after loading, and
//! the two ways of reading it.

use vstd::prelude::*;
use crate::json::{json_fields, json_object_keys, json_parse, member, object_keys, parse_document};

verus! {

/// Why a text was not accepted as a dataset.
#[derive(Clone, Debug, PartialEq, Eq)]
pub enum LoadError {
    /// The text is not JSON. Holds the parser's message.
    InvalidJson(String),
    /// The text is JSON, but its top-level value is not an object.
    NotAnObject,
}

/// The member of `v` stored under exactly `key`, if `v` is an object that has
/// one.
pub open spec fn member_at(v: serde_json::Value, key: Seq<char>) -> Option<serde_json::Value> {
    if json_fields(v).dom().contains(key) {
        Some(json_fields(v)[key])
    } else {
        None
    }
}

/// The metrics that `document` holds for a month of a city of a country:
/// three exact lookups, one inside the other. Absent as soon as one of them
/// finds nothing.
pub open spec fn metrics_at(
    document: serde_json::Value,
    country: Seq<char>,
    city: Seq<char>,
    month: Seq<char>,
) -> Option<serde_json::Value> {
    match member_at(document, country) {
        Some(cities) => match member_at(cities, city) {
            Some(months) => member_at(months, month),
            None => None,
        },
        None => None,
    }
}

/// Whether `document` can serve as a dataset: it is an object, its keys are
/// listed without repetition, and the keys listed are exactly those under
/// which a member is found.
pub open spec fn is_dataset(document: serde_json::Value) -> bool {
    match json_object_keys(document) {
        Some(keys) => keys.no_duplicates() && keys.to_set() == json_fields(document).dom(),
        None => false,
    }
}

/// A dataset as a mathematical value.
pub struct DatasetView {
    /// The country names, in the order in which they are listed.
    pub countries: Seq<Seq<char>>,
    /// The metrics by (country, city, month).
    pub metrics: Map<(Seq<char>, Seq<char>, Seq<char>), serde_json::Value>,
}

/// The loaded dataset. It offers no way to change it.
pub struct WeatherStore {
    document: serde_json::Value,
}

impl View for WeatherStore {
    type V = DatasetView;

    open spec fn view(&self) -> DatasetView {
        DatasetView {
            countries: match json_object_keys(self.document()) {
                Some(keys) => keys,
                None => Seq::empty(),
            },
            metrics: Map::new(
                |path: (Seq<char>, Seq<char>, Seq<char>)|
                    metrics_at(self.document(), path.0, path.1, path.2) is Some,
                |path: (Seq<char>, Seq<char>, Seq<char>)|
                    metrics_at(self.document(), path.0, path.1, path.2).unwrap(),
            ),
        }
    }
}

impl WeatherStore {
    /// The JSON document that the store holds.
    pub closed spec fn document(&self) -> serde_json::Value {
        self.document
    }

    /// Every store is well formed: its document is a dataset.
    pub open spec fn wf(&self) -> bool {
        is_dataset(self.document())
    }

    #[verifier::type_invariant]
    spec fn inv(&self) -> bool {
        self.wf()
    }

    /// Whether the dataset has a country of this name.
    pub open spec fn has_country(&self, country: Seq<char>) -> bool {
        json_fields(self.document()).dom().contains(country)
    }

    /// Reads a dataset from JSON text.
    ///
    /// Fails with `InvalidJson` where the text is not JSON, and with
    /// `NotAnObject` where it is JSON of another kind than an object.
    pub fn load(text: &str) -> (r: Result<WeatherStore, LoadError>)
        ensures
            match json_parse(text@) {
                Ok(document) => match json_object_keys(document) {
                    Some(_) => r is Ok && r->Ok_0.wf() && r->Ok_0.document() == document,
                    None => r == Err::<WeatherStore, LoadError>(LoadError::NotAnObject),
                },
                Err(message) => r matches Err(LoadError::InvalidJson(m)) && m@ == message,
            },
    {
        WeatherStore::from_parsed(parse_document(text))
    }

    /// Makes a store of what the JSON parser returned: the document, or the
    /// message of its error.
    pub fn from_parsed(parsed: Result<serde_json::Value, String>) -> (r: Result<
        WeatherStore,
        LoadError,
    >)
        ensures
            match parsed {
                Ok(document) => match json_object_keys(document) {
                    Some(_) => r is Ok && r->Ok_0.wf() && r->Ok_0.document() == document,
                    None => r == Err::<WeatherStore, LoadError>(LoadError::NotAnObject),
                },
                Err(message) => r == Err::<WeatherStore, LoadError>(
                    LoadError::InvalidJson(message),
                ),
            },
    {
        match parsed {
            Ok(document) => WeatherStore::from_document(document),
            Err(message) => Err(LoadError::InvalidJson(message)),
        }
    }

    /// Makes a store of a JSON document. The document is accepted exactly
    /// where it is an object; an empty object is a dataset without countries.
    pub fn from_document(document: serde_json::Value) -> (r: Result<WeatherStore, LoadError>)
        ensures
            match json_object_keys(document) {
                Some(_) => r is Ok && r->Ok_0.wf() && r->Ok_0.document() == document,
                None => r == Err::<WeatherStore, LoadError>(LoadError::NotAnObject),
            },
    {
        match object_keys(&document) {
            Some(_) => Ok(WeatherStore { document }),
            None => Err(LoadError::NotAnObject),
        }
    }

    /// The names of all countries of the dataset, each once.
    pub fn list_countries(&self) -> (names: Vec<String>)
        ensures
            self.wf(),
            names.deep_view() == self@.countries,
            names.deep_view().no_duplicates(),
            forall|country: Seq<char>|
                names.deep_view().contains(country) <==> self.has_country(country),
    {
        proof {
            use_type_invariant(self);
        }
        match object_keys(&self.document) {
            Some(names) => {
                assert forall|country: Seq<char>|
                    names.deep_view().contains(country) <==> self.has_country(country) by {
                    assert(names.deep_view().to_set().contains(country)
                        <==> names.deep_view().contains(country));
                }
                names
            },
            None => Vec::new(),
        }
    }

    /// The metrics stored for `month` of `city` of `country`. Each name must
    /// match exactly. Whichever of the three is unknown, the answer is the
    /// same: `None`.
    pub fn lookup_monthly(&self, country: &str, city: &str, month: &str) -> (r: Option<
        &serde_json::Value,
    >)
        ensures
            match r {
                Some(metrics) => metrics_at(self.document(), country@, city@, month@) == Some(
                    *metrics,
                ),
                None => metrics_at(self.document(), country@, city@, month@) is None,
            },
    {
        match member(&self.document, country) {
            Some(cities) => match member(cities, city) {
                Some(months) => member(months, month),
                None => None,
            },
            None => None,
        }
    }
}

} // verus!
