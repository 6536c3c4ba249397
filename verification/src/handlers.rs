//! The three routes. Each answer is a function of the store and of the
//! parameters taken from the path; nothing else is read and nothing is
//! changed.

use vstd::prelude::*;
use crate::json::{json_fields, json_text, json_text_of_names, names_text, value_text};
use crate::response::{Response, ResponseView};
use crate::store::{metrics_at, DatasetView, WeatherStore};

verus! {

/// Where `GET /` sends the client.
pub open spec fn docs_path() -> Seq<char> {
    "/docs"@
}

/// The answer to `GET /countries` on a dataset: its country names as a JSON
/// array of strings.
pub open spec fn countries_response(dataset: DatasetView) -> ResponseView {
    ResponseView::of_serialized(json_text_of_names(dataset.countries))
}

/// The answer to `GET /countries/{country}/{city}/{month}` on a dataset: the
/// stored metrics as JSON where the dataset has them, else the fixed 404.
pub open spec fn monthly_response(
    dataset: DatasetView,
    country: Seq<char>,
    city: Seq<char>,
    month: Seq<char>,
) -> ResponseView {
    if dataset.metrics.dom().contains((country, city, month)) {
        ResponseView::of_serialized(json_text(dataset.metrics[(country, city, month)]))
    } else {
        ResponseView::not_found()
    }
}

/// `GET /`: a permanent redirect to the documentation, whatever the dataset.
pub fn root() -> (r: Response)
    ensures
        r@ == ResponseView::moved_permanently(docs_path()),
{
    Response::moved_permanently("/docs")
}

/// `GET /countries`: all country names of the dataset.
pub fn countries(store: &WeatherStore) -> (r: Response)
    ensures
        r@ == countries_response(store@),
{
    let names = store.list_countries();
    Response::of_serialized(names_text(&names))
}

/// `GET /countries/{country}/{city}/{month}`: the metrics stored under the
/// three names, taken as they stand.
pub fn monthly_weather(store: &WeatherStore, country: &str, city: &str, month: &str) -> (r:
    Response)
    ensures
        r@ == monthly_response(store@, country@, city@, month@),
{
    match store.lookup_monthly(country, city, month) {
        Some(metrics) => Response::of_serialized(value_text(metrics)),
        None => Response::not_found(),
    }
}

/// The country list of a store holds each top-level key of its document
/// once, and nothing else.
pub proof fn lemma_countries_are_the_top_level_keys(store: WeatherStore)
    requires
        store.wf(),
    ensures
        store@.countries.no_duplicates(),
        forall|country: Seq<char>|
            store@.countries.contains(country) <==> json_fields(store.document()).dom().contains(
                country,
            ),
{
    assert forall|country: Seq<char>|
        store@.countries.contains(country) <==> json_fields(store.document()).dom().contains(
            country,
        ) by {
        assert(store@.countries.to_set().contains(country) <==> store@.countries.contains(
            country,
        ));
    }
}

/// Where the document has the country, the country has the city and the city
/// has the month, the lookup yields the very value stored there, and the
/// route answers with that value's JSON text.
pub proof fn lemma_present_is_found(
    store: WeatherStore,
    country: Seq<char>,
    city: Seq<char>,
    month: Seq<char>,
)
    requires
        json_fields(store.document()).dom().contains(country),
        json_fields(json_fields(store.document())[country]).dom().contains(city),
        json_fields(json_fields(json_fields(store.document())[country])[city]).dom().contains(
            month,
        ),
    ensures
        metrics_at(store.document(), country, city, month) == Some(
            json_fields(json_fields(json_fields(store.document())[country])[city])[month],
        ),
        store@.metrics.dom().contains((country, city, month)),
        store@.metrics[(country, city, month)] == json_fields(
            json_fields(json_fields(store.document())[country])[city],
        )[month],
        monthly_response(store@, country, city, month) == ResponseView::of_serialized(
            json_text(
                json_fields(json_fields(json_fields(store.document())[country])[city])[month],
            ),
        ),
{
}

/// Where the country, the city or the month is unknown, the lookup yields
/// nothing and the route answers with the fixed 404, the same in all three
/// cases.
pub proof fn lemma_absent_is_not_found(
    store: WeatherStore,
    country: Seq<char>,
    city: Seq<char>,
    month: Seq<char>,
)
    requires
        !json_fields(store.document()).dom().contains(country) || !json_fields(
            json_fields(store.document())[country],
        ).dom().contains(city) || !json_fields(
            json_fields(json_fields(store.document())[country])[city],
        ).dom().contains(month),
    ensures
        metrics_at(store.document(), country, city, month) is None,
        !store@.metrics.dom().contains((country, city, month)),
        monthly_response(store@, country, city, month) == ResponseView::not_found(),
{
}

/// Two answers to `GET /`, to `GET /countries` on one store, or to the same
/// monthly request on one store, are equal.
pub proof fn lemma_repeated_requests_agree(
    store: WeatherStore,
    country: Seq<char>,
    city: Seq<char>,
    month: Seq<char>,
    first: Response,
    second: Response,
)
    requires
        ({
            ||| first@ == ResponseView::moved_permanently(docs_path()) && second@
                == ResponseView::moved_permanently(docs_path())
            ||| first@ == countries_response(store@) && second@ == countries_response(store@)
            ||| first@ == monthly_response(store@, country, city, month) && second@
                == monthly_response(store@, country, city, month)
        }),
    ensures
        first@ == second@,
{
}

} // verus!
