use weather_service::handlers::{countries, monthly_weather, root};
use weather_service::response::{ContentType, Response};
use weather_service::store::WeatherStore;

const SAMPLE: &str = r#"{
    "Country1": {
        "City1": {
            "January": { "temperature": 25.3, "humidity": 60, "precipitation": 12.5 }
        }
    }
}"#;

const NOT_FOUND_BODY: &str = "Weather data not found for the specified parameters";

fn store_of(text: &str) -> WeatherStore {
    WeatherStore::load(text).expect("the text is a JSON object")
}

fn not_found() -> Response {
    Response {
        status: 404,
        location: None,
        content_type: Some(ContentType::PlainText),
        body: NOT_FOUND_BODY.to_string(),
    }
}

#[test]
fn test_root_route() {
    let resp = root();

    assert_eq!(resp.status, 301);
    assert_eq!(resp.location.as_deref().unwrap(), "/docs");
}

#[test]
fn test_countries_route() {
    let store = store_of(r#"{ "Country1": {}, "Country2": {} }"#);
    let resp = countries(&store);

    assert_eq!(resp.status, 200);

    let body: Vec<String> = serde_json::from_str(&resp.body).unwrap();
    assert_eq!(body, vec!["Country1", "Country2"]);
}

#[test]
fn test_countries_not_found() {
    let store = store_of("{}");
    let resp = countries(&store);

    assert_eq!(resp.status, 200);

    let body: Vec<String> = serde_json::from_str(&resp.body).unwrap();
    assert_eq!(body, Vec::<String>::new());
}

#[test]
fn test_monthly_weather_route() {
    let store = store_of(SAMPLE);
    let resp = monthly_weather(&store, "Country1", "City1", "January");

    assert_eq!(resp.status, 200);

    let body: serde_json::Value = serde_json::from_str(&resp.body).unwrap();
    let mut expected = serde_json::Map::new();
    expected.insert("temperature".to_string(), serde_json::Value::from(25.3));
    expected.insert("humidity".to_string(), serde_json::Value::from(60));
    expected.insert("precipitation".to_string(), serde_json::Value::from(12.5));
    assert_eq!(body, serde_json::Value::Object(expected));
}

#[test]
fn test_monthly_weather_route_not_found() {
    let store = store_of(SAMPLE);
    let resp = monthly_weather(&store, "Country1", "City1", "February");

    assert_eq!(resp.status, 404);
}

#[test]
fn root_is_a_bare_redirect() {
    assert_eq!(
        root(),
        Response {
            status: 301,
            location: Some("/docs".to_string()),
            content_type: None,
            body: String::new(),
        }
    );
}

#[test]
fn countries_body_is_a_json_array_in_document_order() {
    let store = store_of(r#"{ "Country1": {}, "Country2": {} }"#);
    assert_eq!(
        countries(&store),
        Response {
            status: 200,
            location: None,
            content_type: Some(ContentType::Json),
            body: r#"["Country1","Country2"]"#.to_string(),
        }
    );

    let store = store_of(r#"{ "Zeta": {}, "Alpha": {}, "Mid": {} }"#);
    assert_eq!(countries(&store).body, r#"["Zeta","Alpha","Mid"]"#);
}

#[test]
fn countries_of_the_empty_dataset_is_the_empty_array() {
    let store = store_of("{}");
    assert_eq!(
        countries(&store),
        Response {
            status: 200,
            location: None,
            content_type: Some(ContentType::Json),
            body: "[]".to_string(),
        }
    );
}

#[test]
fn countries_body_escapes_names() {
    let store = store_of(r#"{ "Côte d'Ivoire": {}, "a\"b": {}, "line\nbreak": {} }"#);
    assert_eq!(
        countries(&store).body,
        r#"["Côte d'Ivoire","a\"b","line\nbreak"]"#
    );
}

#[test]
fn monthly_body_is_the_stored_value() {
    let store = store_of(SAMPLE);
    assert_eq!(
        monthly_weather(&store, "Country1", "City1", "January"),
        Response {
            status: 200,
            location: None,
            content_type: Some(ContentType::Json),
            body: r#"{"temperature":25.3,"humidity":60,"precipitation":12.5}"#.to_string(),
        }
    );
}

#[test]
fn monthly_forwards_any_shape_of_metrics() {
    let store = store_of(
        r#"{ "C": { "T": {
            "list": [1, "two", null, { "k": false }],
            "text": "mild",
            "nothing": null,
            "deep": { "wind": { "speed": 12, "gusts": [30, 41.5] } }
        } } }"#,
    );
    assert_eq!(monthly_weather(&store, "C", "T", "list").body, r#"[1,"two",null,{"k":false}]"#);
    assert_eq!(monthly_weather(&store, "C", "T", "text").body, r#""mild""#);
    assert_eq!(monthly_weather(&store, "C", "T", "nothing").body, "null");
    assert_eq!(
        monthly_weather(&store, "C", "T", "deep").body,
        r#"{"wind":{"speed":12,"gusts":[30,41.5]}}"#
    );
    assert_eq!(monthly_weather(&store, "C", "T", "deep").status, 200);
}

#[test]
fn a_miss_at_any_level_is_the_same_404() {
    let store = store_of(SAMPLE);
    assert_eq!(monthly_weather(&store, "Country1", "City1", "February"), not_found());
    assert_eq!(monthly_weather(&store, "Country1", "City2", "January"), not_found());
    assert_eq!(monthly_weather(&store, "Country2", "City1", "January"), not_found());
    assert_eq!(monthly_weather(&store, "", "", ""), not_found());
}

#[test]
fn lookups_are_exact_and_case_sensitive() {
    let store = store_of(SAMPLE);
    assert_eq!(monthly_weather(&store, "country1", "City1", "January"), not_found());
    assert_eq!(monthly_weather(&store, "Country1", "CITY1", "January"), not_found());
    assert_eq!(monthly_weather(&store, "Country1", "City1", "january"), not_found());
    assert_eq!(monthly_weather(&store, "Country1", "City1", "January ").status, 404);
    assert_eq!(monthly_weather(&store, "Country1", "City1", "Jan").status, 404);
}

#[test]
fn the_empty_dataset_answers_every_lookup_with_404() {
    let store = store_of("{}");
    assert_eq!(monthly_weather(&store, "Country1", "City1", "January"), not_found());
    assert_eq!(monthly_weather(&store, "", "", ""), not_found());
}

#[test]
fn a_level_that_is_no_object_holds_nothing() {
    let store = store_of(r#"{ "A": 5, "B": { "C": [1, 2] }, "D": { "E": "text" } }"#);
    assert_eq!(monthly_weather(&store, "A", "x", "y"), not_found());
    assert_eq!(monthly_weather(&store, "B", "C", "0"), not_found());
    assert_eq!(monthly_weather(&store, "D", "E", "text"), not_found());
}

#[test]
fn repeated_requests_give_equal_responses() {
    let store = store_of(SAMPLE);
    assert_eq!(root(), root());
    assert_eq!(countries(&store), countries(&store));
    assert_eq!(
        monthly_weather(&store, "Country1", "City1", "January"),
        monthly_weather(&store, "Country1", "City1", "January")
    );
    assert_eq!(
        monthly_weather(&store, "Country1", "City1", "February"),
        monthly_weather(&store, "Country1", "City1", "February")
    );
    let again = store_of(SAMPLE);
    assert_eq!(countries(&store), countries(&again));
}
