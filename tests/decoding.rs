use raincheck::{
    decode_period, forecast_document_url, rain_chance_of, resolve_forecast, resolve_location,
    resolve_own_ip, FetchError, Field, Json, JsonNumber,
};

fn to_json(v: &serde_json::Value) -> Json {
    match v {
        serde_json::Value::Null => Json::Null,
        serde_json::Value::Bool(b) => Json::Bool(*b),
        serde_json::Value::Number(n) => Json::Number(JsonNumber {
            unsigned: n.as_u64(),
            decimal: n.as_f64().map(|x| x.to_string()).unwrap_or_default(),
        }),
        serde_json::Value::String(s) => Json::Str(s.clone()),
        serde_json::Value::Array(items) => Json::Array(items.iter().map(to_json).collect()),
        serde_json::Value::Object(members) => Json::Object(
            members.iter().map(|(k, v)| (k.clone(), to_json(v))).collect(),
        ),
    }
}

fn parse(text: &str) -> Json {
    to_json(&serde_json::from_str(text).unwrap())
}

#[test]
fn own_ip_is_returned_unmodified() {
    for addr in ["1.2.3.4", "2001:db8::1", "", " 10.0.0.1 "] {
        let doc = Json::Object(vec![("ip".to_string(), Json::Str(addr.to_string()))]);
        assert_eq!(resolve_own_ip(&doc), Ok(addr.to_string()));
    }
    let doc = parse(r#"{"ip":"203.0.113.7","extra":[1,2]}"#);
    assert_eq!(resolve_own_ip(&doc), Ok("203.0.113.7".to_string()));
}

#[test]
fn own_ip_missing_field() {
    assert_eq!(resolve_own_ip(&parse("{}")), Err(FetchError::FieldMissing(Field::Ip)));
    assert_eq!(resolve_own_ip(&parse("[1]")), Err(FetchError::FieldMissing(Field::Ip)));
    assert_eq!(resolve_own_ip(&parse(r#"{"IP":"1.2.3.4"}"#)), Err(FetchError::FieldMissing(Field::Ip)));
}

#[test]
fn own_ip_wrong_type() {
    assert_eq!(resolve_own_ip(&parse(r#"{"ip":1234}"#)), Err(FetchError::FieldType(Field::Ip)));
    assert_eq!(resolve_own_ip(&parse(r#"{"ip":null}"#)), Err(FetchError::FieldType(Field::Ip)));
}

#[test]
fn location_keeps_every_digit() {
    let c = resolve_location(&parse(r#"{"lat":36.1,"lon":-86.8}"#)).unwrap();
    assert_eq!(c.latitude, "36.1");
    assert_eq!(c.longitude, "-86.8");
    let c = resolve_location(&parse(r#"{"status":"success","lat":0.1234567890123,"lon":-179.99999999999997}"#)).unwrap();
    assert_eq!(c.latitude.parse::<f64>().unwrap(), 0.1234567890123_f64);
    assert_eq!(c.longitude.parse::<f64>().unwrap(), -179.99999999999997_f64);
    let c = resolve_location(&parse(r#"{"lat":40,"lon":-75}"#)).unwrap();
    assert_eq!(c.latitude, "40");
    assert_eq!(c.longitude, "-75");
}

#[test]
fn location_errors() {
    assert_eq!(
        resolve_location(&parse(r#"{"status":"fail","message":"invalid query"}"#)).unwrap_err(),
        FetchError::FieldMissing(Field::Lat)
    );
    assert_eq!(
        resolve_location(&parse(r#"{"lat":1.5}"#)).unwrap_err(),
        FetchError::FieldMissing(Field::Lon)
    );
    assert_eq!(
        resolve_location(&parse(r#"{"lat":"1.5","lon":2}"#)).unwrap_err(),
        FetchError::FieldType(Field::Lat)
    );
    assert_eq!(
        resolve_location(&parse(r#"{"lat":1.5,"lon":[2]}"#)).unwrap_err(),
        FetchError::FieldType(Field::Lon)
    );
}

#[test]
fn forecast_url_found() {
    let doc = parse(r#"{"properties":{"gridId":"OHX","forecast":"http://example/forecast"}}"#);
    assert_eq!(forecast_document_url(&doc), Ok("http://example/forecast".to_string()));
}

#[test]
fn forecast_url_errors() {
    assert_eq!(
        forecast_document_url(&parse(r#"{"type":"Feature"}"#)),
        Err(FetchError::FieldMissing(Field::Properties))
    );
    assert_eq!(
        forecast_document_url(&parse(r#"{"properties":"none"}"#)),
        Err(FetchError::FieldType(Field::Properties))
    );
    assert_eq!(
        forecast_document_url(&parse(r#"{"properties":{}}"#)),
        Err(FetchError::FieldMissing(Field::Forecast))
    );
    assert_eq!(
        forecast_document_url(&parse(r#"{"properties":{"forecast":7}}"#)),
        Err(FetchError::FieldMissing(Field::Forecast))
    );
}

#[test]
fn forecast_keeps_count_and_order() {
    let doc = parse(
        r#"{"properties":{"periods":[
            {"name":"Today","probabilityOfPrecipitation":{"value":10}},
            {"name":"Tonight","probabilityOfPrecipitation":{"value":100}},
            {"name":"Today","probabilityOfPrecipitation":{"value":0}},
            {"name":"Monday","probabilityOfPrecipitation":{"value":55}}
        ]}}"#,
    );
    let periods = resolve_forecast(&doc).unwrap();
    let got: Vec<(&str, u64)> =
        periods.iter().map(|p| (p.label.as_str(), p.rain_probability_percent)).collect();
    assert_eq!(got, vec![("Today", 10), ("Tonight", 100), ("Today", 0), ("Monday", 55)]);
}

#[test]
fn forecast_empty_periods() {
    let doc = parse(r#"{"properties":{"periods":[]}}"#);
    assert_eq!(resolve_forecast(&doc).unwrap().len(), 0);
}

#[test]
fn forecast_errors() {
    assert_eq!(resolve_forecast(&parse("{}")).unwrap_err(), FetchError::FieldMissing(Field::Properties));
    assert_eq!(
        resolve_forecast(&parse(r#"{"properties":[]}"#)).unwrap_err(),
        FetchError::FieldType(Field::Properties)
    );
    assert_eq!(
        resolve_forecast(&parse(r#"{"properties":{}}"#)).unwrap_err(),
        FetchError::FieldMissing(Field::Periods)
    );
    assert_eq!(
        resolve_forecast(&parse(r#"{"properties":{"periods":{}}}"#)).unwrap_err(),
        FetchError::FieldType(Field::Periods)
    );
    assert_eq!(
        resolve_forecast(&parse(r#"{"properties":{"periods":[{"name":"A"},{"number":2}]}}"#))
            .unwrap_err(),
        FetchError::FieldMissing(Field::Name)
    );
    assert_eq!(
        resolve_forecast(&parse(r#"{"properties":{"periods":[{"name":3}]}}"#)).unwrap_err(),
        FetchError::FieldType(Field::Name)
    );
}

#[test]
fn absent_chance_of_rain_is_zero() {
    let p = decode_period(&parse(r#"{"name":"Tonight"}"#)).unwrap();
    assert_eq!(p.label, "Tonight");
    assert_eq!(p.rain_probability_percent, 0);
}

#[test]
fn wanting_chance_of_rain_is_zero() {
    for text in [
        r#"{"probabilityOfPrecipitation":{}}"#,
        r#"{"probabilityOfPrecipitation":{"value":null}}"#,
        r#"{"probabilityOfPrecipitation":{"value":-5}}"#,
        r#"{"probabilityOfPrecipitation":{"value":12.5}}"#,
        r#"{"probabilityOfPrecipitation":null}"#,
    ] {
        assert_eq!(rain_chance_of(&parse(text)), 0, "{}", text);
    }
    assert_eq!(rain_chance_of(&parse(r#"{"probabilityOfPrecipitation":{"unitCode":"wmoUnit:percent","value":40}}"#)), 40);
}
