use statuspage::client::StatusClient;
use statuspage::error::Error;
use statuspage::incident::IncidentImpact;
use statuspage::status::StatusIndicator;

const PAGE: &str = r#""page": {"id": "p", "name": "Page", "url": "https://status.example.com", "time_zone": "Etc/UTC", "updated_at": "2024-01-02T03:04:05Z"}"#;

const INCIDENT: &str = r#"{"id": "abc", "name": "Slow API", "status": "investigating", "created_at": "2024-01-02T03:04:05Z", "impact": "major", "shortlink": "https://stspg.io/x"}"#;

#[test]
fn status_response_scenario() {
    let body = format!(
        r#"{{{PAGE}, "status": {{"indicator": "minor", "description": "Partial degradation"}}}}"#
    );
    let s = StatusClient::status_from_response(200, &body).unwrap();
    assert_eq!(s.indicator, StatusIndicator::Minor);
    assert_eq!(s.description, "Partial degradation");
}

#[test]
fn non_success_status_fails_before_decoding() {
    let body = format!(
        r#"{{{PAGE}, "status": {{"indicator": "minor", "description": "Partial degradation"}}}}"#
    );
    for code in [100u16, 199, 301, 404, 500, 503] {
        assert!(matches!(StatusClient::status_from_response(code, &body), Err(Error::HttpStatus(c)) if c == code));
        assert!(matches!(StatusClient::summary_from_response(code, "garbage"), Err(Error::HttpStatus(c)) if c == code));
        assert!(matches!(StatusClient::components_from_response(code, ""), Err(Error::HttpStatus(_))));
        assert!(matches!(StatusClient::incidents_from_response(code, ""), Err(Error::HttpStatus(_))));
        assert!(matches!(StatusClient::incident_from_response(code, ""), Err(Error::HttpStatus(_))));
    }
    assert!(StatusClient::status_from_response(299, &body).is_ok());
}

#[test]
fn bad_bodies_are_deserialize_errors() {
    assert!(matches!(StatusClient::status_from_response(200, "not json"), Err(Error::Deserialize(_))));
    let no_page = r#"{"status": {"indicator": "minor", "description": "x"}}"#;
    assert!(matches!(StatusClient::status_from_response(200, no_page), Err(Error::Deserialize(_))));
    let bad_token = format!(r#"{{{PAGE}, "status": {{"indicator": "bogus", "description": "x"}}}}"#);
    assert!(matches!(StatusClient::status_from_response(200, &bad_token), Err(Error::Deserialize(_))));
}

#[test]
fn list_and_detail_responses_unwrap_their_member() {
    let incidents = format!(r#"{{{PAGE}, "incidents": [{INCIDENT}, {INCIDENT}]}}"#);
    let xs = StatusClient::incidents_from_response(200, &incidents).unwrap();
    assert_eq!(xs.len(), 2);
    assert_eq!(xs[1].impact, IncidentImpact::Major);
    let one = format!(r#"{{{PAGE}, "incident": {INCIDENT}}}"#);
    let x = StatusClient::incident_from_response(200, &one).unwrap();
    assert_eq!(x.id, "abc");
    assert_eq!(x.name, "Slow API");
    let components = format!(r#"{{{PAGE}, "components": []}}"#);
    assert!(StatusClient::components_from_response(200, &components).unwrap().is_empty());
    let missing = format!(r#"{{{PAGE}}}"#);
    assert!(StatusClient::components_from_response(200, &missing).is_err());
    let summary = r#"{"components": [], "incidents": [], "status": {"indicator": "critical", "description": "Down"}}"#;
    let s = StatusClient::summary_from_response(204, summary).unwrap();
    assert_eq!(s.status.indicator, StatusIndicator::Critical);
}

#[test]
fn client_urls() {
    let client = StatusClient::new(reqwest::blocking::Client::new(), "https://status.example.com");
    assert_eq!(client.base_url(), "https://status.example.com/api/v2");
    assert_eq!(client.url_for("/status.json"), "https://status.example.com/api/v2/status.json");
    let path = StatusClient::incident_endpoint("ab c/d");
    assert_eq!(path, "/incidents/ab c/d.json");
    assert_eq!(
        client.url_for(&path),
        "https://status.example.com/api/v2/incidents/ab c/d.json"
    );
    for url in ["", "not a url", "::"] {
        let odd = StatusClient::new(reqwest::blocking::Client::new(), url);
        assert_eq!(odd.base_url().as_str(), format!("{url}/api/v2"));
    }
}

fn field_of<T>(r: Result<T, Error>) -> String {
    match r {
        Err(Error::Deserialize(e)) => e.field,
        _ => panic!("expected a decoding error"),
    }
}

#[test]
fn decode_errors_name_the_failing_member() {
    assert_eq!(field_of(StatusClient::status_from_response(200, "not json")), "");
    let no_page = r#"{"status": {"indicator": "minor", "description": "x"}}"#;
    assert_eq!(field_of(StatusClient::status_from_response(200, no_page)), "page");
    let bad_status = format!(r#"{{{PAGE}, "status": {{"indicator": "bogus", "description": "x"}}}}"#);
    assert_eq!(field_of(StatusClient::status_from_response(200, &bad_status)), "status");
    let bad_list = format!(r#"{{{PAGE}, "incidents": [{{"id": 1}}]}}"#);
    assert_eq!(field_of(StatusClient::incidents_from_response(200, &bad_list)), "incidents");
    let bad_incident = format!(r#"{{{PAGE}, "incident": {{}}}}"#);
    assert_eq!(field_of(StatusClient::incident_from_response(200, &bad_incident)), "incident");
    let bad_summary = r#"{"components": [], "incidents": [], "status": {}}"#;
    assert_eq!(field_of(StatusClient::summary_from_response(200, bad_summary)), "status");
    let same = field_of(StatusClient::summary_from_response(200, bad_summary));
    assert_eq!(same, "status");
}

#[test]
fn page_member_is_dropped() {
    let a = format!(r#"{{{PAGE}, "status": {{"indicator": "major", "description": "d"}}}}"#);
    let other_page = PAGE.replace("\"Page\"", "\"Another page\"");
    let b = format!(r#"{{{other_page}, "status": {{"indicator": "major", "description": "d"}}}}"#);
    let sa = StatusClient::status_from_response(200, &a).unwrap();
    let sb = StatusClient::status_from_response(200, &b).unwrap();
    assert_eq!(sa.indicator, sb.indicator);
    assert_eq!(sa.description, sb.description);
}
