use statuspage::component::{Component, ComponentStatus};
use statuspage::incident::{AffectedComponent, Incident, IncidentImpact, IncidentStatus, IncidentUpdate};
use statuspage::json::{parse_json, Json};
use statuspage::metainfo::Metainfo;
use statuspage::status::{Status, StatusIndicator};
use statuspage::summary::Summary;
use statuspage::time::{CalendarDate, Timestamp};

fn tree(text: &str) -> Json {
    parse_json(text).expect("test document is JSON")
}

const COMPONENT: &str = r#"{
    "id": "rhznvxg4v7yh",
    "name": "API",
    "status": "partial_outage",
    "created_at": "2013-05-29T21:32:28.000-06:00",
    "updated_at": "2014-05-14T14:22:39.441Z",
    "position": 3,
    "description": null,
    "showcase": true,
    "start_date": "2021-03-04",
    "group_id": "kdm5y1rlt1xs",
    "page_id": "j2mfxwj97wnj",
    "group": false,
    "only_show_if_degraded": false
}"#;

const UPDATE_WITHOUT_LIST: &str = r#"{
    "id": "u1",
    "status": "monitoring",
    "body": "A fix is out.",
    "created_at": "2014-05-14T14:22:39.441Z",
    "updated_at": "2014-05-14T14:22:39.441Z",
    "display_at": "2014-05-14T14:22:39.441Z",
    "deliver_notifications": true
}"#;

#[test]
fn impact_order_follows_severity() {
    let order = [
        IncidentImpact::Clear,
        IncidentImpact::Maintenance,
        IncidentImpact::Minor,
        IncidentImpact::Major,
        IncidentImpact::Critical,
    ];
    for (i, a) in order.iter().enumerate() {
        for (k, b) in order.iter().enumerate() {
            assert_eq!(a < b, i < k);
            assert_eq!(a.cmp(b), i.cmp(&k));
            assert_eq!(a.partial_cmp(b), Some(i.cmp(&k)));
        }
    }
}

#[test]
fn indicator_order_follows_severity() {
    assert!(StatusIndicator::Clear < StatusIndicator::Maintenance);
    assert!(StatusIndicator::Maintenance < StatusIndicator::Minor);
    assert!(StatusIndicator::Minor < StatusIndicator::Major);
    assert!(StatusIndicator::Major < StatusIndicator::Critical);
    assert_eq!(StatusIndicator::Critical.severity(), 4);
}

#[test]
fn component_decodes_every_field() {
    let c = Component::from_json(&tree(COMPONENT)).unwrap();
    assert_eq!(c.id, "rhznvxg4v7yh");
    assert_eq!(c.name, "API");
    assert_eq!(c.status, ComponentStatus::PartialOutage);
    assert_eq!(
        c.created_at,
        Timestamp { seconds: 1369884748, nanos: 0, offset_seconds: -21600 }
    );
    assert_eq!(
        c.updated_at,
        Timestamp { seconds: 1400077359, nanos: 441_000_000, offset_seconds: 0 }
    );
    assert_eq!(c.position, 3);
    assert_eq!(c.description, None);
    assert!(c.showcase);
    assert_eq!(c.start_date, Some(CalendarDate { year: 2021, month: 3, day: 4 }));
    assert_eq!(c.group_id.as_deref(), Some("kdm5y1rlt1xs"));
    assert_eq!(c.page_id, "j2mfxwj97wnj");
    assert_eq!(c.group, Some(false));
    assert_eq!(c.only_show_if_degraded, Some(false));
    assert!(c.components.is_empty());
}

#[test]
fn component_group_lists_members() {
    let text = COMPONENT.replace("\"group\": false", "\"group\": true, \"components\": [\"a\", \"b\"]");
    let c = Component::from_json(&tree(&text)).unwrap();
    assert_eq!(c.group, Some(true));
    assert_eq!(c.components, vec!["a".to_string(), "b".to_string()]);
}

#[test]
fn component_refuses_null_member_list() {
    let text = COMPONENT.replace("\"group\": false", "\"group\": true, \"components\": null");
    assert!(Component::from_json(&tree(&text)).is_err());
}

#[test]
fn component_refuses_bad_fields() {
    let bad_status = COMPONENT.replace("partial_outage", "partialOutage");
    let e = Component::from_json(&tree(&bad_status)).unwrap_err();
    assert_eq!(e.field, "status");
    let bad_position = COMPONENT.replace("\"position\": 3", "\"position\": 3000000000");
    assert_eq!(Component::from_json(&tree(&bad_position)).unwrap_err().field, "position");
    let bad_time = COMPONENT.replace("2013-05-29T21:32:28.000-06:00", "yesterday");
    assert_eq!(Component::from_json(&tree(&bad_time)).unwrap_err().field, "created_at");
    let bad_date = COMPONENT.replace("2021-03-04", "2021-13-04");
    assert_eq!(Component::from_json(&tree(&bad_date)).unwrap_err().field, "start_date");
    let missing = COMPONENT.replace("\"showcase\": true,", "");
    assert_eq!(Component::from_json(&tree(&missing)).unwrap_err().field, "showcase");
}

#[test]
fn update_null_and_absent_affected_components_agree() {
    let absent = IncidentUpdate::from_json(&tree(UPDATE_WITHOUT_LIST)).unwrap();
    let with_null = UPDATE_WITHOUT_LIST.replace("\"deliver_notifications\": true", "\"deliver_notifications\": true, \"affected_components\": null");
    let null = IncidentUpdate::from_json(&tree(&with_null)).unwrap();
    assert!(absent.affected_components.is_empty());
    assert!(null.affected_components.is_empty());
    assert_eq!(absent.id, null.id);
    assert_eq!(absent.status, IncidentStatus::Monitoring);
    assert_eq!(null.status, IncidentStatus::Monitoring);
    assert_eq!(absent.deliver_notifications, Some(true));
}

#[test]
fn update_reads_affected_components() {
    let text = UPDATE_WITHOUT_LIST.replace(
        "\"deliver_notifications\": true",
        r#""affected_components": [{"code": "c1", "name": "API", "old_status": "operational", "new_status": "major_outage"}]"#,
    );
    let u = IncidentUpdate::from_json(&tree(&text)).unwrap();
    assert_eq!(u.deliver_notifications, None);
    assert_eq!(u.affected_components.len(), 1);
    let a: &AffectedComponent = &u.affected_components[0];
    assert_eq!(a.code, "c1");
    assert_eq!(a.old_status, ComponentStatus::Operational);
    assert_eq!(a.new_status, ComponentStatus::MajorOutage);
}

#[test]
fn enums_refuse_tokens_outside_their_vocabulary() {
    assert!(Status::from_json(&tree(r#"{"indicator": "bogus", "description": "x"}"#)).is_err());
    assert!(Status::from_json(&tree(r#"{"indicator": "None", "description": "x"}"#)).is_err());
    let bad_update = UPDATE_WITHOUT_LIST.replace("monitoring", "bogus");
    assert!(IncidentUpdate::from_json(&tree(&bad_update)).is_err());
    let incident = r#"{"id": "i", "name": "n", "status": "resolved", "created_at": "2014-05-14T14:22:39Z", "impact": "severe", "shortlink": "s"}"#;
    assert_eq!(Incident::from_json(&tree(incident)).unwrap_err().field, "impact");
    let snake_in_indicator = r#"{"indicator": "major_outage", "description": "x"}"#;
    assert!(Status::from_json(&tree(snake_in_indicator)).is_err());
    assert!(ComponentStatus::from_token(&"degraded".to_string()).is_none());
    assert_eq!(
        ComponentStatus::from_token(&"under_maintenance".to_string()),
        Some(ComponentStatus::UnderMaintenance)
    );
    assert_eq!(IncidentImpact::from_token(&"none".to_string()), Some(IncidentImpact::Clear));
    assert_eq!(StatusIndicator::from_token(&"none".to_string()), Some(StatusIndicator::Clear));
    assert_eq!(IncidentStatus::from_token(&"postmortem".to_string()), Some(IncidentStatus::Postmortem));
}

#[test]
fn incident_defaults_its_lists() {
    let incident = r#"{"id": "i", "name": "n", "status": "resolved", "created_at": "2014-05-14T14:22:39Z", "impact": "critical", "shortlink": "s", "started_at": null}"#;
    let x = Incident::from_json(&tree(incident)).unwrap();
    assert_eq!(x.impact, IncidentImpact::Critical);
    assert!(x.incident_updates.is_empty());
    assert!(x.components.is_empty());
    assert!(x.updated_at.is_none());
    assert!(x.started_at.is_none());
    assert!(x.page_id.is_none());
    let null_updates = incident.replace("\"started_at\": null", "\"incident_updates\": null");
    assert_eq!(Incident::from_json(&tree(&null_updates)).unwrap_err().field, "incident_updates");
}

#[test]
fn summary_and_metainfo_decode() {
    let text = format!(
        r#"{{"components": [{COMPONENT}], "incidents": [], "status": {{"indicator": "none", "description": "All Systems Operational"}}}}"#
    );
    let s = Summary::from_json(&tree(&text)).unwrap();
    assert_eq!(s.components.len(), 1);
    assert!(s.incidents.is_empty());
    assert_eq!(s.status.indicator, StatusIndicator::Clear);
    assert_eq!(s.status.description, "All Systems Operational");
    assert!(Summary::from_json(&tree(r#"{"components": [], "status": {"indicator": "none", "description": ""}}"#)).is_err());
    let page = r#"{"id": "p", "name": "Page", "url": "https://x", "time_zone": "Etc/UTC", "updated_at": "2014-05-14T14:22:39+02:00"}"#;
    let m = Metainfo::from_json(&tree(page)).unwrap();
    assert_eq!(m.time_zone, "Etc/UTC");
    assert_eq!(m.updated_at.offset_seconds, 7200);
}

#[test]
fn json_tree_keeps_numbers_and_members() {
    match tree(r#"{"a": 1.5, "b": -7, "c": [true, null, "s"]}"#) {
        Json::Object(fields) => {
            assert_eq!(fields.len(), 3);
            assert!(matches!(fields[0].1, Json::Number(None)));
            assert!(matches!(fields[1].1, Json::Number(Some(-7))));
            match &fields[2].1 {
                Json::Array(items) => {
                    assert!(matches!(items[0], Json::Bool(true)));
                    assert!(matches!(items[1], Json::Null));
                    assert!(matches!(&items[2], Json::Str(s) if s == "s"));
                }
                _ => panic!("expected an array"),
            }
        }
        _ => panic!("expected an object"),
    }
    assert!(parse_json("{").is_none());
}
