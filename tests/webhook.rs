use statuspage::component::ComponentStatus;
use statuspage::incident::{IncidentImpact, IncidentStatus};
use statuspage::status::StatusIndicator;
use statuspage::webhook::{StatusWebhook, WebhookPayload};

const META_AND_PAGE: &str = r#""meta": {
        "unsubscribe": "https://status.example.com/?unsubscribe=j0vqr9kl3513",
        "documentation": "https://doers.statuspage.io/customer-notifications/webhooks/"
    },
    "page": {
        "id": "j2mfxwj97wnj",
        "status_indicator": "major",
        "status_description": "Partial System Outage"
    }"#;

fn component_document(old: &str, new: &str) -> String {
    format!(
        r#"{{ {META_AND_PAGE},
        "component_update": {{
            "created_at": "2013-05-29T21:32:28Z",
            "new_status": "{new}",
            "old_status": "{old}",
            "id": "k7730b5v92bv",
            "component_id": "rhznvxg4v7yh"
        }},
        "component": {{
            "created_at": "2013-05-29T21:32:28Z",
            "id": "rhznvxg4v7yh",
            "name": "Some Component",
            "status": "{new}"
        }}
    }}"#
    )
}

fn incident_document(status: &str, resolved_at: &str) -> String {
    format!(
        r#"{{ {META_AND_PAGE},
        "incident": {{
            "backfilled": false,
            "created_at": "2013-05-29T15:08:51-06:00",
            "impact": "minor",
            "impact_override": null,
            "monitoring_at": "2013-05-29T16:07:53-06:00",
            "postmortem_body": null,
            "resolved_at": {resolved_at},
            "shortlink": "http://j.mp/18zyDQx",
            "status": "{status}",
            "updated_at": "2013-05-29T16:30:35-06:00",
            "id": "cc5gchpvgyhh",
            "page_id": "j2mfxwj97wnj",
            "name": "Issue with Polls Ending Properly",
            "incident_updates": [
                {{
                    "body": "The poll issue has been found.",
                    "created_at": "2013-05-29T16:30:35-06:00",
                    "display_at": "2013-05-29T16:30:35-06:00",
                    "id": "drfcwbnpxnr6",
                    "incident_id": "cc5gchpvgyhh",
                    "status": "{status}",
                    "twitter_updated_at": null,
                    "updated_at": "2013-05-29T16:30:35-06:00",
                    "wants_twitter_update": false,
                    "affected_components": null
                }}
            ]
        }}
    }}"#
    )
}

#[test]
fn test_parse_first_component() {
    let component = StatusWebhook::parse(&component_document("operational", "degraded_performance"))
        
        .unwrap();
    match component.payload {
        WebhookPayload::Incident { .. } => panic!("unexpected incident pyload"),
        WebhookPayload::Unknown => panic!("unexpected unknown payload"),
        WebhookPayload::Component { component_update, component } => {
            assert_eq!(component.id, "rhznvxg4v7yh");
            assert_eq!(component_update.new_status, ComponentStatus::DegradedPerformance);
        }
        _ => panic!("unexpected payload"),
    }
}

#[test]
fn test_parse_second_component() {
    let component = StatusWebhook::parse(&component_document("degraded_performance", "operational"))
        
        .unwrap();
    match component.payload {
        WebhookPayload::Incident { .. } => panic!("unexpected incident pyload"),
        WebhookPayload::Unknown => panic!("unexpected unknown payload"),
        WebhookPayload::Component { component_update, component } => {
            assert_eq!(component.id, "rhznvxg4v7yh");
            assert_eq!(component_update.new_status, ComponentStatus::Operational);
            assert_eq!(component_update.old_status, ComponentStatus::DegradedPerformance);
        }
        _ => panic!("unexpected payload"),
    }
}

#[test]
fn test_parse_first_incident() {
    let incident = StatusWebhook::parse(&incident_document("identified", "null")).ok().unwrap();
    match incident.payload {
        WebhookPayload::Component { .. } => panic!("unexpected component update"),
        WebhookPayload::Unknown => panic!("unexpected unknown"),
        WebhookPayload::Incident { incident } => {
            assert_eq!(incident.id, "cc5gchpvgyhh");
            assert_eq!(incident.impact, IncidentImpact::Minor);
            assert_eq!(incident.status, IncidentStatus::Identified);
            assert_eq!(incident.name, "Issue with Polls Ending Properly");
        }
        _ => panic!("unexpected payload"),
    }
}

#[test]
fn test_parse_second_incident() {
    let incident = StatusWebhook::parse(&incident_document(
        "resolved",
        "\"2013-05-29T16:30:35-06:00\"",
    ))
    
    .unwrap();
    match incident.payload {
        WebhookPayload::Component { .. } => panic!("unexpected component update"),
        WebhookPayload::Unknown => panic!("unexpected unknown"),
        WebhookPayload::Incident { incident } => {
            assert_eq!(incident.id, "cc5gchpvgyhh");
            assert_eq!(incident.impact, IncidentImpact::Minor);
            assert_eq!(incident.name, "Issue with Polls Ending Properly");
            assert_eq!(incident.status, IncidentStatus::Resolved);
        }
        _ => panic!("unexpected payload"),
    }
}

#[test]
fn test_parse_invalid_incident() {
    let text = format!(r#"{{ {META_AND_PAGE}, "subscriber": {{ "id": "x" }} }}"#);
    let incident = StatusWebhook::parse(&text).ok().unwrap();
    match incident.payload {
        WebhookPayload::Component { .. } => panic!("unexpected component"),
        WebhookPayload::Incident { .. } => panic!("unexpected incident"),
        WebhookPayload::Unknown => (),
        _ => panic!("unexpected payload"),
    }
}

#[test]
fn webhook_keeps_meta_and_page() {
    let w = StatusWebhook::parse(&component_document("operational", "major_outage")).ok().unwrap();
    assert_eq!(w.meta.unsubscribe, "https://status.example.com/?unsubscribe=j0vqr9kl3513");
    assert_eq!(w.page.id, "j2mfxwj97wnj");
    assert_eq!(w.page.status_indicator, StatusIndicator::Major);
    assert_eq!(w.page.status_description, "Partial System Outage");
}

#[test]
fn webhook_incident_keeps_null_affected_components_empty() {
    let w = StatusWebhook::parse(&incident_document("identified", "null")).ok().unwrap();
    match w.payload {
        WebhookPayload::Incident { incident } => {
            assert_eq!(incident.incident_updates.len(), 1);
            assert!(incident.incident_updates[0].affected_components.is_empty());
            assert!(incident.resolved_at.is_none());
            assert_eq!(incident.page_id.as_deref(), Some("j2mfxwj97wnj"));
            let created = incident.created_at;
            assert_eq!(created.offset_seconds, -6 * 3600);
        }
        _ => panic!("expected an incident"),
    }
}

#[test]
fn webhook_with_broken_component_falls_back_to_incident() {
    let text = incident_document("monitoring", "null");
    let with_bad_component = text.replacen(
        "\"incident\":",
        "\"component_update\": {\"id\": 1}, \"component\": {}, \"incident\":",
        1,
    );
    let w = StatusWebhook::parse(&with_bad_component).ok().unwrap();
    assert!(matches!(w.payload, WebhookPayload::Incident { .. }));
}

#[test]
fn webhook_with_broken_incident_is_unknown() {
    let text = incident_document("bogus", "null");
    let w = StatusWebhook::parse(&text).ok().unwrap();
    assert!(matches!(w.payload, WebhookPayload::Unknown));
}

#[test]
fn webhook_without_meta_is_refused() {
    assert!(StatusWebhook::parse(r#"{"page": {}}"#).is_err());
    assert!(StatusWebhook::parse("not json").is_err());
}

#[test]
fn webhook_with_bad_page_indicator_is_refused() {
    let text = component_document("operational", "operational").replace("\"major\"", "\"bogus\"");
    assert!(StatusWebhook::parse(&text).is_err());
}
