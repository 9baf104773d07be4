use vstd::prelude::*;

use crate::component::{as_component_status, ComponentStatus};
use crate::error::{DecodeError, Error};
use crate::incident::{as_impact, as_incident_status, decodes_incident, Incident};
use crate::json::{
    as_text, as_time, get_member, json_of_text, member, parse_json, text_member, time_member, Json,
};
use crate::status::{as_indicator, StatusIndicator};
use crate::time::Timestamp;

verus! {

/// The links every webhook delivery carries.
#[derive(Debug)]
pub struct WebhookMeta {
    pub unsubscribe: String,
    pub documentation: String,
}

/// The page a webhook delivery is about.
#[derive(Debug)]
pub struct WebhookPage {
    pub id: String,
    pub status_indicator: StatusIndicator,
    pub status_description: String,
}

/// A change of one component's status.
#[derive(Debug)]
pub struct WebhookComponentUpdate {
    pub created_at: Timestamp,
    pub new_status: ComponentStatus,
    pub old_status: ComponentStatus,
    pub id: String,
    pub component_id: String,
}

/// The component a webhook delivery is about.
#[derive(Debug)]
pub struct WebhookComponent {
    pub created_at: Timestamp,
    pub id: String,
    pub name: String,
    pub status: ComponentStatus,
}

/// What a webhook delivery reports. The shape of the document decides:
/// a component change first, then an incident; anything else is `Unknown`.
#[derive(Debug)]
#[non_exhaustive]
pub enum WebhookPayload {
    Component { component_update: WebhookComponentUpdate, component: WebhookComponent },
    Incident { incident: Incident },
    /// A shape this library does not know; its content is dropped.
    Unknown,
}

/// A webhook delivery.
#[derive(Debug)]
pub struct StatusWebhook {
    pub meta: WebhookMeta,
    pub page: WebhookPage,
    pub payload: WebhookPayload,
}

/// `m` is what the object `j` holds as webhook links.
pub open spec fn decodes_meta(j: Json, m: WebhookMeta) -> bool {
    &&& as_text(member(j, "unsubscribe"@)) == Some(m.unsubscribe@)
    &&& as_text(member(j, "documentation"@)) == Some(m.documentation@)
}

/// `p` is what the object `j` holds as a webhook page.
pub open spec fn decodes_page(j: Json, p: WebhookPage) -> bool {
    &&& as_text(member(j, "id"@)) == Some(p.id@)
    &&& as_indicator(member(j, "status_indicator"@)) == Some(p.status_indicator)
    &&& as_text(member(j, "status_description"@)) == Some(p.status_description@)
}

/// `u` is what the object `j` holds as a component change.
pub open spec fn decodes_component_update(j: Json, u: WebhookComponentUpdate) -> bool {
    &&& as_time(member(j, "created_at"@)) == Some(u.created_at)
    &&& as_component_status(member(j, "new_status"@)) == Some(u.new_status)
    &&& as_component_status(member(j, "old_status"@)) == Some(u.old_status)
    &&& as_text(member(j, "id"@)) == Some(u.id@)
    &&& as_text(member(j, "component_id"@)) == Some(u.component_id@)
}

/// `c` is what the object `j` holds as a webhook component.
pub open spec fn decodes_webhook_component(j: Json, c: WebhookComponent) -> bool {
    &&& as_time(member(j, "created_at"@)) == Some(c.created_at)
    &&& as_text(member(j, "id"@)) == Some(c.id@)
    &&& as_text(member(j, "name"@)) == Some(c.name@)
    &&& as_component_status(member(j, "status"@)) == Some(c.status)
}

/// `j` has a `component_update` and a `component` member that both decode.
pub open spec fn has_component_shape(j: Json) -> bool {
    &&& member(j, "component_update"@) matches Some(uj)
    &&& exists|u: WebhookComponentUpdate| decodes_component_update(uj, u)
    &&& member(j, "component"@) matches Some(cj)
    &&& exists|c: WebhookComponent| decodes_webhook_component(cj, c)
}

/// `j` has an `incident` member that decodes.
pub open spec fn has_incident_shape(j: Json) -> bool {
    &&& member(j, "incident"@) matches Some(ij)
    &&& exists|x: Incident| decodes_incident(ij, x)
}

/// `p` is what the document `j` reports, tried in the order of the variants.
pub open spec fn decodes_payload(j: Json, p: WebhookPayload) -> bool {
    match p {
        WebhookPayload::Component { component_update, component } => {
            &&& member(j, "component_update"@) matches Some(uj)
            &&& decodes_component_update(uj, component_update)
            &&& member(j, "component"@) matches Some(cj)
            &&& decodes_webhook_component(cj, component)
        },
        WebhookPayload::Incident { incident } => {
            &&& !has_component_shape(j)
            &&& member(j, "incident"@) matches Some(ij)
            &&& decodes_incident(ij, incident)
        },
        WebhookPayload::Unknown => !has_component_shape(j) && !has_incident_shape(j),
    }
}

/// `w` is what the document `j` holds as a webhook delivery.
pub open spec fn decodes_webhook(j: Json, w: StatusWebhook) -> bool {
    &&& member(j, "meta"@) matches Some(mj)
    &&& decodes_meta(mj, w.meta)
    &&& member(j, "page"@) matches Some(pj)
    &&& decodes_page(pj, w.page)
    &&& decodes_payload(j, w.payload)
}

/// A document with a `component_update` and a `component` that both decode
/// reports a component change, with the component's id and both statuses as
/// written.
pub proof fn component_shape_reads_as_component(j: Json, p: WebhookPayload)
    requires
        has_component_shape(j),
        decodes_payload(j, p),
    ensures
        p matches WebhookPayload::Component { component_update, component } && {
            let uj = member(j, "component_update"@)->Some_0;
            let cj = member(j, "component"@)->Some_0;
            &&& as_text(member(cj, "id"@)) == Some(component.id@)
            &&& as_component_status(member(uj, "old_status"@)) == Some(component_update.old_status)
            &&& as_component_status(member(uj, "new_status"@)) == Some(component_update.new_status)
        },
{
}

/// A document without the component shape whose `incident` decodes reports
/// that incident, with its id, impact, status and name as written.
pub proof fn incident_shape_reads_as_incident(j: Json, p: WebhookPayload)
    requires
        !has_component_shape(j),
        has_incident_shape(j),
        decodes_payload(j, p),
    ensures
        p matches WebhookPayload::Incident { incident } && {
            let ij = member(j, "incident"@)->Some_0;
            &&& as_text(member(ij, "id"@)) == Some(incident.id@)
            &&& as_impact(member(ij, "impact"@)) == Some(incident.impact)
            &&& as_incident_status(member(ij, "status"@)) == Some(incident.status)
            &&& as_text(member(ij, "name"@)) == Some(incident.name@)
        },
{
}

/// A document of neither known shape reports `Unknown`.
pub proof fn other_shape_reads_as_unknown(j: Json, p: WebhookPayload)
    requires
        !has_component_shape(j),
        !has_incident_shape(j),
        decodes_payload(j, p),
    ensures
        p is Unknown,
{
}

/// The member named by a failed decoding of `j` as webhook links: the first one,
/// in the order of the fields, that does not fit.
pub open spec fn meta_error(j: Json) -> Seq<char> {
    if as_text(member(j, "unsubscribe"@)) is None {
        "unsubscribe"@
    } else if as_text(member(j, "documentation"@)) is None {
        "documentation"@
    } else {
        Seq::empty()
    }
}

impl WebhookMeta {
    /// Decodes a webhook-links object.
    pub fn from_json(j: &Json) -> (r: Result<WebhookMeta, DecodeError>)
        ensures
            r matches Ok(m) ==> decodes_meta(*j, m),
            r is Err ==> forall|m: WebhookMeta| !decodes_meta(*j, m),
            r matches Err(e) ==> e.field@ == meta_error(*j),
    {
        let unsubscribe = text_member(j, "unsubscribe")?;
        let documentation = text_member(j, "documentation")?;
        Ok(WebhookMeta { unsubscribe, documentation })
    }
}

/// The member named by a failed decoding of `j` as a webhook page: the first one,
/// in the order of the fields, that does not fit.
pub open spec fn page_error(j: Json) -> Seq<char> {
    if as_text(member(j, "id"@)) is None {
        "id"@
    } else if as_indicator(member(j, "status_indicator"@)) is None {
        "status_indicator"@
    } else if as_text(member(j, "status_description"@)) is None {
        "status_description"@
    } else {
        Seq::empty()
    }
}

impl WebhookPage {
    /// Decodes a webhook-page object.
    pub fn from_json(j: &Json) -> (r: Result<WebhookPage, DecodeError>)
        ensures
            r matches Ok(p) ==> decodes_page(*j, p),
            r is Err ==> forall|p: WebhookPage| !decodes_page(*j, p),
            r matches Err(e) ==> e.field@ == page_error(*j),
    {
        let id = text_member(j, "id")?;
        let status_indicator = StatusIndicator::from_member(j, "status_indicator")?;
        let status_description = text_member(j, "status_description")?;
        Ok(WebhookPage { id, status_indicator, status_description })
    }
}

/// The member named by a failed decoding of `j` as a component change: the first one,
/// in the order of the fields, that does not fit.
pub open spec fn component_update_error(j: Json) -> Seq<char> {
    if as_time(member(j, "created_at"@)) is None {
        "created_at"@
    } else if as_component_status(member(j, "new_status"@)) is None {
        "new_status"@
    } else if as_component_status(member(j, "old_status"@)) is None {
        "old_status"@
    } else if as_text(member(j, "id"@)) is None {
        "id"@
    } else if as_text(member(j, "component_id"@)) is None {
        "component_id"@
    } else {
        Seq::empty()
    }
}

impl WebhookComponentUpdate {
    /// Decodes a component-change object.
    pub fn from_json(j: &Json) -> (r: Result<WebhookComponentUpdate, DecodeError>)
        ensures
            r matches Ok(u) ==> decodes_component_update(*j, u),
            r is Err ==> forall|u: WebhookComponentUpdate| !decodes_component_update(*j, u),
            r matches Err(e) ==> e.field@ == component_update_error(*j),
    {
        let created_at = time_member(j, "created_at")?;
        let new_status = ComponentStatus::from_member(j, "new_status")?;
        let old_status = ComponentStatus::from_member(j, "old_status")?;
        let id = text_member(j, "id")?;
        let component_id = text_member(j, "component_id")?;
        Ok(WebhookComponentUpdate { created_at, new_status, old_status, id, component_id })
    }
}

/// The member named by a failed decoding of `j` as a webhook component: the first one,
/// in the order of the fields, that does not fit.
pub open spec fn webhook_component_error(j: Json) -> Seq<char> {
    if as_time(member(j, "created_at"@)) is None {
        "created_at"@
    } else if as_text(member(j, "id"@)) is None {
        "id"@
    } else if as_text(member(j, "name"@)) is None {
        "name"@
    } else if as_component_status(member(j, "status"@)) is None {
        "status"@
    } else {
        Seq::empty()
    }
}

impl WebhookComponent {
    /// Decodes a webhook-component object.
    pub fn from_json(j: &Json) -> (r: Result<WebhookComponent, DecodeError>)
        ensures
            r matches Ok(c) ==> decodes_webhook_component(*j, c),
            r is Err ==> forall|c: WebhookComponent| !decodes_webhook_component(*j, c),
            r matches Err(e) ==> e.field@ == webhook_component_error(*j),
    {
        let created_at = time_member(j, "created_at")?;
        let id = text_member(j, "id")?;
        let name = text_member(j, "name")?;
        let status = ComponentStatus::from_member(j, "status")?;
        Ok(WebhookComponent { created_at, id, name, status })
    }
}

impl WebhookPayload {
    /// Classifies a webhook document by its shape; never fails.
    pub fn from_json(j: &Json) -> (r: WebhookPayload)
        ensures
            decodes_payload(*j, r),
    {
        let update = match get_member(j, "component_update") {
            Some(uj) => WebhookComponentUpdate::from_json(uj),
            None => Err(DecodeError::at("component_update")),
        };
        let component = match get_member(j, "component") {
            Some(cj) => WebhookComponent::from_json(cj),
            None => Err(DecodeError::at("component")),
        };
        if let (Ok(component_update), Ok(component)) = (update, component) {
            return WebhookPayload::Component { component_update, component };
        }
        match get_member(j, "incident") {
            Some(ij) => match Incident::from_json(ij) {
                Ok(incident) => WebhookPayload::Incident { incident },
                Err(_) => WebhookPayload::Unknown,
            },
            None => WebhookPayload::Unknown,
        }
    }
}

/// The member named by a failed decoding of `j` as a webhook delivery: the first one,
/// in the order of the fields, that does not fit.
pub open spec fn webhook_error(j: Json) -> Seq<char> {
    if !(member(j, "meta"@) matches Some(o) && exists|x: WebhookMeta| decodes_meta(o, x)) {
        "meta"@
    } else if !(member(j, "page"@) matches Some(o) && exists|x: WebhookPage| decodes_page(o, x)) {
        "page"@
    } else {
        Seq::empty()
    }
}

impl StatusWebhook {
    /// Decodes a webhook document.
    pub fn from_json(j: &Json) -> (r: Result<StatusWebhook, DecodeError>)
        ensures
            r matches Ok(w) ==> decodes_webhook(*j, w),
            r is Err ==> forall|w: StatusWebhook| !decodes_webhook(*j, w),
            r matches Err(e) ==> e.field@ == webhook_error(*j),
    {
        let meta = match get_member(j, "meta") {
            Some(mj) => match WebhookMeta::from_json(mj) {
                Ok(v) => v,
                Err(_) => {
                    return Err(DecodeError::at("meta"));
                },
            },
            None => {
                return Err(DecodeError::at("meta"));
            },
        };
        let page = match get_member(j, "page") {
            Some(pj) => match WebhookPage::from_json(pj) {
                Ok(v) => v,
                Err(_) => {
                    return Err(DecodeError::at("page"));
                },
            },
            None => {
                return Err(DecodeError::at("page"));
            },
        };
        let payload = WebhookPayload::from_json(j);
        Ok(StatusWebhook { meta, page, payload })
    }

    /// Decodes a webhook delivery from its JSON text.
    pub fn parse(text: &str) -> (r: Result<StatusWebhook, Error>)
        ensures
            r matches Ok(w) ==> json_of_text(text@) matches Some(j) && decodes_webhook(j, w),
            r is Err ==> r matches Err(Error::Deserialize(_)),
            r is Err ==> json_of_text(text@) is None || forall|w: StatusWebhook|
                !decodes_webhook(json_of_text(text@)->Some_0, w),
            r matches Err(Error::Deserialize(e)) ==> e.field@ == (match json_of_text(text@) {
                Some(j) => webhook_error(j),
                None => Seq::empty(),
            }),
    {
        match parse_json(text) {
            Some(j) => match StatusWebhook::from_json(&j) {
                Ok(w) => Ok(w),
                Err(e) => Err(Error::Deserialize(e)),
            },
            None => Err(Error::Deserialize(DecodeError { field: String::new() })),
        }
    }
}

} // verus!
