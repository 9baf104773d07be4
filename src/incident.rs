use vstd::prelude::*;

use crate::component::{
    as_component_status, decode_components, decodes_components, Component, ComponentStatus,
};
use crate::error::DecodeError;
use crate::json::{
    as_items, as_opt_flag, as_opt_text, as_opt_time, as_text, as_time, items_member, member,
    opt_flag_member, opt_text_member, opt_time_member, same_text, text_member, text_view,
    time_member, Json,
};
use crate::status::compare_ranks;
use crate::time::Timestamp;
use vstd::std_specs::cmp::PartialOrdSpec;

verus! {

/// The stage an incident is in (lowercase wire tokens).
#[derive(Clone, Copy, Debug, PartialEq, Eq, Structural)]
pub enum IncidentStatus {
    Investigating,
    Identified,
    Monitoring,
    Resolved,
    Postmortem,
}

/// The incident status that a wire token names.
pub open spec fn incident_status_of_token(t: Seq<char>) -> Option<IncidentStatus> {
    if t == "investigating"@ {
        Some(IncidentStatus::Investigating)
    } else if t == "identified"@ {
        Some(IncidentStatus::Identified)
    } else if t == "monitoring"@ {
        Some(IncidentStatus::Monitoring)
    } else if t == "resolved"@ {
        Some(IncidentStatus::Resolved)
    } else if t == "postmortem"@ {
        Some(IncidentStatus::Postmortem)
    } else {
        None
    }
}

/// A required incident status member.
pub open spec fn as_incident_status(o: Option<Json>) -> Option<IncidentStatus> {
    match as_text(o) {
        Some(t) => incident_status_of_token(t),
        None => None,
    }
}

impl IncidentStatus {
    /// The status of a wire token; `None` for a token outside the vocabulary.
    pub fn from_token(t: &String) -> (r: Option<IncidentStatus>)
        ensures
            r == incident_status_of_token(t@),
    {
        if same_text(t, "investigating") {
            Some(IncidentStatus::Investigating)
        } else if same_text(t, "identified") {
            Some(IncidentStatus::Identified)
        } else if same_text(t, "monitoring") {
            Some(IncidentStatus::Monitoring)
        } else if same_text(t, "resolved") {
            Some(IncidentStatus::Resolved)
        } else if same_text(t, "postmortem") {
            Some(IncidentStatus::Postmortem)
        } else {
            None
        }
    }

    /// The status held by the string member `key` of `j`.
    pub fn from_member(j: &Json, key: &str) -> (r: Result<IncidentStatus, DecodeError>)
        ensures
            r is Ok <==> as_incident_status(member(*j, key@)) is Some,
            r matches Ok(s) ==> as_incident_status(member(*j, key@)) == Some(s),
            r matches Err(e) ==> e.field@ == key@,
    {
        let t = text_member(j, key)?;
        match IncidentStatus::from_token(&t) {
            Some(s) => Ok(s),
            None => Err(DecodeError::at(key)),
        }
    }
}

/// The severity of an incident, from least to most severe.
#[derive(Clone, Copy, Debug, PartialEq, Eq, Structural, Ord)]
pub enum IncidentImpact {
    /// Wire token `none`: no impact.
    Clear,
    Maintenance,
    Minor,
    Major,
    Critical,
}

/// The impact that a wire token names.
pub open spec fn impact_of_token(t: Seq<char>) -> Option<IncidentImpact> {
    if t == "none"@ {
        Some(IncidentImpact::Clear)
    } else if t == "maintenance"@ {
        Some(IncidentImpact::Maintenance)
    } else if t == "minor"@ {
        Some(IncidentImpact::Minor)
    } else if t == "major"@ {
        Some(IncidentImpact::Major)
    } else if t == "critical"@ {
        Some(IncidentImpact::Critical)
    } else {
        None
    }
}

/// A required impact member.
pub open spec fn as_impact(o: Option<Json>) -> Option<IncidentImpact> {
    match as_text(o) {
        Some(t) => impact_of_token(t),
        None => None,
    }
}

impl IncidentImpact {
    /// The place of the impact in the order of severity.
    pub open spec fn rank(self) -> nat {
        match self {
            IncidentImpact::Clear => 0,
            IncidentImpact::Maintenance => 1,
            IncidentImpact::Minor => 2,
            IncidentImpact::Major => 3,
            IncidentImpact::Critical => 4,
        }
    }

    /// The place of the impact in the order of severity.
    pub fn severity(&self) -> (r: u8)
        ensures
            r == self.rank(),
    {
        match self {
            IncidentImpact::Clear => 0,
            IncidentImpact::Maintenance => 1,
            IncidentImpact::Minor => 2,
            IncidentImpact::Major => 3,
            IncidentImpact::Critical => 4,
        }
    }

    /// The impact of a wire token; `None` for a token outside the vocabulary.
    pub fn from_token(t: &String) -> (r: Option<IncidentImpact>)
        ensures
            r == impact_of_token(t@),
    {
        if same_text(t, "none") {
            Some(IncidentImpact::Clear)
        } else if same_text(t, "maintenance") {
            Some(IncidentImpact::Maintenance)
        } else if same_text(t, "minor") {
            Some(IncidentImpact::Minor)
        } else if same_text(t, "major") {
            Some(IncidentImpact::Major)
        } else if same_text(t, "critical") {
            Some(IncidentImpact::Critical)
        } else {
            None
        }
    }

    /// The impact held by the string member `key` of `j`.
    pub fn from_member(j: &Json, key: &str) -> (r: Result<IncidentImpact, DecodeError>)
        ensures
            r is Ok <==> as_impact(member(*j, key@)) is Some,
            r matches Ok(i) ==> as_impact(member(*j, key@)) == Some(i),
            r matches Err(e) ==> e.field@ == key@,
    {
        let t = text_member(j, key)?;
        match IncidentImpact::from_token(&t) {
            Some(i) => Ok(i),
            None => Err(DecodeError::at(key)),
        }
    }
}

impl PartialOrd for IncidentImpact {
    fn partial_cmp(&self, other: &IncidentImpact) -> (r: Option<core::cmp::Ordering>)
        ensures
            r == compare_ranks(self.rank(), other.rank()),
    {
        let a = self.severity();
        let b = other.severity();
        if a < b {
            Some(core::cmp::Ordering::Less)
        } else if a > b {
            Some(core::cmp::Ordering::Greater)
        } else {
            Some(core::cmp::Ordering::Equal)
        }
    }
}

impl vstd::std_specs::cmp::PartialOrdSpecImpl for IncidentImpact {
    open spec fn obeys_partial_cmp_spec() -> bool {
        true
    }

    open spec fn partial_cmp_spec(&self, other: &IncidentImpact) -> Option<core::cmp::Ordering> {
        compare_ranks(self.rank(), other.rank())
    }
}

/// The incident status's wire vocabulary is exactly the five lowercase tokens.
pub proof fn incident_status_vocabulary(t: Seq<char>)
    ensures
        incident_status_of_token(t) is Some <==> (t == "investigating"@ || t == "identified"@ || t
            == "monitoring"@ || t == "resolved"@ || t == "postmortem"@),
{
}

/// The impact's wire vocabulary is exactly the five lowercase tokens.
pub proof fn impact_vocabulary(t: Seq<char>)
    ensures
        impact_of_token(t) is Some <==> (t == "none"@ || t == "maintenance"@ || t == "minor"@ || t
            == "major"@ || t == "critical"@),
{
}

/// Impacts compare by severity, `none < maintenance < minor < major <
/// critical`, for every pair.
pub proof fn impact_order_is_severity(a: IncidentImpact, b: IncidentImpact)
    ensures
        a.partial_cmp_spec(&b) == Some(core::cmp::Ordering::Less) <==> a.rank() < b.rank(),
        a.partial_cmp_spec(&b) == Some(core::cmp::Ordering::Greater) <==> a.rank() > b.rank(),
        a.partial_cmp_spec(&b) == Some(core::cmp::Ordering::Equal) <==> a == b,
        IncidentImpact::Clear.rank() < IncidentImpact::Maintenance.rank(),
        IncidentImpact::Maintenance.rank() < IncidentImpact::Minor.rank(),
        IncidentImpact::Minor.rank() < IncidentImpact::Major.rank(),
        IncidentImpact::Major.rank() < IncidentImpact::Critical.rank(),
{
}

/// How a component changed with an incident update.
#[derive(Debug)]
pub struct AffectedComponent {
    pub code: String,
    pub name: String,
    pub old_status: ComponentStatus,
    pub new_status: ComponentStatus,
}

/// `a` is what the object `j` holds as an affected component.
pub open spec fn decodes_affected(j: Json, a: AffectedComponent) -> bool {
    &&& as_text(member(j, "code"@)) == Some(a.code@)
    &&& as_text(member(j, "name"@)) == Some(a.name@)
    &&& as_component_status(member(j, "old_status"@)) == Some(a.old_status)
    &&& as_component_status(member(j, "new_status"@)) == Some(a.new_status)
}

/// Each element of `es` is an affected component, and `xs` holds them in order.
pub open spec fn decodes_affected_list(es: Seq<Json>, xs: Seq<AffectedComponent>) -> bool {
    &&& es.len() == xs.len()
    &&& forall|i: int| 0 <= i < es.len() ==> decodes_affected(#[trigger] es[i], xs[i])
}

/// The member named by a failed decoding of `j` as an affected component: the first one,
/// in the order of the fields, that does not fit.
pub open spec fn affected_error(j: Json) -> Seq<char> {
    if as_text(member(j, "code"@)) is None {
        "code"@
    } else if as_text(member(j, "name"@)) is None {
        "name"@
    } else if as_component_status(member(j, "old_status"@)) is None {
        "old_status"@
    } else if as_component_status(member(j, "new_status"@)) is None {
        "new_status"@
    } else {
        Seq::empty()
    }
}

impl AffectedComponent {
    /// Decodes an affected-component object.
    pub fn from_json(j: &Json) -> (r: Result<AffectedComponent, DecodeError>)
        ensures
            r matches Ok(a) ==> decodes_affected(*j, a),
            r is Err ==> forall|a: AffectedComponent| !decodes_affected(*j, a),
            r matches Err(e) ==> e.field@ == affected_error(*j),
    {
        let code = text_member(j, "code")?;
        let name = text_member(j, "name")?;
        let old_status = ComponentStatus::from_member(j, "old_status")?;
        let new_status = ComponentStatus::from_member(j, "new_status")?;
        Ok(AffectedComponent { code, name, old_status, new_status })
    }
}

/// Decodes a list of affected components.
pub fn decode_affected_list(es: &Vec<Json>) -> (r: Result<Vec<AffectedComponent>, DecodeError>)
    ensures
        r matches Ok(xs) ==> decodes_affected_list(es@, xs@),
        r is Err ==> forall|xs: Seq<AffectedComponent>| !decodes_affected_list(es@, xs),
{
    let mut out: Vec<AffectedComponent> = Vec::new();
    let mut i: usize = 0;
    while i < es.len()
        invariant
            i <= es@.len(),
            out@.len() == i,
            forall|k: int| 0 <= k < i ==> decodes_affected(#[trigger] es@[k], out@[k]),
        decreases es@.len() - i,
    {
        match AffectedComponent::from_json(&es[i]) {
            Ok(a) => out.push(a),
            Err(e) => {
                proof {
                    assert forall|xs: Seq<AffectedComponent>| !decodes_affected_list(es@, xs) by {
                        if decodes_affected_list(es@, xs) {
                            assert(decodes_affected(es@[i as int], xs[i as int]));
                        }
                    }
                }
                return Err(e);
            },
        }
        i = i + 1;
    }
    Ok(out)
}

/// One message posted on an incident.
#[derive(Debug)]
pub struct IncidentUpdate {
    pub id: String,
    pub status: IncidentStatus,
    pub body: String,
    pub created_at: Timestamp,
    pub updated_at: Timestamp,
    pub display_at: Timestamp,
    pub deliver_notifications: Option<bool>,
    /// Empty where the member is absent or null.
    pub affected_components: Vec<AffectedComponent>,
}

/// `u` is what the object `j` holds as an incident update.
pub open spec fn decodes_update(j: Json, u: IncidentUpdate) -> bool {
    &&& as_text(member(j, "id"@)) == Some(u.id@)
    &&& as_incident_status(member(j, "status"@)) == Some(u.status)
    &&& as_text(member(j, "body"@)) == Some(u.body@)
    &&& as_time(member(j, "created_at"@)) == Some(u.created_at)
    &&& as_time(member(j, "updated_at"@)) == Some(u.updated_at)
    &&& as_time(member(j, "display_at"@)) == Some(u.display_at)
    &&& as_opt_flag(member(j, "deliver_notifications"@)) == Some(u.deliver_notifications)
    &&& as_items(member(j, "affected_components"@), true, true) matches Some(es)
    &&& decodes_affected_list(es, u.affected_components@)
}

/// An update whose `affected_components` is null decodes exactly as the same
/// update without that member, and either way the list is empty.
pub proof fn null_affected_components_read_as_absent(j_null: Json, j_absent: Json, u: IncidentUpdate)
    requires
        member(j_null, "affected_components"@) == Some(Json::Null),
        member(j_absent, "affected_components"@) is None,
        forall|k: Seq<char>|
            k != "affected_components"@ ==> #[trigger] member(j_null, k) == member(j_absent, k),
    ensures
        decodes_update(j_null, u) <==> decodes_update(j_absent, u),
        decodes_update(j_null, u) ==> u.affected_components@.len() == 0,
{
    reveal_strlit("affected_components");
    reveal_strlit("id");
    reveal_strlit("status");
    reveal_strlit("body");
    reveal_strlit("created_at");
    reveal_strlit("updated_at");
    reveal_strlit("display_at");
    reveal_strlit("deliver_notifications");
    assert("id"@.len() != "affected_components"@.len());
    assert("status"@.len() != "affected_components"@.len());
    assert("body"@.len() != "affected_components"@.len());
    assert("created_at"@.len() != "affected_components"@.len());
    assert("updated_at"@.len() != "affected_components"@.len());
    assert("display_at"@.len() != "affected_components"@.len());
    assert("deliver_notifications"@.len() != "affected_components"@.len());
    assert(member(j_null, "id"@) == member(j_absent, "id"@));
    assert(member(j_null, "status"@) == member(j_absent, "status"@));
    assert(member(j_null, "body"@) == member(j_absent, "body"@));
    assert(member(j_null, "created_at"@) == member(j_absent, "created_at"@));
    assert(member(j_null, "updated_at"@) == member(j_absent, "updated_at"@));
    assert(member(j_null, "display_at"@) == member(j_absent, "display_at"@));
    assert(member(j_null, "deliver_notifications"@) == member(j_absent, "deliver_notifications"@));
}

/// An incident whose status or impact is a token outside its vocabulary does
/// not decode.
pub proof fn incident_refuses_unknown_tokens(j: Json, status: Seq<char>, impact: Seq<char>)
    requires
        as_text(member(j, "status"@)) == Some(status),
        as_text(member(j, "impact"@)) == Some(impact),
        !(status == "investigating"@ || status == "identified"@ || status == "monitoring"@
            || status == "resolved"@ || status == "postmortem"@) || !(impact == "none"@ || impact
            == "maintenance"@ || impact == "minor"@ || impact == "major"@ || impact
            == "critical"@),
    ensures
        forall|x: Incident| !decodes_incident(j, x),
{
}

/// Each element of `es` is an incident update, and `us` holds them in order.
pub open spec fn decodes_updates(es: Seq<Json>, us: Seq<IncidentUpdate>) -> bool {
    &&& es.len() == us.len()
    &&& forall|i: int| 0 <= i < es.len() ==> decodes_update(#[trigger] es[i], us[i])
}

/// The member named by a failed decoding of `j` as an incident update: the first one,
/// in the order of the fields, that does not fit.
pub open spec fn update_error(j: Json) -> Seq<char> {
    if as_text(member(j, "id"@)) is None {
        "id"@
    } else if as_incident_status(member(j, "status"@)) is None {
        "status"@
    } else if as_text(member(j, "body"@)) is None {
        "body"@
    } else if as_time(member(j, "created_at"@)) is None {
        "created_at"@
    } else if as_time(member(j, "updated_at"@)) is None {
        "updated_at"@
    } else if as_time(member(j, "display_at"@)) is None {
        "display_at"@
    } else if as_opt_flag(member(j, "deliver_notifications"@)) is None {
        "deliver_notifications"@
    } else if !(as_items(member(j, "affected_components"@), true, true) matches Some(es) && exists|xs: Seq<AffectedComponent>| decodes_affected_list(es, xs)) {
        "affected_components"@
    } else {
        Seq::empty()
    }
}

impl IncidentUpdate {
    /// Decodes an incident-update object; a null `affected_components` is
    /// read as an empty list, as an absent one is.
    pub fn from_json(j: &Json) -> (r: Result<IncidentUpdate, DecodeError>)
        ensures
            r matches Ok(u) ==> decodes_update(*j, u),
            r is Err ==> forall|u: IncidentUpdate| !decodes_update(*j, u),
            r matches Err(e) ==> e.field@ == update_error(*j),
    {
        let id = text_member(j, "id")?;
        let status = IncidentStatus::from_member(j, "status")?;
        let body = text_member(j, "body")?;
        let created_at = time_member(j, "created_at")?;
        let updated_at = time_member(j, "updated_at")?;
        let display_at = time_member(j, "display_at")?;
        let deliver_notifications = opt_flag_member(j, "deliver_notifications")?;
        let affected_components = match items_member(j, "affected_components", true, true)? {
            Some(es) => match decode_affected_list(es) {
                Ok(v) => v,
                Err(_) => {
                    return Err(DecodeError::at("affected_components"));
                },
            },
            None => {
                let v = Vec::new();
                proof {
                    assert(decodes_affected_list(Seq::empty(), v@));
                }
                v
            },
        };
        Ok(
            IncidentUpdate {
                id,
                status,
                body,
                created_at,
                updated_at,
                display_at,
                deliver_notifications,
                affected_components,
            },
        )
    }
}

/// Decodes a list of incident updates.
pub fn decode_updates(es: &Vec<Json>) -> (r: Result<Vec<IncidentUpdate>, DecodeError>)
    ensures
        r matches Ok(us) ==> decodes_updates(es@, us@),
        r is Err ==> forall|us: Seq<IncidentUpdate>| !decodes_updates(es@, us),
{
    let mut out: Vec<IncidentUpdate> = Vec::new();
    let mut i: usize = 0;
    while i < es.len()
        invariant
            i <= es@.len(),
            out@.len() == i,
            forall|k: int| 0 <= k < i ==> decodes_update(#[trigger] es@[k], out@[k]),
        decreases es@.len() - i,
    {
        match IncidentUpdate::from_json(&es[i]) {
            Ok(u) => out.push(u),
            Err(e) => {
                proof {
                    assert forall|us: Seq<IncidentUpdate>| !decodes_updates(es@, us) by {
                        if decodes_updates(es@, us) {
                            assert(decodes_update(es@[i as int], us[i as int]));
                        }
                    }
                }
                return Err(e);
            },
        }
        i = i + 1;
    }
    Ok(out)
}

/// An incident with its updates and the components it touches.
#[derive(Debug)]
pub struct Incident {
    pub id: String,
    pub name: String,
    pub status: IncidentStatus,
    pub created_at: Timestamp,
    pub updated_at: Option<Timestamp>,
    pub monitoring_at: Option<Timestamp>,
    pub resolved_at: Option<Timestamp>,
    pub impact: IncidentImpact,
    pub shortlink: String,
    pub started_at: Option<Timestamp>,
    pub page_id: Option<String>,
    /// Empty where the member is absent.
    pub incident_updates: Vec<IncidentUpdate>,
    /// Empty where the member is absent.
    pub components: Vec<Component>,
}

/// `x` is what the object `j` holds as an incident.
pub open spec fn decodes_incident(j: Json, x: Incident) -> bool {
    &&& as_text(member(j, "id"@)) == Some(x.id@)
    &&& as_text(member(j, "name"@)) == Some(x.name@)
    &&& as_incident_status(member(j, "status"@)) == Some(x.status)
    &&& as_time(member(j, "created_at"@)) == Some(x.created_at)
    &&& as_opt_time(member(j, "updated_at"@)) == Some(x.updated_at)
    &&& as_opt_time(member(j, "monitoring_at"@)) == Some(x.monitoring_at)
    &&& as_opt_time(member(j, "resolved_at"@)) == Some(x.resolved_at)
    &&& as_impact(member(j, "impact"@)) == Some(x.impact)
    &&& as_text(member(j, "shortlink"@)) == Some(x.shortlink@)
    &&& as_opt_time(member(j, "started_at"@)) == Some(x.started_at)
    &&& as_opt_text(member(j, "page_id"@)) == Some(text_view(x.page_id))
    &&& as_items(member(j, "incident_updates"@), true, false) matches Some(us)
    &&& decodes_updates(us, x.incident_updates@)
    &&& as_items(member(j, "components"@), true, false) matches Some(cs)
    &&& decodes_components(cs, x.components@)
}

/// Each element of `es` is an incident, and `xs` holds them in order.
pub open spec fn decodes_incidents(es: Seq<Json>, xs: Seq<Incident>) -> bool {
    &&& es.len() == xs.len()
    &&& forall|i: int| 0 <= i < es.len() ==> decodes_incident(#[trigger] es[i], xs[i])
}

/// The member named by a failed decoding of `j` as an incident: the first one,
/// in the order of the fields, that does not fit.
pub open spec fn incident_error(j: Json) -> Seq<char> {
    if as_text(member(j, "id"@)) is None {
        "id"@
    } else if as_text(member(j, "name"@)) is None {
        "name"@
    } else if as_incident_status(member(j, "status"@)) is None {
        "status"@
    } else if as_time(member(j, "created_at"@)) is None {
        "created_at"@
    } else if as_opt_time(member(j, "updated_at"@)) is None {
        "updated_at"@
    } else if as_opt_time(member(j, "monitoring_at"@)) is None {
        "monitoring_at"@
    } else if as_opt_time(member(j, "resolved_at"@)) is None {
        "resolved_at"@
    } else if as_impact(member(j, "impact"@)) is None {
        "impact"@
    } else if as_text(member(j, "shortlink"@)) is None {
        "shortlink"@
    } else if as_opt_time(member(j, "started_at"@)) is None {
        "started_at"@
    } else if as_opt_text(member(j, "page_id"@)) is None {
        "page_id"@
    } else if !(as_items(member(j, "incident_updates"@), true, false) matches Some(es) && exists|xs: Seq<IncidentUpdate>| decodes_updates(es, xs)) {
        "incident_updates"@
    } else if !(as_items(member(j, "components"@), true, false) matches Some(es) && exists|xs: Seq<Component>| decodes_components(es, xs)) {
        "components"@
    } else {
        Seq::empty()
    }
}

impl Incident {
    /// Decodes an incident object.
    pub fn from_json(j: &Json) -> (r: Result<Incident, DecodeError>)
        ensures
            r matches Ok(x) ==> decodes_incident(*j, x),
            r is Err ==> forall|x: Incident| !decodes_incident(*j, x),
            r matches Err(e) ==> e.field@ == incident_error(*j),
    {
        let id = text_member(j, "id")?;
        let name = text_member(j, "name")?;
        let status = IncidentStatus::from_member(j, "status")?;
        let created_at = time_member(j, "created_at")?;
        let updated_at = opt_time_member(j, "updated_at")?;
        let monitoring_at = opt_time_member(j, "monitoring_at")?;
        let resolved_at = opt_time_member(j, "resolved_at")?;
        let impact = IncidentImpact::from_member(j, "impact")?;
        let shortlink = text_member(j, "shortlink")?;
        let started_at = opt_time_member(j, "started_at")?;
        let page_id = opt_text_member(j, "page_id")?;
        let incident_updates = match items_member(j, "incident_updates", true, false)? {
            Some(es) => match decode_updates(es) {
                Ok(v) => v,
                Err(_) => {
                    return Err(DecodeError::at("incident_updates"));
                },
            },
            None => {
                let v = Vec::new();
                proof {
                    assert(decodes_updates(Seq::empty(), v@));
                }
                v
            },
        };
        proof {
            assert(decodes_updates(as_items(member(*j, "incident_updates"@), true, false)->Some_0, incident_updates@));
        }
        let components = match items_member(j, "components", true, false)? {
            Some(es) => match decode_components(es) {
                Ok(v) => v,
                Err(_) => {
                    return Err(DecodeError::at("components"));
                },
            },
            None => {
                let v = Vec::new();
                proof {
                    assert(decodes_components(Seq::empty(), v@));
                }
                v
            },
        };
        Ok(
            Incident {
                id,
                name,
                status,
                created_at,
                updated_at,
                monitoring_at,
                resolved_at,
                impact,
                shortlink,
                started_at,
                page_id,
                incident_updates,
                components,
            },
        )
    }
}

/// Decodes a list of incidents.
pub fn decode_incidents(es: &Vec<Json>) -> (r: Result<Vec<Incident>, DecodeError>)
    ensures
        r matches Ok(xs) ==> decodes_incidents(es@, xs@),
        r is Err ==> forall|xs: Seq<Incident>| !decodes_incidents(es@, xs),
{
    let mut out: Vec<Incident> = Vec::new();
    let mut i: usize = 0;
    while i < es.len()
        invariant
            i <= es@.len(),
            out@.len() == i,
            forall|k: int| 0 <= k < i ==> decodes_incident(#[trigger] es@[k], out@[k]),
        decreases es@.len() - i,
    {
        match Incident::from_json(&es[i]) {
            Ok(x) => out.push(x),
            Err(e) => {
                proof {
                    assert forall|xs: Seq<Incident>| !decodes_incidents(es@, xs) by {
                        if decodes_incidents(es@, xs) {
                            assert(decodes_incident(es@[i as int], xs[i as int]));
                        }
                    }
                }
                return Err(e);
            },
        }
        i = i + 1;
    }
    Ok(out)
}

} // verus!
