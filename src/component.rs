use vstd::prelude::*;

use crate::error::DecodeError;
use crate::json::{
    as_flag, as_int32, as_items, as_opt_date, as_opt_flag, as_opt_text, as_text, as_time, flag_member,
    int32_member, items_member, member, opt_date_member, opt_flag_member, opt_text_member, same_text,
    text_member, text_view, time_member, Json,
};
use crate::time::{CalendarDate, Timestamp};

verus! {

/// The state of one component (wire tokens in snake_case).
#[derive(Clone, Copy, Debug, PartialEq, Eq, Structural)]
pub enum ComponentStatus {
    Operational,
    UnderMaintenance,
    DegradedPerformance,
    PartialOutage,
    MajorOutage,
}

/// The component status that a wire token names.
pub open spec fn component_status_of_token(t: Seq<char>) -> Option<ComponentStatus> {
    if t == "operational"@ {
        Some(ComponentStatus::Operational)
    } else if t == "under_maintenance"@ {
        Some(ComponentStatus::UnderMaintenance)
    } else if t == "degraded_performance"@ {
        Some(ComponentStatus::DegradedPerformance)
    } else if t == "partial_outage"@ {
        Some(ComponentStatus::PartialOutage)
    } else if t == "major_outage"@ {
        Some(ComponentStatus::MajorOutage)
    } else {
        None
    }
}

/// A required component status member.
pub open spec fn as_component_status(o: Option<Json>) -> Option<ComponentStatus> {
    match as_text(o) {
        Some(t) => component_status_of_token(t),
        None => None,
    }
}

impl ComponentStatus {
    /// The status of a wire token; `None` for a token outside the vocabulary.
    pub fn from_token(t: &String) -> (r: Option<ComponentStatus>)
        ensures
            r == component_status_of_token(t@),
    {
        if same_text(t, "operational") {
            Some(ComponentStatus::Operational)
        } else if same_text(t, "under_maintenance") {
            Some(ComponentStatus::UnderMaintenance)
        } else if same_text(t, "degraded_performance") {
            Some(ComponentStatus::DegradedPerformance)
        } else if same_text(t, "partial_outage") {
            Some(ComponentStatus::PartialOutage)
        } else if same_text(t, "major_outage") {
            Some(ComponentStatus::MajorOutage)
        } else {
            None
        }
    }

    /// The status held by the string member `key` of `j`.
    pub fn from_member(j: &Json, key: &str) -> (r: Result<ComponentStatus, DecodeError>)
        ensures
            r is Ok <==> as_component_status(member(*j, key@)) is Some,
            r matches Ok(s) ==> as_component_status(member(*j, key@)) == Some(s),
            r matches Err(e) ==> e.field@ == key@,
    {
        let t = text_member(j, key)?;
        match ComponentStatus::from_token(&t) {
            Some(s) => Ok(s),
            None => Err(DecodeError::at(key)),
        }
    }
}

/// The component status's wire vocabulary is exactly the five snake_case tokens.
pub proof fn component_status_vocabulary(t: Seq<char>)
    ensures
        component_status_of_token(t) is Some <==> (t == "operational"@ || t
            == "under_maintenance"@ || t == "degraded_performance"@ || t == "partial_outage"@ || t
            == "major_outage"@),
{
}

/// A component status member holding a token outside the vocabulary is refused.
pub proof fn component_status_refuses_unknown(o: Option<Json>, t: Seq<char>)
    requires
        as_text(o) == Some(t),
        !(t == "operational"@ || t == "under_maintenance"@ || t == "degraded_performance"@ || t
            == "partial_outage"@ || t == "major_outage"@),
    ensures
        as_component_status(o) is None,
{
}

/// A component of the page; a group when `group` is set, whose members are
/// listed by id in `components`.
#[derive(Debug)]
pub struct Component {
    pub id: String,
    pub name: String,
    pub status: ComponentStatus,
    pub created_at: Timestamp,
    pub updated_at: Timestamp,
    /// The place in the display order within its group.
    pub position: i32,
    pub description: Option<String>,
    pub showcase: bool,
    pub start_date: Option<CalendarDate>,
    pub group_id: Option<String>,
    pub page_id: String,
    pub group: Option<bool>,
    pub only_show_if_degraded: Option<bool>,
    /// The ids of the members of a group; empty where the member is absent.
    pub components: Vec<String>,
}

/// Each element of `es` is a string, and `ts` holds them in order.
pub open spec fn decodes_texts(es: Seq<Json>, ts: Seq<String>) -> bool {
    &&& es.len() == ts.len()
    &&& forall|i: int| 0 <= i < es.len() ==> as_text(Some(#[trigger] es[i])) == Some(ts[i]@)
}

/// `c` is what the object `j` holds as a component.
pub open spec fn decodes_component(j: Json, c: Component) -> bool {
    &&& as_text(member(j, "id"@)) == Some(c.id@)
    &&& as_text(member(j, "name"@)) == Some(c.name@)
    &&& as_component_status(member(j, "status"@)) == Some(c.status)
    &&& as_time(member(j, "created_at"@)) == Some(c.created_at)
    &&& as_time(member(j, "updated_at"@)) == Some(c.updated_at)
    &&& as_int32(member(j, "position"@)) == Some(c.position)
    &&& as_opt_text(member(j, "description"@)) == Some(text_view(c.description))
    &&& as_flag(member(j, "showcase"@)) == Some(c.showcase)
    &&& as_opt_date(member(j, "start_date"@)) == Some(c.start_date)
    &&& as_opt_text(member(j, "group_id"@)) == Some(text_view(c.group_id))
    &&& as_text(member(j, "page_id"@)) == Some(c.page_id@)
    &&& as_opt_flag(member(j, "group"@)) == Some(c.group)
    &&& as_opt_flag(member(j, "only_show_if_degraded"@)) == Some(c.only_show_if_degraded)
    &&& as_items(member(j, "components"@), true, false) matches Some(es)
    &&& decodes_texts(es, c.components@)
}

/// A component whose status is a token outside the vocabulary does not decode.
pub proof fn component_refuses_unknown_status(j: Json, t: Seq<char>)
    requires
        as_text(member(j, "status"@)) == Some(t),
        !(t == "operational"@ || t == "under_maintenance"@ || t == "degraded_performance"@ || t
            == "partial_outage"@ || t == "major_outage"@),
    ensures
        forall|c: Component| !decodes_component(j, c),
{
}

/// Each element of `es` is a component, and `cs` holds them in order.
pub open spec fn decodes_components(es: Seq<Json>, cs: Seq<Component>) -> bool {
    &&& es.len() == cs.len()
    &&& forall|i: int| 0 <= i < es.len() ==> decodes_component(#[trigger] es[i], cs[i])
}

/// Decodes a list of strings; `key` names the list in an error.
pub fn decode_texts(es: &Vec<Json>, key: &str) -> (r: Result<Vec<String>, DecodeError>)
    ensures
        r matches Ok(ts) ==> decodes_texts(es@, ts@),
        r is Err ==> forall|ts: Seq<String>| !decodes_texts(es@, ts),
        r matches Err(e) ==> e.field@ == key@,
{
    let mut out: Vec<String> = Vec::new();
    let mut i: usize = 0;
    while i < es.len()
        invariant
            i <= es@.len(),
            out@.len() == i,
            forall|k: int| 0 <= k < i ==> as_text(Some(#[trigger] es@[k])) == Some(out@[k]@),
        decreases es@.len() - i,
    {
        match &es[i] {
            Json::Str(s) => out.push(s.clone()),
            _ => {
                proof {
                    assert forall|ts: Seq<String>| !decodes_texts(es@, ts) by {
                        if decodes_texts(es@, ts) {
                            assert(as_text(Some(es@[i as int])) == Some(ts[i as int]@));
                        }
                    }
                }
                return Err(DecodeError::at(key));
            },
        }
        i = i + 1;
    }
    Ok(out)
}

/// The member named by a failed decoding of `j` as a component: the first one,
/// in the order of the fields, that does not fit.
pub open spec fn component_error(j: Json) -> Seq<char> {
    if as_text(member(j, "id"@)) is None {
        "id"@
    } else if as_text(member(j, "name"@)) is None {
        "name"@
    } else if as_component_status(member(j, "status"@)) is None {
        "status"@
    } else if as_time(member(j, "created_at"@)) is None {
        "created_at"@
    } else if as_time(member(j, "updated_at"@)) is None {
        "updated_at"@
    } else if as_int32(member(j, "position"@)) is None {
        "position"@
    } else if as_opt_text(member(j, "description"@)) is None {
        "description"@
    } else if as_flag(member(j, "showcase"@)) is None {
        "showcase"@
    } else if as_opt_date(member(j, "start_date"@)) is None {
        "start_date"@
    } else if as_opt_text(member(j, "group_id"@)) is None {
        "group_id"@
    } else if as_text(member(j, "page_id"@)) is None {
        "page_id"@
    } else if as_opt_flag(member(j, "group"@)) is None {
        "group"@
    } else if as_opt_flag(member(j, "only_show_if_degraded"@)) is None {
        "only_show_if_degraded"@
    } else if !(as_items(member(j, "components"@), true, false) matches Some(es) && exists|xs: Seq<String>| decodes_texts(es, xs)) {
        "components"@
    } else {
        Seq::empty()
    }
}

impl Component {
    /// Decodes a component object.
    pub fn from_json(j: &Json) -> (r: Result<Component, DecodeError>)
        ensures
            r matches Ok(c) ==> decodes_component(*j, c),
            r is Err ==> forall|c: Component| !decodes_component(*j, c),
            r matches Err(e) ==> e.field@ == component_error(*j),
    {
        let id = text_member(j, "id")?;
        let name = text_member(j, "name")?;
        let status = ComponentStatus::from_member(j, "status")?;
        let created_at = time_member(j, "created_at")?;
        let updated_at = time_member(j, "updated_at")?;
        let position = int32_member(j, "position")?;
        let description = opt_text_member(j, "description")?;
        let showcase = flag_member(j, "showcase")?;
        let start_date = opt_date_member(j, "start_date")?;
        let group_id = opt_text_member(j, "group_id")?;
        let page_id = text_member(j, "page_id")?;
        let group = opt_flag_member(j, "group")?;
        let only_show_if_degraded = opt_flag_member(j, "only_show_if_degraded")?;
        let components = match items_member(j, "components", true, false)? {
            Some(es) => decode_texts(es, "components")?,
            None => {
                let v = Vec::new();
                proof {
                    assert(decodes_texts(Seq::empty(), v@));
                }
                v
            },
        };
        Ok(
            Component {
                id,
                name,
                status,
                created_at,
                updated_at,
                position,
                description,
                showcase,
                start_date,
                group_id,
                page_id,
                group,
                only_show_if_degraded,
                components,
            },
        )
    }
}

/// Decodes a list of components.
pub fn decode_components(es: &Vec<Json>) -> (r: Result<Vec<Component>, DecodeError>)
    ensures
        r matches Ok(cs) ==> decodes_components(es@, cs@),
        r is Err ==> forall|cs: Seq<Component>| !decodes_components(es@, cs),
{
    let mut out: Vec<Component> = Vec::new();
    let mut i: usize = 0;
    while i < es.len()
        invariant
            i <= es@.len(),
            out@.len() == i,
            forall|k: int| 0 <= k < i ==> decodes_component(#[trigger] es@[k], out@[k]),
        decreases es@.len() - i,
    {
        match Component::from_json(&es[i]) {
            Ok(c) => out.push(c),
            Err(e) => {
                proof {
                    assert forall|cs: Seq<Component>| !decodes_components(es@, cs) by {
                        if decodes_components(es@, cs) {
                            assert(decodes_component(es@[i as int], cs[i as int]));
                        }
                    }
                }
                return Err(e);
            },
        }
        i = i + 1;
    }
    Ok(out)
}

} // verus!
