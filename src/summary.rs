use vstd::prelude::*;

use crate::component::{decode_components, decodes_components, Component};
use crate::error::DecodeError;
use crate::incident::{decode_incidents, decodes_incidents, Incident};
use crate::json::{as_items, get_member, items_member, member, Json};
use crate::status::{decodes_status, Status};

verus! {

/// The whole page at once: its components, its open incidents and its status.
#[derive(Debug)]
pub struct Summary {
    pub components: Vec<Component>,
    pub incidents: Vec<Incident>,
    pub status: Status,
}

/// `s` is what the object `j` holds as a summary.
pub open spec fn decodes_summary(j: Json, s: Summary) -> bool {
    &&& as_items(member(j, "components"@), false, false) matches Some(cs)
    &&& decodes_components(cs, s.components@)
    &&& as_items(member(j, "incidents"@), false, false) matches Some(xs)
    &&& decodes_incidents(xs, s.incidents@)
    &&& member(j, "status"@) matches Some(sj)
    &&& decodes_status(sj, s.status)
}

/// The member named by a failed decoding of `j` as a summary: the first one,
/// in the order of the fields, that does not fit.
pub open spec fn summary_error(j: Json) -> Seq<char> {
    if !(as_items(member(j, "components"@), false, false) matches Some(es) && exists|xs: Seq<Component>| decodes_components(es, xs)) {
        "components"@
    } else if !(as_items(member(j, "incidents"@), false, false) matches Some(es) && exists|xs: Seq<Incident>| decodes_incidents(es, xs)) {
        "incidents"@
    } else if !(member(j, "status"@) matches Some(o) && exists|x: Status| decodes_status(o, x)) {
        "status"@
    } else {
        Seq::empty()
    }
}

impl Summary {
    /// Decodes a summary object.
    pub fn from_json(j: &Json) -> (r: Result<Summary, DecodeError>)
        ensures
            r matches Ok(s) ==> decodes_summary(*j, s),
            r is Err ==> forall|s: Summary| !decodes_summary(*j, s),
            r matches Err(e) ==> e.field@ == summary_error(*j),
    {
        let components = match items_member(j, "components", false, false)? {
            Some(es) => match decode_components(es) {
                Ok(v) => v,
                Err(_) => {
                    return Err(DecodeError::at("components"));
                },
            },
            None => {
                let v = Vec::new();
                proof {
                    assert(decodes_components(Seq::empty(), v@));
                }
                v
            },
        };
        proof {
            assert(decodes_components(as_items(member(*j, "components"@), false, false)->Some_0, components@));
        }
        let incidents = match items_member(j, "incidents", false, false)? {
            Some(es) => match decode_incidents(es) {
                Ok(v) => v,
                Err(_) => {
                    return Err(DecodeError::at("incidents"));
                },
            },
            None => {
                let v = Vec::new();
                proof {
                    assert(decodes_incidents(Seq::empty(), v@));
                }
                v
            },
        };
        proof {
            assert(decodes_incidents(as_items(member(*j, "incidents"@), false, false)->Some_0, incidents@));
        }
        let status = match get_member(j, "status") {
            Some(sj) => match Status::from_json(sj) {
                Ok(v) => v,
                Err(_) => {
                    return Err(DecodeError::at("status"));
                },
            },
            None => {
                return Err(DecodeError::at("status"));
            },
        };
        Ok(Summary { components, incidents, status })
    }
}

} // verus!
