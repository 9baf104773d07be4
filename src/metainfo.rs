use vstd::prelude::*;

use crate::error::DecodeError;
use crate::json::{as_text, as_time, member, text_member, time_member, Json};
use crate::time::Timestamp;

verus! {

/// The page description that wraps every list and detail response.
#[derive(Debug)]
pub struct Metainfo {
    pub id: String,
    pub name: String,
    pub url: String,
    pub time_zone: String,
    pub updated_at: Timestamp,
}

/// `m` is what the object `j` holds as a page description.
pub open spec fn decodes_metainfo(j: Json, m: Metainfo) -> bool {
    &&& as_text(member(j, "id"@)) == Some(m.id@)
    &&& as_text(member(j, "name"@)) == Some(m.name@)
    &&& as_text(member(j, "url"@)) == Some(m.url@)
    &&& as_text(member(j, "time_zone"@)) == Some(m.time_zone@)
    &&& as_time(member(j, "updated_at"@)) == Some(m.updated_at)
}

/// The member named by a failed decoding of `j` as a page description: the first one,
/// in the order of the fields, that does not fit.
pub open spec fn metainfo_error(j: Json) -> Seq<char> {
    if as_text(member(j, "id"@)) is None {
        "id"@
    } else if as_text(member(j, "name"@)) is None {
        "name"@
    } else if as_text(member(j, "url"@)) is None {
        "url"@
    } else if as_text(member(j, "time_zone"@)) is None {
        "time_zone"@
    } else if as_time(member(j, "updated_at"@)) is None {
        "updated_at"@
    } else {
        Seq::empty()
    }
}

impl Metainfo {
    /// Decodes a page-description object.
    pub fn from_json(j: &Json) -> (r: Result<Metainfo, DecodeError>)
        ensures
            r matches Ok(m) ==> decodes_metainfo(*j, m),
            r is Err ==> forall|m: Metainfo| !decodes_metainfo(*j, m),
            r matches Err(e) ==> e.field@ == metainfo_error(*j),
    {
        let id = text_member(j, "id")?;
        let name = text_member(j, "name")?;
        let url = text_member(j, "url")?;
        let time_zone = text_member(j, "time_zone")?;
        let updated_at = time_member(j, "updated_at")?;
        Ok(Metainfo { id, name, url, time_zone, updated_at })
    }
}

} // verus!
