use vstd::prelude::*;

use crate::error::DecodeError;
use crate::json::{as_text, member, same_text, text_member, Json};

verus! {

/// The page-wide health, from best to worst.
#[derive(Clone, Copy, Debug, PartialEq, Eq, Structural, Ord, Hash)]
pub enum StatusIndicator {
    /// Wire token `none`: nothing is wrong.
    Clear,
    Maintenance,
    Minor,
    Major,
    Critical,
}

/// The indicator that a wire token names (lowercase).
pub open spec fn indicator_of_token(t: Seq<char>) -> Option<StatusIndicator> {
    if t == "none"@ {
        Some(StatusIndicator::Clear)
    } else if t == "maintenance"@ {
        Some(StatusIndicator::Maintenance)
    } else if t == "minor"@ {
        Some(StatusIndicator::Minor)
    } else if t == "major"@ {
        Some(StatusIndicator::Major)
    } else if t == "critical"@ {
        Some(StatusIndicator::Critical)
    } else {
        None
    }
}

/// A required indicator member.
pub open spec fn as_indicator(o: Option<Json>) -> Option<StatusIndicator> {
    match as_text(o) {
        Some(t) => indicator_of_token(t),
        None => None,
    }
}

impl StatusIndicator {
    /// The place of the indicator in the order of severity.
    pub open spec fn rank(self) -> nat {
        match self {
            StatusIndicator::Clear => 0,
            StatusIndicator::Maintenance => 1,
            StatusIndicator::Minor => 2,
            StatusIndicator::Major => 3,
            StatusIndicator::Critical => 4,
        }
    }

    /// The place of the indicator in the order of severity.
    pub fn severity(&self) -> (r: u8)
        ensures
            r == self.rank(),
    {
        match self {
            StatusIndicator::Clear => 0,
            StatusIndicator::Maintenance => 1,
            StatusIndicator::Minor => 2,
            StatusIndicator::Major => 3,
            StatusIndicator::Critical => 4,
        }
    }

    /// The indicator of a wire token; `None` for a token outside the vocabulary.
    pub fn from_token(t: &String) -> (r: Option<StatusIndicator>)
        ensures
            r == indicator_of_token(t@),
    {
        if same_text(t, "none") {
            Some(StatusIndicator::Clear)
        } else if same_text(t, "maintenance") {
            Some(StatusIndicator::Maintenance)
        } else if same_text(t, "minor") {
            Some(StatusIndicator::Minor)
        } else if same_text(t, "major") {
            Some(StatusIndicator::Major)
        } else if same_text(t, "critical") {
            Some(StatusIndicator::Critical)
        } else {
            None
        }
    }

    /// The indicator held by the string member `key` of `j`.
    pub fn from_member(j: &Json, key: &str) -> (r: Result<StatusIndicator, DecodeError>)
        ensures
            r is Ok <==> as_indicator(member(*j, key@)) is Some,
            r matches Ok(i) ==> as_indicator(member(*j, key@)) == Some(i),
            r matches Err(e) ==> e.field@ == key@,
    {
        let t = text_member(j, key)?;
        match StatusIndicator::from_token(&t) {
            Some(i) => Ok(i),
            None => Err(DecodeError::at(key)),
        }
    }
}

/// Orders by severity.
pub open spec fn compare_ranks(a: nat, b: nat) -> Option<core::cmp::Ordering> {
    if a < b {
        Some(core::cmp::Ordering::Less)
    } else if a > b {
        Some(core::cmp::Ordering::Greater)
    } else {
        Some(core::cmp::Ordering::Equal)
    }
}

impl PartialOrd for StatusIndicator {
    fn partial_cmp(&self, other: &StatusIndicator) -> (r: Option<core::cmp::Ordering>)
        ensures
            r == compare_ranks(self.rank(), other.rank()),
    {
        let a = self.severity();
        let b = other.severity();
        if a < b {
            Some(core::cmp::Ordering::Less)
        } else if a > b {
            Some(core::cmp::Ordering::Greater)
        } else {
            Some(core::cmp::Ordering::Equal)
        }
    }
}

impl vstd::std_specs::cmp::PartialOrdSpecImpl for StatusIndicator {
    open spec fn obeys_partial_cmp_spec() -> bool {
        true
    }

    open spec fn partial_cmp_spec(&self, other: &StatusIndicator) -> Option<core::cmp::Ordering> {
        compare_ranks(self.rank(), other.rank())
    }
}

/// The page's overall state.
#[derive(Debug)]
pub struct Status {
    pub indicator: StatusIndicator,
    pub description: String,
}

/// `s` is what the object `j` holds as a status.
pub open spec fn decodes_status(j: Json, s: Status) -> bool {
    &&& as_indicator(member(j, "indicator"@)) == Some(s.indicator)
    &&& as_text(member(j, "description"@)) == Some(s.description@)
}

/// The indicator's wire vocabulary is exactly the five lowercase tokens.
pub proof fn indicator_vocabulary(t: Seq<char>)
    ensures
        indicator_of_token(t) is Some <==> (t == "none"@ || t == "maintenance"@ || t == "minor"@
            || t == "major"@ || t == "critical"@),
{
}

/// A status whose indicator is a token outside the vocabulary does not decode.
pub proof fn status_refuses_unknown_indicator(j: Json, t: Seq<char>)
    requires
        as_text(member(j, "indicator"@)) == Some(t),
        !(t == "none"@ || t == "maintenance"@ || t == "minor"@ || t == "major"@ || t
            == "critical"@),
    ensures
        forall|s: Status| !decodes_status(j, s),
{
}

/// The member named by a failed decoding of `j` as a status: the first one,
/// in the order of the fields, that does not fit.
pub open spec fn status_error(j: Json) -> Seq<char> {
    if as_indicator(member(j, "indicator"@)) is None {
        "indicator"@
    } else if as_text(member(j, "description"@)) is None {
        "description"@
    } else {
        Seq::empty()
    }
}

impl Status {
    /// Decodes a status object.
    pub fn from_json(j: &Json) -> (r: Result<Status, DecodeError>)
        ensures
            r matches Ok(s) ==> decodes_status(*j, s),
            r is Err ==> forall|s: Status| !decodes_status(*j, s),
            r matches Err(e) ==> e.field@ == status_error(*j),
    {
        let indicator = StatusIndicator::from_member(j, "indicator")?;
        let description = text_member(j, "description")?;
        Ok(Status { indicator, description })
    }
}

} // verus!
