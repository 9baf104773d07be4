use vstd::prelude::*;
use vstd::string::StringExecFns;

use crate::component::{
    component_status_of_token, decode_components, decodes_component, decodes_components, Component,
};
use crate::error::{DecodeError, Error};
use crate::incident::{
    decode_incidents, decodes_incident, decodes_incidents, impact_of_token, incident_status_of_token,
    Incident,
};
use crate::json::{as_items, as_text, get_member, items_member, json_of_text, member, parse_json, Json};
use crate::metainfo::{decodes_metainfo, Metainfo};
use crate::status::{decodes_status, indicator_of_token, Status};
use crate::summary::{decodes_summary, summary_error, Summary};

verus! {

#[verifier::external_type_specification]
#[verifier::external_body]
pub struct ExBlockingClient(reqwest::blocking::Client);

/// The path every endpoint of the API sits under.
pub open spec fn api_prefix() -> Seq<char> {
    "/api/v2"@
}

/// Whether an HTTP status code counts as success (2xx).
pub open spec fn is_success(code: u16) -> bool {
    200 <= code <= 299
}

/// The path of one incident; the id stands in it as given.
pub open spec fn incident_path(id: Seq<char>) -> Seq<char> {
    "/incidents/"@ + id + ".json"@
}

/// `j` is a status response wrapping `s`; its page description decodes.
pub open spec fn decodes_status_response(j: Json, s: Status) -> bool {
    &&& member(j, "page"@) matches Some(pj)
    &&& exists|m: Metainfo| decodes_metainfo(pj, m)
    &&& member(j, "status"@) matches Some(sj)
    &&& decodes_status(sj, s)
}

/// `j` is a components response wrapping `cs`.
pub open spec fn decodes_components_response(j: Json, cs: Seq<Component>) -> bool {
    &&& member(j, "page"@) matches Some(pj)
    &&& exists|m: Metainfo| decodes_metainfo(pj, m)
    &&& as_items(member(j, "components"@), false, false) matches Some(es)
    &&& decodes_components(es, cs)
}

/// `j` is an incidents response wrapping `xs`.
pub open spec fn decodes_incidents_response(j: Json, xs: Seq<Incident>) -> bool {
    &&& member(j, "page"@) matches Some(pj)
    &&& exists|m: Metainfo| decodes_metainfo(pj, m)
    &&& as_items(member(j, "incidents"@), false, false) matches Some(es)
    &&& decodes_incidents(es, xs)
}

/// `j` is an incident response wrapping `x`.
pub open spec fn decodes_incident_response(j: Json, x: Incident) -> bool {
    &&& member(j, "page"@) matches Some(pj)
    &&& exists|m: Metainfo| decodes_metainfo(pj, m)
    &&& member(j, "incident"@) matches Some(ij)
    &&& decodes_incident(ij, x)
}

/// The member named by a failed decoding of `j` as a status response: the first one,
/// in the order of the fields, that does not fit.
pub open spec fn status_response_error(j: Json) -> Seq<char> {
    if !(member(j, "page"@) matches Some(o) && exists|x: Metainfo| decodes_metainfo(o, x)) {
        "page"@
    } else if !(member(j, "status"@) matches Some(o) && exists|x: Status| decodes_status(o, x)) {
        "status"@
    } else {
        Seq::empty()
    }
}

/// The member named by a failed decoding of `j` as a components response: the first one,
/// in the order of the fields, that does not fit.
pub open spec fn components_response_error(j: Json) -> Seq<char> {
    if !(member(j, "page"@) matches Some(o) && exists|x: Metainfo| decodes_metainfo(o, x)) {
        "page"@
    } else if !(as_items(member(j, "components"@), false, false) matches Some(es) && exists|xs: Seq<Component>| decodes_components(es, xs)) {
        "components"@
    } else {
        Seq::empty()
    }
}

/// The member named by a failed decoding of `j` as an incidents response: the first one,
/// in the order of the fields, that does not fit.
pub open spec fn incidents_response_error(j: Json) -> Seq<char> {
    if !(member(j, "page"@) matches Some(o) && exists|x: Metainfo| decodes_metainfo(o, x)) {
        "page"@
    } else if !(as_items(member(j, "incidents"@), false, false) matches Some(es) && exists|xs: Seq<Incident>| decodes_incidents(es, xs)) {
        "incidents"@
    } else {
        Seq::empty()
    }
}

/// The member named by a failed decoding of `j` as an incident response: the first one,
/// in the order of the fields, that does not fit.
pub open spec fn incident_response_error(j: Json) -> Seq<char> {
    if !(member(j, "page"@) matches Some(o) && exists|x: Metainfo| decodes_metainfo(o, x)) {
        "page"@
    } else if !(member(j, "incident"@) matches Some(o) && exists|x: Incident| decodes_incident(o, x)) {
        "incident"@
    } else {
        Seq::empty()
    }
}

/// The member a failed body names: the failing member of the tree, or the
/// empty name where the body is no JSON.
pub open spec fn body_error(body: Seq<char>, tree_error: spec_fn(Json) -> Seq<char>) -> Seq<char> {
    match json_of_text(body) {
        Some(j) => tree_error(j),
        None => Seq::empty(),
    }
}

/// A status response carries the status its `status` member holds, whatever
/// its page description says: the indicator the token names and the
/// description as written; and some status decodes from it.
pub proof fn status_response_reads_status(j: Json, t: Seq<char>, d: Seq<char>)
    requires
        member(j, "page"@) is Some,
        exists|m: Metainfo| decodes_metainfo(member(j, "page"@)->Some_0, m),
        member(j, "status"@) is Some,
        as_text(member(member(j, "status"@)->Some_0, "indicator"@)) == Some(t),
        as_text(member(member(j, "status"@)->Some_0, "description"@)) == Some(d),
        indicator_of_token(t) is Some,
    ensures
        exists|s: Status| decodes_status_response(j, s),
        forall|s: Status|
            decodes_status_response(j, s) ==> s.indicator == indicator_of_token(t)->Some_0
                && s.description@ == d,
{
    let sj = member(j, "status"@)->Some_0;
    let text = member(sj, "description"@)->Some_0->Str_0;
    let s = Status { indicator: indicator_of_token(t)->Some_0, description: text };
    assert(decodes_status_response(j, s));
}

/// The page description of a status response is dropped: two responses that
/// agree on `status`, each with a page description that decodes, carry the
/// same statuses.
pub proof fn status_response_ignores_page(j1: Json, j2: Json, s: Status)
    requires
        member(j1, "status"@) == member(j2, "status"@),
        member(j1, "page"@) is Some,
        exists|m: Metainfo| decodes_metainfo(member(j1, "page"@)->Some_0, m),
        member(j2, "page"@) is Some,
        exists|m: Metainfo| decodes_metainfo(member(j2, "page"@)->Some_0, m),
    ensures
        decodes_status_response(j1, s) <==> decodes_status_response(j2, s),
{
}

/// A components response listing a component whose status is a token outside
/// the vocabulary carries nothing.
pub proof fn components_response_refuses_unknown_status(j: Json, k: int, t: Seq<char>)
    requires
        as_items(member(j, "components"@), false, false) is Some,
        0 <= k < as_items(member(j, "components"@), false, false)->Some_0.len(),
        as_text(member(as_items(member(j, "components"@), false, false)->Some_0[k], "status"@))
            == Some(t),
        component_status_of_token(t) is None,
    ensures
        forall|cs: Seq<Component>| !decodes_components_response(j, cs),
{
    let es = as_items(member(j, "components"@), false, false)->Some_0;
    assert forall|cs: Seq<Component>| !decodes_components_response(j, cs) by {
        if decodes_components_response(j, cs) {
            assert(decodes_component(es[k], cs[k]));
        }
    }
}

/// An incidents response listing an incident whose impact is a token outside
/// the vocabulary carries nothing.
pub proof fn incidents_response_refuses_unknown_impact(j: Json, k: int, t: Seq<char>)
    requires
        as_items(member(j, "incidents"@), false, false) is Some,
        0 <= k < as_items(member(j, "incidents"@), false, false)->Some_0.len(),
        as_text(member(as_items(member(j, "incidents"@), false, false)->Some_0[k], "impact"@))
            == Some(t),
        impact_of_token(t) is None,
    ensures
        forall|xs: Seq<Incident>| !decodes_incidents_response(j, xs),
{
    let es = as_items(member(j, "incidents"@), false, false)->Some_0;
    assert forall|xs: Seq<Incident>| !decodes_incidents_response(j, xs) by {
        if decodes_incidents_response(j, xs) {
            assert(decodes_incident(es[k], xs[k]));
        }
    }
}

/// An incident response whose incident has a status token outside the
/// vocabulary carries nothing.
pub proof fn incident_response_refuses_unknown_status(j: Json, t: Seq<char>)
    requires
        member(j, "incident"@) is Some,
        as_text(member(member(j, "incident"@)->Some_0, "status"@)) == Some(t),
        incident_status_of_token(t) is None,
    ensures
        forall|x: Incident| !decodes_incident_response(j, x),
{
}

/// A client of one status page. It holds the API's base URL and the HTTP
/// transport; the exchange itself is made by the caller with `transport`.
#[derive(Debug)]
pub struct StatusClient {
    client: reqwest::blocking::Client,
    base_url: String,
}

impl StatusClient {
    /// The base URL: the page's URL followed by the API prefix.
    pub closed spec fn base(&self) -> Seq<char> {
        self.base_url@
    }

    /// Pairs a transport built by the caller with the base URL `url` +
    /// `/api/v2`. It never fails: the URL is not checked here, and a bad one
    /// fails at the first request.
    pub fn new(transport: reqwest::blocking::Client, url: &str) -> (r: StatusClient)
        ensures
            r.base() == url@ + api_prefix(),
    {
        let mut base_url = url.to_owned();
        base_url.append("/api/v2");
        StatusClient { client: transport, base_url }
    }

    /// The HTTP transport, to send the requests with.
    pub fn transport(&self) -> &reqwest::blocking::Client {
        &self.client
    }

    /// The base URL.
    pub fn base_url(&self) -> (r: &String)
        ensures
            r@ == self.base(),
    {
        &self.base_url
    }

    /// The URL of an endpoint: the base URL followed by its path.
    pub fn url_for(&self, endpoint: &str) -> (r: String)
        ensures
            r@ == self.base() + endpoint@,
    {
        let mut url = self.base_url.clone();
        url.append(endpoint);
        url
    }

    /// The path of the incident `id`, which is put in unescaped.
    pub fn incident_endpoint(id: &str) -> (r: String)
        ensures
            r@ == incident_path(id@),
    {
        let mut path = "/incidents/".to_owned();
        path.append(id);
        path.append(".json");
        path
    }

    /// The JSON tree of a response: the status is checked before the body is read.
    pub fn response_json(code: u16, body: &str) -> (r: Result<Json, Error>)
        ensures
            !is_success(code) ==> r == Err::<Json, Error>(Error::HttpStatus(code)),
            is_success(code) && json_of_text(body@) is Some ==> r == Ok::<Json, Error>(
                json_of_text(body@)->Some_0,
            ),
            is_success(code) && json_of_text(body@) is None ==> r is Err && r->Err_0 is Deserialize
                && r->Err_0->Deserialize_0.field@ == Seq::<char>::empty(),
    {
        if code < 200 || code > 299 {
            return Err(Error::HttpStatus(code));
        }
        match parse_json(body) {
            Some(j) => Ok(j),
            None => Err(Error::Deserialize(DecodeError { field: String::new() })),
        }
    }

    /// Reads the response to `GET /summary.json`.
    pub fn summary_from_response(code: u16, body: &str) -> (r: Result<Summary, Error>)
        ensures
            !is_success(code) ==> r == Err::<Summary, Error>(Error::HttpStatus(code)),
            r is Ok ==> is_success(code) && json_of_text(body@) is Some && decodes_summary(
                json_of_text(body@)->Some_0,
                r->Ok_0,
            ),
            is_success(code) && r is Err ==> r->Err_0 is Deserialize && (
                json_of_text(body@) is None
                || forall|s: Summary| !decodes_summary(json_of_text(body@)->Some_0, s)),
            is_success(code) && r is Err ==> r->Err_0->Deserialize_0.field@ == body_error(
                body@,
                |t: Json| summary_error(t),
            ),
    {
        let j = match StatusClient::response_json(code, body) {
            Ok(j) => j,
            Err(e) => {
                return Err(e);
            },
        };
        match Summary::from_json(&j) {
            Ok(s) => Ok(s),
            Err(e) => Err(Error::Deserialize(e)),
        }
    }

    /// Decodes the page description of a response, which is then dropped.
    fn check_page(j: &Json) -> (r: Result<(), DecodeError>)
        ensures
            r is Ok <==> (member(*j, "page"@) matches Some(pj) && exists|m: Metainfo|
                decodes_metainfo(pj, m)),
            r matches Err(e) ==> e.field@ == "page"@,
    {
        match get_member(j, "page") {
            Some(pj) => match Metainfo::from_json(pj) {
                Ok(_) => Ok(()),
                Err(_) => Err(DecodeError::at("page")),
            },
            None => Err(DecodeError::at("page")),
        }
    }

    /// Reads the response to `GET /status.json`: the `status` member.
    pub fn status_from_response(code: u16, body: &str) -> (r: Result<Status, Error>)
        ensures
            !is_success(code) ==> r == Err::<Status, Error>(Error::HttpStatus(code)),
            r is Ok ==> is_success(code) && json_of_text(body@) is Some && decodes_status_response(
                json_of_text(body@)->Some_0,
                r->Ok_0,
            ),
            is_success(code) && r is Err ==> r->Err_0 is Deserialize && (
                json_of_text(body@) is None
                || forall|s: Status| !decodes_status_response(json_of_text(body@)->Some_0, s)),
            is_success(code) && r is Err ==> r->Err_0->Deserialize_0.field@ == body_error(
                body@,
                |t: Json| status_response_error(t),
            ),
    {
        let j = match StatusClient::response_json(code, body) {
            Ok(j) => j,
            Err(e) => {
                return Err(e);
            },
        };
        if let Err(e) = StatusClient::check_page(&j) {
            return Err(Error::Deserialize(e));
        }
        match get_member(&j, "status") {
            Some(sj) => match Status::from_json(sj) {
                Ok(s) => Ok(s),
                Err(_) => Err(Error::Deserialize(DecodeError::at("status"))),
            },
            None => Err(Error::Deserialize(DecodeError::at("status"))),
        }
    }

    /// Reads the response to `GET /components.json`: the `components` member.
    pub fn components_from_response(code: u16, body: &str) -> (r: Result<Vec<Component>, Error>)
        ensures
            !is_success(code) ==> r == Err::<Vec<Component>, Error>(Error::HttpStatus(code)),
            r is Ok ==> is_success(code) && json_of_text(body@) is Some && decodes_components_response(
                json_of_text(body@)->Some_0,
                r->Ok_0@,
            ),
            is_success(code) && r is Err ==> r->Err_0 is Deserialize && (
                json_of_text(body@) is None
                || forall|cs: Seq<Component>| !decodes_components_response(json_of_text(body@)->Some_0, cs)),
            is_success(code) && r is Err ==> r->Err_0->Deserialize_0.field@ == body_error(
                body@,
                |t: Json| components_response_error(t),
            ),
    {
        let j = match StatusClient::response_json(code, body) {
            Ok(j) => j,
            Err(e) => {
                return Err(e);
            },
        };
        if let Err(e) = StatusClient::check_page(&j) {
            return Err(Error::Deserialize(e));
        }
        let listed = match items_member(&j, "components", false, false) {
            Ok(Some(es)) => match decode_components(es) {
                Ok(cs) => Ok(cs),
                Err(_) => Err(DecodeError::at("components")),
            },
            Ok(None) => Ok(Vec::new()),
            Err(e) => Err(e),
        };
        match listed {
            Ok(cs) => Ok(cs),
            Err(e) => Err(Error::Deserialize(e)),
        }
    }

    /// Reads the response to `GET /incidents.json`: the `incidents` member.
    pub fn incidents_from_response(code: u16, body: &str) -> (r: Result<Vec<Incident>, Error>)
        ensures
            !is_success(code) ==> r == Err::<Vec<Incident>, Error>(Error::HttpStatus(code)),
            r is Ok ==> is_success(code) && json_of_text(body@) is Some && decodes_incidents_response(
                json_of_text(body@)->Some_0,
                r->Ok_0@,
            ),
            is_success(code) && r is Err ==> r->Err_0 is Deserialize && (
                json_of_text(body@) is None
                || forall|xs: Seq<Incident>| !decodes_incidents_response(json_of_text(body@)->Some_0, xs)),
            is_success(code) && r is Err ==> r->Err_0->Deserialize_0.field@ == body_error(
                body@,
                |t: Json| incidents_response_error(t),
            ),
    {
        let j = match StatusClient::response_json(code, body) {
            Ok(j) => j,
            Err(e) => {
                return Err(e);
            },
        };
        if let Err(e) = StatusClient::check_page(&j) {
            return Err(Error::Deserialize(e));
        }
        let listed = match items_member(&j, "incidents", false, false) {
            Ok(Some(es)) => match decode_incidents(es) {
                Ok(xs) => Ok(xs),
                Err(_) => Err(DecodeError::at("incidents")),
            },
            Ok(None) => Ok(Vec::new()),
            Err(e) => Err(e),
        };
        match listed {
            Ok(xs) => Ok(xs),
            Err(e) => Err(Error::Deserialize(e)),
        }
    }

    /// Reads the response to `GET /incidents/{id}.json`: the `incident` member.
    pub fn incident_from_response(code: u16, body: &str) -> (r: Result<Incident, Error>)
        ensures
            !is_success(code) ==> r == Err::<Incident, Error>(Error::HttpStatus(code)),
            r is Ok ==> is_success(code) && json_of_text(body@) is Some && decodes_incident_response(
                json_of_text(body@)->Some_0,
                r->Ok_0,
            ),
            is_success(code) && r is Err ==> r->Err_0 is Deserialize && (
                json_of_text(body@) is None
                || forall|x: Incident| !decodes_incident_response(json_of_text(body@)->Some_0, x)),
            is_success(code) && r is Err ==> r->Err_0->Deserialize_0.field@ == body_error(
                body@,
                |t: Json| incident_response_error(t),
            ),
    {
        let j = match StatusClient::response_json(code, body) {
            Ok(j) => j,
            Err(e) => {
                return Err(e);
            },
        };
        if let Err(e) = StatusClient::check_page(&j) {
            return Err(Error::Deserialize(e));
        }
        match get_member(&j, "incident") {
            Some(ij) => match Incident::from_json(ij) {
                Ok(x) => Ok(x),
                Err(_) => Err(Error::Deserialize(DecodeError::at("incident"))),
            },
            None => Err(Error::Deserialize(DecodeError::at("incident"))),
        }
    }
}

} // verus!
