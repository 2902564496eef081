use crate::error::{ErrorModel, PluginError};
use crate::fallback::{fallback_results, offline_titles};
use crate::json::{copy_items, json_text, models, parsed_document, JsonModel, JsonObject, JsonValue};
use crate::json::NumberModel;
use crate::response::{failed, succeeded, PluginResponse, ResponseModel};
use crate::text::{join, lowercase};
use vstd::prelude::*;

verus! {

/// How one request to the remote catalogue ended.
#[derive(Debug, PartialEq, Eq)]
pub enum HttpOutcome {
    /// No answer came, or none in time; the text says why.
    Failed(String),
    /// An answer came: its status code, and its body or the reason why the
    /// body could not be read.
    Answered { status: u16, body: Result<String, String> },
}

/// The status line that `reqwest::StatusCode` prints for a code, or the
/// message of its error for a number that is no status code.
pub uninterp spec fn status_line(code: u16) -> Seq<char>;

/// Makes a `reqwest::StatusCode` with `from_u16` and prints it with
/// `to_string`; a number that is no status code gives the text of the error
/// instead. The contract only names the text.
#[verifier::external_body]
pub(crate) fn status_text(code: u16) -> (r: String)
    ensures
        r@ == status_line(code),
{
    match reqwest::StatusCode::from_u16(code) {
        Ok(status) => status.to_string(),
        Err(e) => e.to_string(),
    }
}

/// Whether a status code tells of success: the codes 200 to 299.
pub open spec fn is_success(status: u16) -> bool {
    200 <= status < 300
}

/// Whether a status code tells of success.
pub fn is_success_status(status: u16) -> (r: bool)
    ensures
        r == is_success(status),
{
    200 <= status && status < 300
}

/// `message`, behind `label` where the caller asks for labels.
pub open spec fn with_label(label: Seq<char>, message: Seq<char>, labelled: bool) -> Seq<char> {
    if labelled {
        label + message
    } else {
        message
    }
}

/// The document that a request brought, or why it brought none: the
/// network failed where no answer came, where its status code tells of no
/// success, or where its body could not be read; a body that is no JSON
/// text cannot be parsed.
pub open spec fn document_of(outcome: HttpOutcome, labelled: bool) -> Result<
    JsonModel,
    ErrorModel,
> {
    match outcome {
        HttpOutcome::Failed(why) => Err(
            ErrorModel::Network(with_label("Network error: "@, why@, labelled)),
        ),
        HttpOutcome::Answered { status, body } => if !is_success(status) {
            Err(ErrorModel::Network("HTTP error: "@ + status_line(status)))
        } else {
            match body {
                Err(why) => Err(
                    ErrorModel::Network(with_label("Failed to read response: "@, why@, labelled)),
                ),
                Ok(text) => match parsed_document(text@) {
                    Err(why) => Err(
                        ErrorModel::Parse(with_label("Failed to parse JSON: "@, why, labelled)),
                    ),
                    Ok(doc) => Ok(doc),
                },
            }
        },
    }
}

/// The list that an answer holds under `data` and the query's name.
pub open spec fn rows(doc: JsonModel, name: Seq<char>) -> Option<Seq<JsonModel>> {
    match doc.field("data"@) {
        Some(data) => match data.field(name) {
            Some(list) => list.items(),
            None => None,
        },
        None => None,
    }
}

/// The errors that an answer reports, as one error of the remote side.
pub open spec fn reported_errors(doc: JsonModel) -> Option<ErrorModel> {
    match doc.field("errors"@) {
        Some(errors) => Some(ErrorModel::Api("GraphQL errors: "@ + json_text(errors))),
        None => None,
    }
}

/// The titles that a search brought.
pub open spec fn titles_of(doc: JsonModel) -> Result<Seq<JsonModel>, ErrorModel> {
    match rows(doc, "getHqsByName"@) {
        Some(items) => Ok(items),
        None => match reported_errors(doc) {
            Some(e) => Err(e),
            None => Ok(Seq::empty()),
        },
    }
}

/// A record with the identifier it was asked by and the fixed content type.
pub open spec fn tagged(record: JsonModel, site_id: Seq<char>) -> JsonModel {
    record.with_field("siteId"@, JsonModel::Text(site_id)).with_field(
        "type"@,
        JsonModel::Text("hq"@),
    )
}

/// The details that an answer holds for one title: its first record,
/// tagged. A record that cannot take the tags is malformed. An answer
/// without records gives the errors it reports, or else the title is not
/// found.
pub open spec fn details_of(doc: JsonModel, site_id: Seq<char>) -> Result<JsonModel, ErrorModel> {
    let found = rows(doc, "getHqsById"@);
    if found is Some && found->Some_0.len() > 0 {
        if found->Some_0[0].takes_fields() {
            Ok(tagged(found->Some_0[0], site_id))
        } else {
            Err(ErrorModel::Parse("Malformed record"@))
        }
    } else {
        match reported_errors(doc) {
            Some(e) => Err(e),
            None => Err(ErrorModel::NotFound("No data found"@)),
        }
    }
}

/// A chapter as it is stored: with the identifier of its title, marked as
/// not yet downloaded, and with its pages, where it has any, as one JSON
/// text.
pub open spec fn stored_chapter(chapter: JsonModel, site_id: Seq<char>) -> JsonModel {
    let marked = chapter.with_field("siteId"@, JsonModel::Text(site_id)).with_field(
        "offline"@,
        JsonModel::Bool(false),
    );
    match marked.field("pages"@) {
        Some(pages) => marked.with_field("pages"@, JsonModel::Text(json_text(pages))),
        None => marked,
    }
}

/// The chapters of `items`, each as it is stored.
pub open spec fn stored_chapters(items: Seq<JsonModel>, site_id: Seq<char>) -> Seq<JsonModel> {
    Seq::new(items.len(), |i: int| stored_chapter(items[i], site_id))
}

/// The chapters that an answer holds for one title, each as it is
/// stored. A list with a record that cannot take the fields is malformed.
pub open spec fn chapters_of(doc: JsonModel, site_id: Seq<char>) -> Result<
    Seq<JsonModel>,
    ErrorModel,
> {
    match rows(doc, "getChaptersByHqId"@) {
        Some(items) => if forall|i: int| 0 <= i < items.len() ==> (#[trigger] items[i]).takes_fields() {
            Ok(stored_chapters(items, site_id))
        } else {
            Err(ErrorModel::Parse("Malformed record"@))
        },
        None => match reported_errors(doc) {
            Some(e) => Err(e),
            None => Ok(Seq::empty()),
        },
    }
}

/// The models of a result that holds a list of documents.
pub open spec fn list_result(r: Result<Vec<JsonValue>, PluginError>) -> Result<
    Seq<JsonModel>,
    ErrorModel,
> {
    match r {
        Ok(items) => Ok(models(items@)),
        Err(e) => Err(e@),
    }
}

/// The model of a result that holds one document.
pub open spec fn document_result(r: Result<JsonValue, PluginError>) -> Result<
    JsonModel,
    ErrorModel,
> {
    match r {
        Ok(doc) => Ok(doc@),
        Err(e) => Err(e@),
    }
}

fn labelled_message(label: &str, message: &str, labelled: bool) -> (r: String)
    ensures
        r@ == with_label(label@, message@, labelled),
{
    if labelled {
        join(label, message)
    } else {
        message.to_owned()
    }
}

/// The document that a request brought, or why it brought none.
pub fn fetched_document(outcome: &HttpOutcome, labelled: bool) -> (r: Result<
    JsonValue,
    PluginError,
>)
    ensures
        document_result(r) == document_of(*outcome, labelled),
{
    match outcome {
        HttpOutcome::Failed(why) => Err(
            PluginError::Network(labelled_message("Network error: ", why.as_str(), labelled)),
        ),
        HttpOutcome::Answered { status, body } => {
            if !is_success_status(*status) {
                let line = status_text(*status);
                Err(PluginError::Network(join("HTTP error: ", line.as_str())))
            } else {
                match body {
                    Err(why) => Err(
                        PluginError::Network(
                            labelled_message("Failed to read response: ", why.as_str(), labelled),
                        ),
                    ),
                    Ok(text) => match JsonValue::parse(text.as_str()) {
                        Err(why) => Err(
                            PluginError::Parse(
                                labelled_message("Failed to parse JSON: ", why.as_str(), labelled),
                            ),
                        ),
                        Ok(doc) => Ok(doc),
                    },
                }
            }
        },
    }
}

fn rows_in<'a>(doc: &'a JsonValue, name: &str) -> (r: Option<&'a Vec<JsonValue>>)
    ensures
        match r {
            Some(items) => rows(doc@, name@) == Some(models(items@)),
            None => rows(doc@, name@) is None,
        },
{
    match doc.get("data") {
        Some(data) => match data.get(name) {
            Some(list) => list.as_array(),
            None => None,
        },
        None => None,
    }
}

fn errors_in(doc: &JsonValue) -> (r: Option<PluginError>)
    ensures
        match r {
            Some(e) => reported_errors(doc@) == Some(e@),
            None => reported_errors(doc@) is None,
        },
{
    match doc.get("errors") {
        Some(errors) => {
            let text = errors.to_text();
            Some(PluginError::Api(join("GraphQL errors: ", text.as_str())))
        },
        None => None,
    }
}

/// The titles that an answer to a search holds.
pub fn titles_in(doc: &JsonValue) -> (r: Result<Vec<JsonValue>, PluginError>)
    ensures
        list_result(r) == titles_of(doc@),
{
    match rows_in(doc, "getHqsByName") {
        Some(items) => Ok(copy_items(items)),
        None => match errors_in(doc) {
            Some(e) => Err(e),
            None => {
                let none: Vec<JsonValue> = Vec::new();
                assert(models(none@) =~= Seq::<JsonModel>::empty());
                Ok(none)
            },
        },
    }
}

/// The details that an answer holds for the title `site_id`.
pub fn details_in(doc: &JsonValue, site_id: &str) -> (r: Result<JsonValue, PluginError>)
    ensures
        document_result(r) == details_of(doc@, site_id@),
{
    let found = rows_in(doc, "getHqsById");
    match found {
        Some(items) => {
            if items.len() > 0 {
                let mut record = items[0].clone();
                let stored = record.set_field("siteId", JsonValue::text(site_id));
                if !stored {
                    return Err(PluginError::Parse("Malformed record".to_owned()));
                }
                record.set_field("type", JsonValue::text("hq"));
                return Ok(record);
            }
        },
        None => {},
    }
    match errors_in(doc) {
        Some(e) => Err(e),
        None => Err(PluginError::NotFound("No data found".to_owned())),
    }
}

/// A chapter as it is stored, where it can take the fields.
pub fn store_chapter(chapter: &JsonValue, site_id: &str) -> (r: Option<JsonValue>)
    ensures
        match r {
            Some(c) => chapter@.takes_fields() && c@ == stored_chapter(chapter@, site_id@),
            None => !chapter@.takes_fields(),
        },
{
    let mut stored = chapter.clone();
    if !stored.set_field("siteId", JsonValue::text(site_id)) {
        return None;
    }
    stored.set_field("offline", JsonValue::Bool(false));
    let pages = match stored.get("pages") {
        Some(pages) => Some(pages.to_text()),
        None => None,
    };
    match pages {
        Some(text) => {
            stored.set_field("pages", JsonValue::String(text));
        },
        None => {},
    }
    Some(stored)
}

/// The chapters that an answer holds for the title `site_id`.
pub fn chapters_in(doc: &JsonValue, site_id: &str) -> (r: Result<Vec<JsonValue>, PluginError>)
    ensures
        list_result(r) == chapters_of(doc@, site_id@),
{
    match rows_in(doc, "getChaptersByHqId") {
        Some(items) => {
            let mut out: Vec<JsonValue> = Vec::new();
            let mut i: usize = 0;
            while i < items.len()
                invariant
                    rows(doc@, "getChaptersByHqId"@) == Some(models(items@)),
                    i <= items.len(),
                    out.len() == i,
                    forall|j: int| 0 <= j < i ==> (#[trigger] models(items@)[j]).takes_fields(),
                    forall|j: int|
                        0 <= j < i ==> out[j]@ == stored_chapter(models(items@)[j], site_id@),
                decreases items.len() - i,
            {
                match store_chapter(&items[i], site_id) {
                    Some(c) => {
                        out.push(c);
                    },
                    None => {
                        assert(!models(items@)[i as int].takes_fields());
                        return Err(PluginError::Parse("Malformed record".to_owned()));
                    },
                }
                i += 1;
            }
            assert(models(out@) =~= stored_chapters(models(items@), site_id@));
            Ok(out)
        },
        None => match errors_in(doc) {
            Some(e) => Err(e),
            None => {
                let none: Vec<JsonValue> = Vec::new();
                assert(models(none@) =~= Seq::<JsonModel>::empty());
                Ok(none)
            },
        },
    }
}


/// The query that searches the titles by name.
pub open spec fn search_query() -> Seq<char> {
    r#"
            query getHqsByName($search: String!) {
                getHqsByName(name: $search) {
                    siteId: id
                    name
                    synopsis
                    status
                }
            }
        "#@
}

/// The query that asks for the details of one title.
pub open spec fn details_query() -> Seq<char> {
    r#"
            query getHqsById($id: Int!) {
                getHqsById(id: $id) {
                    cover: hqCover
                    publisher: publisherName
                }
            }
        "#@
}

/// The query that asks for the chapters of one title.
pub open spec fn chapters_query() -> Seq<char> {
    r#"
            query getChaptersByHqId($id: Int!) {
                getChaptersByHqId(hqId: $id) {
                    name
                    number
                    siteId: id
                    pages: pictures {
                        filename: image
                        path: pictureUrl
                    }
                }
            }
        "#@
}

/// The envelope that the remote catalogue takes: a query and its variables.
pub open spec fn envelope(query: Seq<char>, variables: Map<Seq<char>, JsonModel>) -> JsonModel {
    JsonModel::Object(
        Map::empty().insert("query"@, JsonModel::Text(query)).insert(
            "variables"@,
            JsonModel::Object(variables),
        ),
    )
}

/// The envelope of a search for `term`.
pub open spec fn search_envelope(term: Seq<char>) -> JsonModel {
    envelope(search_query(), Map::empty().insert("search"@, JsonModel::Text(term)))
}

/// The envelope of a query for the title with the number `id`.
pub open spec fn title_envelope(query: Seq<char>, id: i32) -> JsonModel {
    envelope(
        query,
        Map::empty().insert("id"@, JsonModel::Number(NumberModel::Integer(id as int))),
    )
}

/// One request to the remote catalogue that the caller is to make, with
/// what is needed to turn its outcome into a response.
#[derive(Debug, PartialEq, Eq)]
pub enum RemoteCall {
    /// A search of the user's: when it fails, the offline titles for `term`
    /// are the answer.
    Search { term: String, body: JsonValue },
    /// The list of titles.
    List { body: JsonValue },
    /// The details of the title `site_id`.
    Details { site_id: String, body: JsonValue },
    /// The chapters of the title `site_id`.
    Chapters { site_id: String, body: JsonValue },
}

/// The mathematical value of a [`RemoteCall`].
pub enum CallModel {
    Search { term: Seq<char>, body: JsonModel },
    List { body: JsonModel },
    Details { site_id: Seq<char>, body: JsonModel },
    Chapters { site_id: Seq<char>, body: JsonModel },
}

impl View for RemoteCall {
    type V = CallModel;

    open spec fn view(&self) -> CallModel {
        match self {
            RemoteCall::Search { term, body } => CallModel::Search { term: term@, body: body@ },
            RemoteCall::List { body } => CallModel::List { body: body@ },
            RemoteCall::Details { site_id, body } => CallModel::Details {
                site_id: site_id@,
                body: body@,
            },
            RemoteCall::Chapters { site_id, body } => CallModel::Chapters {
                site_id: site_id@,
                body: body@,
            },
        }
    }
}

impl CallModel {
    /// The envelope to send.
    pub open spec fn body(self) -> JsonModel {
        match self {
            CallModel::Search { body, .. } => body,
            CallModel::List { body } => body,
            CallModel::Details { body, .. } => body,
            CallModel::Chapters { body, .. } => body,
        }
    }
}

/// The titles that a request brought, or why it brought none.
pub open spec fn titles_from(outcome: HttpOutcome) -> Result<Seq<JsonModel>, ErrorModel> {
    match document_of(outcome, true) {
        Ok(doc) => titles_of(doc),
        Err(e) => Err(e),
    }
}

/// The details that a request brought, or why it brought none.
pub open spec fn details_from(outcome: HttpOutcome, site_id: Seq<char>) -> Result<
    JsonModel,
    ErrorModel,
> {
    match document_of(outcome, false) {
        Ok(doc) => details_of(doc, site_id),
        Err(e) => Err(e),
    }
}

/// The chapters that a request brought, or why it brought none.
pub open spec fn chapters_from(outcome: HttpOutcome, site_id: Seq<char>) -> Result<
    Seq<JsonModel>,
    ErrorModel,
> {
    match document_of(outcome, false) {
        Ok(doc) => chapters_of(doc, site_id),
        Err(e) => Err(e),
    }
}

/// The response to a call, given how its request ended. A search never
/// fails: where the request brought no titles, the offline titles for its
/// term are the answer. The other calls report the failure.
pub open spec fn answer(call: CallModel, outcome: HttpOutcome) -> ResponseModel {
    match call {
        CallModel::Search { term, .. } => match titles_from(outcome) {
            Ok(items) => succeeded(JsonModel::Array(items)),
            Err(_) => succeeded(JsonModel::Array(offline_titles(lowercase(term)))),
        },
        CallModel::List { .. } => match titles_from(outcome) {
            Ok(items) => succeeded(JsonModel::Array(items)),
            Err(e) => failed("GetList failed: "@ + e.message()),
        },
        CallModel::Details { site_id, .. } => match details_from(outcome, site_id) {
            Ok(details) => succeeded(details),
            Err(e) => failed("GetDetails failed: "@ + e.message()),
        },
        CallModel::Chapters { site_id, .. } => match chapters_from(outcome, site_id) {
            Ok(items) => succeeded(JsonModel::Array(items)),
            Err(e) => failed("GetChapters failed: "@ + e.message()),
        },
    }
}

/// The titles that a request brought, or why it brought none.
pub fn search_results(outcome: &HttpOutcome) -> (r: Result<Vec<JsonValue>, PluginError>)
    ensures
        list_result(r) == titles_from(*outcome),
{
    match fetched_document(outcome, true) {
        Ok(doc) => titles_in(&doc),
        Err(e) => Err(e),
    }
}

/// The details of the title `site_id` that a request brought, or why it
/// brought none.
pub fn details_result(outcome: &HttpOutcome, site_id: &str) -> (r: Result<
    JsonValue,
    PluginError,
>)
    ensures
        document_result(r) == details_from(*outcome, site_id@),
{
    match fetched_document(outcome, false) {
        Ok(doc) => details_in(&doc, site_id),
        Err(e) => Err(e),
    }
}

/// The chapters of the title `site_id` that a request brought, or why it
/// brought none.
pub fn chapters_result(outcome: &HttpOutcome, site_id: &str) -> (r: Result<
    Vec<JsonValue>,
    PluginError,
>)
    ensures
        list_result(r) == chapters_from(*outcome, site_id@),
{
    match fetched_document(outcome, false) {
        Ok(doc) => chapters_in(&doc, site_id),
        Err(e) => Err(e),
    }
}

fn envelope_of(query: &str, variables: JsonObject) -> (r: JsonValue)
    ensures
        r@ == envelope(query@, variables@),
{
    let mut o = JsonObject::new();
    o.insert("query", JsonValue::text(query));
    o.insert("variables", JsonValue::object(variables));
    JsonValue::object(o)
}

fn search_body(term: &str) -> (r: JsonValue)
    ensures
        r@ == search_envelope(term@),
{
    let mut variables = JsonObject::new();
    variables.insert("search", JsonValue::text(term));
    envelope_of(
        r#"
            query getHqsByName($search: String!) {
                getHqsByName(name: $search) {
                    siteId: id
                    name
                    synopsis
                    status
                }
            }
        "#,
        variables,
    )
}

fn title_body(query: &str, id: i32) -> (r: JsonValue)
    ensures
        r@ == title_envelope(query@, id),
{
    let mut variables = JsonObject::new();
    variables.insert("id", JsonValue::integer(id as i64));
    envelope_of(query, variables)
}

impl RemoteCall {
    /// The address of the remote catalogue.
    pub fn endpoint() -> (r: &'static str)
        ensures
            r@ == "https://admin.hq-now.com/graphql"@,
    {
        "https://admin.hq-now.com/graphql"
    }

    /// How many seconds a request may take before it counts as failed.
    pub fn timeout_seconds() -> (r: u64)
        ensures
            r == 10,
    {
        10
    }

    /// The name by which the request announces its sender: the searches
    /// and the list announce one, the other requests do not.
    pub fn user_agent(&self) -> (r: Option<&'static str>)
        ensures
            match r {
                Some(name) => (self is Search || self is List) && name@
                    == "Comic-Universe-Tauri/1.0"@,
                None => self is Details || self is Chapters,
            },
    {
        match self {
            RemoteCall::Search { .. } => Some("Comic-Universe-Tauri/1.0"),
            RemoteCall::List { .. } => Some("Comic-Universe-Tauri/1.0"),
            RemoteCall::Details { .. } => None,
            RemoteCall::Chapters { .. } => None,
        }
    }

    /// A search of the user's for `term`.
    pub fn search(term: &str) -> (r: Self)
        ensures
            r@ == (CallModel::Search { term: term@, body: search_envelope(term@) }),
    {
        RemoteCall::Search { term: term.to_owned(), body: search_body(term) }
    }

    /// The list of titles: a search for `A`.
    pub fn list() -> (r: Self)
        ensures
            r@ == (CallModel::List { body: search_envelope("A"@) }),
    {
        RemoteCall::List { body: search_body("A") }
    }

    /// The details of the title `site_id`, whose number is `id`.
    pub fn details(site_id: &str, id: i32) -> (r: Self)
        ensures
            r@ == (CallModel::Details {
                site_id: site_id@,
                body: title_envelope(details_query(), id),
            }),
    {
        RemoteCall::Details {
            site_id: site_id.to_owned(),
            body: title_body(
                r#"
            query getHqsById($id: Int!) {
                getHqsById(id: $id) {
                    cover: hqCover
                    publisher: publisherName
                }
            }
        "#,
                id,
            ),
        }
    }

    /// The chapters of the title `site_id`, whose number is `id`.
    pub fn chapters(site_id: &str, id: i32) -> (r: Self)
        ensures
            r@ == (CallModel::Chapters {
                site_id: site_id@,
                body: title_envelope(chapters_query(), id),
            }),
    {
        RemoteCall::Chapters {
            site_id: site_id.to_owned(),
            body: title_body(
                r#"
            query getChaptersByHqId($id: Int!) {
                getChaptersByHqId(hqId: $id) {
                    name
                    number
                    siteId: id
                    pages: pictures {
                        filename: image
                        path: pictureUrl
                    }
                }
            }
        "#,
                id,
            ),
        }
    }

    /// The envelope to send.
    pub fn body(&self) -> (r: &JsonValue)
        ensures
            r@ == self@.body(),
    {
        match self {
            RemoteCall::Search { body, .. } => body,
            RemoteCall::List { body } => body,
            RemoteCall::Details { body, .. } => body,
            RemoteCall::Chapters { body, .. } => body,
        }
    }

    /// The response to this call, given how its request ended.
    pub fn complete(&self, outcome: &HttpOutcome) -> (r: PluginResponse)
        ensures
            r@ == answer(self@, *outcome),
    {
        match self {
            RemoteCall::Search { term, .. } => match search_results(outcome) {
                Ok(items) => PluginResponse::ok(JsonValue::array(items)),
                Err(_) => PluginResponse::ok(JsonValue::array(fallback_results(term.as_str()))),
            },
            RemoteCall::List { .. } => match search_results(outcome) {
                Ok(items) => PluginResponse::ok(JsonValue::array(items)),
                Err(e) => PluginResponse::fail(join("GetList failed: ", e.message())),
            },
            RemoteCall::Details { site_id, .. } => match details_result(outcome, site_id.as_str()) {
                Ok(details) => PluginResponse::ok(details),
                Err(e) => PluginResponse::fail(join("GetDetails failed: ", e.message())),
            },
            RemoteCall::Chapters { site_id, .. } => match chapters_result(
                outcome,
                site_id.as_str(),
            ) {
                Ok(items) => PluginResponse::ok(JsonValue::array(items)),
                Err(e) => PluginResponse::fail(join("GetChapters failed: ", e.message())),
            },
        }
    }
}


/// A search always succeeds with a list: the titles that the request
/// brought, or, whatever went wrong with the request, the offline titles
/// for its term. These depend on the term alone.
pub proof fn lemma_search_never_fails(term: Seq<char>, body: JsonModel, outcome: HttpOutcome)
    ensures
        answer(CallModel::Search { term, body }, outcome).success,
        answer(CallModel::Search { term, body }, outcome).error is None,
        answer(CallModel::Search { term, body }, outcome).data is Some,
        answer(CallModel::Search { term, body }, outcome).data->Some_0 is Array,
        titles_from(outcome) is Err ==> answer(CallModel::Search { term, body }, outcome)
            == succeeded(JsonModel::Array(offline_titles(lowercase(term)))),
{
}

/// A search whose request got no answer gives the offline titles for its
/// term.
pub proof fn lemma_search_without_network(term: Seq<char>, body: JsonModel, why: String)
    ensures
        answer(CallModel::Search { term, body }, HttpOutcome::Failed(why)) == succeeded(
            JsonModel::Array(offline_titles(lowercase(term))),
        ),
{
}

/// The list, the details and the chapters are not answered from the
/// offline titles: a request that brought no document is a failure that
/// names the call.
pub proof fn lemma_other_calls_report_failures(
    site_id: Seq<char>,
    body: JsonModel,
    outcome: HttpOutcome,
)
    requires
        document_of(outcome, true) is Err,
    ensures
        document_of(outcome, false) is Err,
        answer(CallModel::List { body }, outcome) == failed(
            "GetList failed: "@ + document_of(outcome, true)->Err_0.message(),
        ),
        answer(CallModel::Details { site_id, body }, outcome) == failed(
            "GetDetails failed: "@ + document_of(outcome, false)->Err_0.message(),
        ),
        answer(CallModel::Chapters { site_id, body }, outcome) == failed(
            "GetChapters failed: "@ + document_of(outcome, false)->Err_0.message(),
        ),
{
}

/// A stored chapter carries the identifier of its title, is marked as not
/// downloaded, and has its pages, if any, as the JSON text of what they
/// were; its other fields are those of the chapter.
pub proof fn lemma_stored_chapter(chapter: JsonModel, site_id: Seq<char>)
    requires
        chapter.takes_fields(),
    ensures
        stored_chapter(chapter, site_id).field("siteId"@) == Some(JsonModel::Text(site_id)),
        stored_chapter(chapter, site_id).field("offline"@) == Some(JsonModel::Bool(false)),
        match chapter.field("pages"@) {
            Some(pages) => stored_chapter(chapter, site_id).field("pages"@) == Some(
                JsonModel::Text(json_text(pages)),
            ),
            None => stored_chapter(chapter, site_id).field("pages"@) is None,
        },
        forall|key: Seq<char>|
            key != "siteId"@ && key != "offline"@ && key != "pages"@ ==> stored_chapter(
                chapter,
                site_id,
            ).field(key) == chapter.field(key),
{
    reveal_strlit("siteId");
    reveal_strlit("offline");
    reveal_strlit("pages");
    assert("siteId"@.len() == 6 && "offline"@.len() == 7 && "pages"@.len() == 5);
}

/// Every chapter of a successful answer to `getChapters` is marked as not
/// downloaded, and its pages, where it has any, are one JSON text and no
/// nested document.
pub proof fn lemma_chapters_are_stored(
    site_id: Seq<char>,
    body: JsonModel,
    outcome: HttpOutcome,
    i: int,
)
    requires
        answer(CallModel::Chapters { site_id, body }, outcome).success,
        0 <= i < answer(CallModel::Chapters { site_id, body }, outcome).data->Some_0->Array_0.len(),
    ensures
        answer(CallModel::Chapters { site_id, body }, outcome).data->Some_0->Array_0[i].field(
            "offline"@,
        ) == Some(JsonModel::Bool(false)),
        answer(CallModel::Chapters { site_id, body }, outcome).data->Some_0->Array_0[i].field(
            "siteId"@,
        ) == Some(JsonModel::Text(site_id)),
        answer(CallModel::Chapters { site_id, body }, outcome).data->Some_0->Array_0[i].field(
            "pages"@,
        ) is Some ==> answer(
            CallModel::Chapters { site_id, body },
            outcome,
        ).data->Some_0->Array_0[i].field("pages"@)->Some_0 is Text,
{
    let doc = document_of(outcome, false)->Ok_0;
    let found = rows(doc, "getChaptersByHqId"@);
    if found is Some {
        let items = found->Some_0;
        assert(items[i].takes_fields());
        lemma_stored_chapter(items[i], site_id);
    }
}

/// An answer without a record for the title gives no details: the call
/// fails, with the errors that the answer reports or else as not found.
pub proof fn lemma_details_not_found(site_id: Seq<char>, body: JsonModel, outcome: HttpOutcome)
    requires
        document_of(outcome, false) is Ok,
        rows(document_of(outcome, false)->Ok_0, "getHqsById"@) is None || rows(
            document_of(outcome, false)->Ok_0,
            "getHqsById"@,
        )->Some_0.len() == 0,
    ensures
        details_from(outcome, site_id) is Err,
        reported_errors(document_of(outcome, false)->Ok_0) is None ==> details_from(
            outcome,
            site_id,
        ) == Err::<JsonModel, ErrorModel>(ErrorModel::NotFound("No data found"@)),
        !answer(CallModel::Details { site_id, body }, outcome).success,
        answer(CallModel::Details { site_id, body }, outcome).data is None,
        reported_errors(document_of(outcome, false)->Ok_0) is None ==> answer(
            CallModel::Details { site_id, body },
            outcome,
        ) == failed("GetDetails failed: "@ + "No data found"@),
{
}

/// An answer with a record for the title gives the record, with the
/// identifier it was asked by and the fixed content type; its other fields
/// are those of the record.
pub proof fn lemma_details_are_tagged(site_id: Seq<char>, body: JsonModel, outcome: HttpOutcome)
    requires
        document_of(outcome, false) is Ok,
        rows(document_of(outcome, false)->Ok_0, "getHqsById"@) is Some,
        rows(document_of(outcome, false)->Ok_0, "getHqsById"@)->Some_0.len() > 0,
        rows(document_of(outcome, false)->Ok_0, "getHqsById"@)->Some_0[0].takes_fields(),
    ensures
        answer(CallModel::Details { site_id, body }, outcome).success,
        answer(CallModel::Details { site_id, body }, outcome).data is Some,
        answer(CallModel::Details { site_id, body }, outcome).data->Some_0.field("siteId"@) == Some(
            JsonModel::Text(site_id),
        ),
        answer(CallModel::Details { site_id, body }, outcome).data->Some_0.field("type"@) == Some(
            JsonModel::Text("hq"@),
        ),
        forall|key: Seq<char>|
            key != "siteId"@ && key != "type"@ ==> answer(
                CallModel::Details { site_id, body },
                outcome,
            ).data->Some_0.field(key) == rows(
                document_of(outcome, false)->Ok_0,
                "getHqsById"@,
            )->Some_0[0].field(key),
{
    reveal_strlit("siteId");
    reveal_strlit("type");
    assert("siteId"@.len() == 6 && "type"@.len() == 4);
}

/// Whatever the call and however its request ended, the response holds
/// either data or an error, as its `success` announces.
pub proof fn lemma_answer_is_definite(call: CallModel, outcome: HttpOutcome)
    ensures
        answer(call, outcome).is_definite(),
{
}

} // verus!
