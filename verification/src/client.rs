//! The client: one request per operation of the contact API, and the rules
//! by which an exchange with the server goes on.
//!
//! Nothing is sent from here. Each operation returns the request that is to
//! be sent; what came back is handed in again as a [`Reply`].

use crate::config::{Config, API_TOKEN_HEADER};
use crate::endpoints::ActiveCampaignBuilder;
use crate::error::CustomError;
use crate::json::{parsed_text, Json, JsonView};
use crate::request::{lemma_pairs_view_push, pairs_view, Method, Request, RequestView};
use vstd::prelude::*;

verus! {

/// The headers that every request of a client with this configuration
/// carries: the API key, as `Api-Token`.
pub open spec fn client_headers(config: &Config) -> Seq<(Seq<char>, Seq<char>)> {
    seq![("Api-Token"@, config.api_key())]
}

/// The headers of a client with the configuration `config`.
pub fn init_client(config: &Config) -> (headers: Vec<(String, String)>)
    ensures
        pairs_view(headers@) == client_headers(config),
{
    let mut headers: Vec<(String, String)> = Vec::new();
    let token = (String::from_str(API_TOKEN_HEADER), String::from_str(config.get_api_key()));
    proof {
        lemma_pairs_view_push(headers@, token);
        assert(pairs_view(headers@) =~= Seq::empty());
        assert(Seq::<(Seq<char>, Seq<char>)>::empty().push(token@) =~= client_headers(config));
    }
    headers.push(token);
    headers
}

/// The request builder of a client with the configuration `config`.
pub fn create_builder(config: &Config) -> (builder: ActiveCampaignBuilder)
    ensures
        builder.base_url() == config.base_url(),
        builder.headers() == client_headers(config),
{
    ActiveCampaignBuilder::new(config.get_base_url(), Some(init_client(config)))
}

/// A client of the contact API.
pub struct Client {
    builder: ActiveCampaignBuilder,
}

/// What came back for a request.
#[derive(Debug)]
pub enum Reply {
    /// The server answered, with whatever status.
    Response { status: u16, body: String },
    /// The request could not be exchanged with the server.
    Failed(reqwest::Error),
}

/// How far the exchange that finds a contact by its email and deletes it
/// has come.
#[derive(Debug)]
pub enum Progress {
    /// Nothing has been sent.
    Start,
    /// The search has been sent, and this came back.
    Searched(Reply),
    /// The delete has been sent, and this came back.
    Deleted(Reply),
}

/// How the exchange ended, where it did not fail.
#[derive(Debug, PartialEq, Eq)]
pub enum Outcome {
    /// The search was answered with another status than 200.
    SearchFailed { status: u16, body: String },
    /// The search found no contact.
    NotFound,
    /// The contact was found, and the delete was answered.
    Deleted,
}

/// What an [`Outcome`] holds.
pub enum OutcomeView {
    SearchFailed { status: u16, body: Seq<char> },
    NotFound,
    Deleted,
}

impl View for Outcome {
    type V = OutcomeView;

    open spec fn view(&self) -> OutcomeView {
        match self {
            Outcome::SearchFailed { status, body } => OutcomeView::SearchFailed {
                status: *status,
                body: body@,
            },
            Outcome::NotFound => OutcomeView::NotFound,
            Outcome::Deleted => OutcomeView::Deleted,
        }
    }
}

/// What is to be done next in the exchange.
#[derive(Debug)]
pub enum Step {
    /// Send this search and hand in what comes back as `Progress::Searched`.
    Search(Request),
    /// Send this delete and hand in what comes back as `Progress::Deleted`.
    Delete(Request),
    /// The exchange is over.
    Done(Result<Outcome, CustomError>),
}

/// What a [`Step`] holds.
pub enum StepView {
    Search(RequestView),
    Delete(RequestView),
    Done(Result<OutcomeView, CustomError>),
}

impl View for Step {
    type V = StepView;

    open spec fn view(&self) -> StepView {
        match self {
            Step::Search(request) => StepView::Search(request@),
            Step::Delete(request) => StepView::Delete(request@),
            Step::Done(Ok(outcome)) => StepView::Done(Ok(outcome@)),
            Step::Done(Err(error)) => StepView::Done(Err(*error)),
        }
    }
}

/// The identifier of the first contact of a search result: the string
/// `contacts[0].id`, where there is one.
pub open spec fn first_contact_id_of(data: JsonView) -> Option<Seq<char>> {
    match data.member("contacts"@) {
        Some(contacts) => match contacts.item(0) {
            Some(first) => match first.member("id"@) {
                Some(id) => id.text(),
                None => None,
            },
            None => None,
        },
        None => None,
    }
}

/// The identifier of the first contact of a search result.
pub fn first_contact_id(data: &Json) -> (id: Option<String>)
    ensures
        match id {
            Some(text) => first_contact_id_of(data@) == Some(text@),
            None => first_contact_id_of(data@) is None,
        },
{
    match data.get("contacts") {
        Some(contacts) => match contacts.at(0) {
            Some(first) => match first.get("id") {
                Some(id) => match id.as_str() {
                    Some(text) => Some(String::from_str(text)),
                    None => None,
                },
                None => None,
            },
            None => None,
        },
        None => None,
    }
}

impl Client {
    /// The base URL that every request of this client starts with.
    pub closed spec fn base_url(&self) -> Seq<char> {
        self.builder.base_url()
    }

    /// The headers that every request of this client carries.
    pub closed spec fn headers(&self) -> Seq<(Seq<char>, Seq<char>)> {
        self.builder.headers()
    }

    /// The request with the given verb for `path` below the base URL.
    pub open spec fn request(&self, method: Method, path: Seq<char>) -> RequestView {
        RequestView::bare(method, self.base_url() + path, self.headers())
    }

    /// The request that searches the contacts with the email `email`. The
    /// email is the query parameter as it was given.
    pub open spec fn find_request(&self, email: Seq<char>) -> RequestView {
        self.request(Method::Get, "/contacts"@).with_query("email"@, email)
    }

    /// The request that deletes the contact `id`.
    pub open spec fn delete_request(&self, id: Seq<char>) -> RequestView {
        self.request(Method::Delete, "/contacts/"@ + id)
    }

    /// A client with the configuration `config`.
    pub fn new(config: &Config) -> (client: Client)
        ensures
            client.base_url() == config.base_url(),
            client.headers() == client_headers(config),
    {
        Client { builder: create_builder(config) }
    }

    /// `GET {base}/contacts`: lists the contacts.
    pub fn contacts_list(&self) -> (request: Request)
        ensures
            request@ == self.request(Method::Get, "/contacts"@),
    {
        self.builder.contact_search()
    }

    /// `GET {base}/contacts?email=..`: searches the contacts with the given
    /// email. The email is attached as it is given: nothing is escaped here.
    pub fn contact_find_by_email(&self, email: &str) -> (request: Request)
        ensures
            request@ == self.find_request(email@),
    {
        self.builder.contact_search().query("email", email)
    }

    /// `GET {base}/contacts/{id}`: fetches the contact `id`.
    pub fn contact_find_by_id(&self, id: &str) -> (request: Request)
        ensures
            request@ == self.request(Method::Get, "/contacts/"@ + id@),
    {
        proof {
            assert(self.base_url() + "/contacts/"@ + id@ =~= self.base_url() + ("/contacts/"@
                + id@));
        }
        self.builder.contact_get(id)
    }

    /// `POST {base}/contacts` with `payload` as its body: creates a contact.
    pub fn contact_create(&self, payload: String) -> (request: Request)
        ensures
            request@ == self.request(Method::Post, "/contacts"@).with_body(payload@),
    {
        self.builder.contact_create().body(payload)
    }

    /// `DELETE {base}/contacts/{id}`: deletes the contact `id`.
    pub fn contact_delete(&self, id: &str) -> (request: Request)
        ensures
            request@ == self.delete_request(id@),
    {
        proof {
            assert(self.base_url() + "/contacts/"@ + id@ =~= self.base_url() + ("/contacts/"@
                + id@));
        }
        self.builder.contact_delete(id)
    }

    /// `POST {base}/contact/sync` with `payload` as its body: creates or
    /// updates a contact.
    pub fn contact_sync(&self, payload: String) -> (request: Request)
        ensures
            request@ == self.request(Method::Post, "/contact/sync"@).with_body(payload@),
    {
        self.builder.contact_sync().body(payload)
    }

    /// What follows a search that was answered with `status` and `body`,
    /// where `data` is the document read from the body, if it is one. Any
    /// other status than 200 ends the exchange. With 200, the first contact
    /// of the result is deleted; where there is none (or no result to read),
    /// the exchange ends without a delete.
    pub open spec fn step_after_search(
        &self,
        status: u16,
        body: Seq<char>,
        data: Option<JsonView>,
    ) -> StepView {
        if status != 200 {
            StepView::Done(Ok(OutcomeView::SearchFailed { status, body }))
        } else {
            match data {
                Some(found) => match first_contact_id_of(found) {
                    Some(id) => StepView::Delete(self.delete_request(id)),
                    None => StepView::Done(Ok(OutcomeView::NotFound)),
                },
                None => StepView::Done(Ok(OutcomeView::NotFound)),
            }
        }
    }

    /// What is to be done when the exchange for `email` has come as far as
    /// `progress`.
    pub open spec fn next_step(&self, email: Seq<char>, progress: Progress) -> StepView {
        match progress {
            Progress::Start => StepView::Search(self.find_request(email)),
            Progress::Searched(Reply::Failed(error)) => StepView::Done(
                Err(CustomError::Reqwest(error)),
            ),
            Progress::Searched(Reply::Response { status, body }) => self.step_after_search(
                status,
                body@,
                parsed_text(body@),
            ),
            Progress::Deleted(Reply::Failed(error)) => StepView::Done(
                Err(CustomError::Reqwest(error)),
            ),
            Progress::Deleted(Reply::Response { .. }) => StepView::Done(Ok(OutcomeView::Deleted)),
        }
    }

    /// What follows a search that was answered with `status` and `body`,
    /// where `data` is the document read from the body, if it is one.
    pub fn after_search(&self, status: u16, body: String, data: Option<&Json>) -> (step: Step)
        ensures
            step@ == self.step_after_search(
                status,
                body@,
                match data {
                    Some(found) => Some(found@),
                    None => None,
                },
            ),
    {
        if status != 200 {
            return Step::Done(Ok(Outcome::SearchFailed { status, body }));
        }
        match data {
            Some(found) => match first_contact_id(found) {
                Some(id) => Step::Delete(self.contact_delete(id.as_str())),
                None => Step::Done(Ok(Outcome::NotFound)),
            },
            None => Step::Done(Ok(Outcome::NotFound)),
        }
    }
}

/// One step of the exchange that finds the contact with the email `email`
/// and deletes it: what is to be done when the exchange has come as far as
/// `progress`. The caller starts with `Progress::Start`, sends what it is
/// told to send, hands in what came back, and stops at `Step::Done`.
pub fn find_and_delete_by_email(client: &Client, email: &str, progress: Progress) -> (step: Step)
    ensures
        step@ == client.next_step(email@, progress),
{
    match progress {
        Progress::Start => Step::Search(client.contact_find_by_email(email)),
        Progress::Searched(Reply::Failed(error)) => Step::Done(Err(CustomError::Reqwest(error))),
        Progress::Searched(Reply::Response { status, body }) => {
            if status != 200 {
                client.after_search(status, body, None)
            } else {
                match Json::parse(body.as_str()) {
                    Ok(data) => client.after_search(status, body, Some(&data)),
                    Err(_) => client.after_search(status, body, None),
                }
            }
        },
        Progress::Deleted(Reply::Failed(error)) => Step::Done(Err(CustomError::Reqwest(error))),
        Progress::Deleted(Reply::Response { .. }) => Step::Done(Ok(Outcome::Deleted)),
    }
}

/// A search that is answered with 200 and an empty list of contacts ends the
/// exchange: nothing is deleted.
pub proof fn lemma_nothing_found_nothing_deleted(client: &Client, body: Seq<char>, data: JsonView)
    requires
        data.member("contacts"@) == Some(JsonView::Array(Seq::empty())),
    ensures
        client.step_after_search(200, body, Some(data)) == StepView::Done(
            Ok(OutcomeView::NotFound),
        ),
{
}

/// A search that is answered with 200 and a list of contacts whose first
/// has the identifier `id` is followed by the delete of `id`, and whatever
/// comes back for that delete ends the exchange: one delete is sent, and no
/// second one.
pub proof fn lemma_first_contact_deleted_once(
    client: &Client,
    email: Seq<char>,
    body: Seq<char>,
    data: JsonView,
    contacts: Seq<JsonView>,
    id: Seq<char>,
    reply: Reply,
)
    requires
        data.member("contacts"@) == Some(JsonView::Array(contacts)),
        contacts.len() > 0,
        contacts[0].member("id"@) == Some(JsonView::String(id)),
    ensures
        client.step_after_search(200, body, Some(data)) == StepView::Delete(
            client.delete_request(id),
        ),
        client.next_step(email, Progress::Deleted(reply)) is Done,
{
}

/// The identifier of the contact that a response to a create holds: the
/// string `contact.id`, where there is one.
pub open spec fn created_id_of(data: JsonView) -> Option<Seq<char>> {
    match data.member("contact"@) {
        Some(contact) => match contact.member("id"@) {
            Some(id) => id.text(),
            None => None,
        },
        None => None,
    }
}

/// What a response to a create holds: its status, the identifier of the
/// contact, and the whole document.
#[derive(Debug, PartialEq)]
pub struct ContactResponse {
    pub status: u16,
    pub id: String,
    pub data: Json,
}

impl ContactResponse {
    /// What the response with the status `status` and the document `data`
    /// holds, or `None` where the document names no contact.
    pub fn from_json(status: u16, data: Json) -> (response: Option<ContactResponse>)
        ensures
            match response {
                Some(read) => read.status == status && read.data == data && created_id_of(data@)
                    == Some(read.id@),
                None => created_id_of(data@) is None,
            },
    {
        let id = match data.get("contact") {
            Some(contact) => match contact.get("id") {
                Some(id) => match id.as_str() {
                    Some(text) => String::from_str(text),
                    None => {
                        return None;
                    },
                },
                None => {
                    return None;
                },
            },
            None => {
                return None;
            },
        };
        Some(ContactResponse { status, id, data })
    }

    /// What the response with the status `status` and the body `body`
    /// holds, or `None` where the body is no JSON document or names no
    /// contact.
    pub fn new(status: u16, body: &str) -> (response: Option<ContactResponse>)
        ensures
            match response {
                Some(read) => read.status == status && parsed_text(body@) == Some(read.data@)
                    && created_id_of(read.data@) == Some(read.id@),
                None => match parsed_text(body@) {
                    Some(data) => created_id_of(data) is None,
                    None => true,
                },
            },
    {
        match Json::parse(body) {
            Ok(data) => ContactResponse::from_json(status, data),
            Err(_) => None,
        }
    }
}

} // verus!
