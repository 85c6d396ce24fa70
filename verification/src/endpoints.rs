//! The endpoint table of the contact API and the request builder driven by it.
//!
//! Each endpoint is declared once: the resource that owns it, its name, its
//! verb, its URL template and its parameters in order. A builder holds the
//! table and a base URL, and turns a declared endpoint and the arguments of a
//! call into a request that has not been sent.

use crate::request::{copy_pairs, pairs_view, Method, Request, RequestView};
use crate::template::{join, lemma_resolve_plain, resolve, resolve_template, texts};
use vstd::prelude::*;

verus! {

/// The declaration of one operation of the API.
#[derive(Debug, PartialEq, Eq)]
pub struct Endpoint {
    pub resource: String,
    pub name: String,
    pub method: Method,
    pub template: String,
    pub params: Vec<String>,
}

/// What an [`Endpoint`] declares.
pub struct EndpointView {
    pub resource: Seq<char>,
    pub name: Seq<char>,
    pub method: Method,
    pub template: Seq<char>,
    pub params: Seq<Seq<char>>,
}

impl View for Endpoint {
    type V = EndpointView;

    open spec fn view(&self) -> EndpointView {
        EndpointView {
            resource: self.resource@,
            name: self.name@,
            method: self.method,
            template: self.template@,
            params: texts(self.params@),
        }
    }
}

impl EndpointView {
    /// The name under which the endpoint is called: the resource, an
    /// underscore, the endpoint's own name.
    pub open spec fn function_name(self) -> Seq<char> {
        self.resource + seq!['_'] + self.name
    }

    /// The path below the base URL for a call with the arguments `args`:
    /// the template with the arguments in place of its placeholders. `None`
    /// where the number of arguments is not that of the declared parameters,
    /// or the template cannot be resolved with them.
    pub open spec fn path(self, args: Seq<Seq<char>>) -> Option<Seq<char>> {
        if args.len() == self.params.len() {
            resolve(self.template, self.params, args, 0)
        } else {
            None
        }
    }

    /// The URL of a call: the base URL, a slash, the path.
    pub open spec fn url(self, base_url: Seq<char>, args: Seq<Seq<char>>) -> Option<Seq<char>> {
        join(base_url + seq!['/'], self.path(args))
    }

    /// The request of a call: the declared verb on the URL of the call, with
    /// the given headers and nothing else attached.
    pub open spec fn request(
        self,
        base_url: Seq<char>,
        headers: Seq<(Seq<char>, Seq<char>)>,
        args: Seq<Seq<char>>,
    ) -> Option<RequestView> {
        match self.url(base_url, args) {
            Some(url) => Some(RequestView::bare(self.method, url, headers)),
            None => None,
        }
    }
}

impl Endpoint {
    /// Declares an endpoint.
    pub fn new(resource: &str, name: &str, method: Method, template: &str, params: Vec<String>) -> (endpoint:
        Endpoint)
        ensures
            endpoint@ == (EndpointView {
                resource: resource@,
                name: name@,
                method,
                template: template@,
                params: texts(params@),
            }),
    {
        Endpoint {
            resource: String::from_str(resource),
            name: String::from_str(name),
            method,
            template: String::from_str(template),
            params,
        }
    }

    /// The name under which the endpoint is called.
    pub fn function_name(&self) -> (name: String)
        ensures
            name@ == self@.function_name(),
    {
        let mut name = self.resource.clone();
        name.append("_");
        name.append(self.name.as_str());
        proof {
            reveal_strlit("_");
            assert("_"@ =~= seq!['_']);
        }
        name
    }

    /// The request of a call of this endpoint below `base_url` with the
    /// arguments `args`, carrying `headers`.
    pub fn request(&self, base_url: &str, headers: &Vec<(String, String)>, args: &Vec<String>) -> (request:
        Option<Request>)
        ensures
            match request {
                Some(built) => self@.request(base_url@, pairs_view(headers@), texts(args@)) == Some(
                    built@,
                ),
                None => self@.request(base_url@, pairs_view(headers@), texts(args@)) is None,
            },
    {
        if args.len() != self.params.len() {
            return None;
        }
        match resolve_template(self.template.as_str(), &self.params, args) {
            Some(path) => {
                let mut url = String::from_str(base_url);
                url.append("/");
                url.append(path.as_str());
                proof {
                    reveal_strlit("/");
                    assert("/"@ =~= seq!['/']);
                }
                Some(Request::new(self.method, url, copy_pairs(headers)))
            },
            None => None,
        }
    }
}

/// The endpoints of the contact API, in the order of their declaration.
pub open spec fn declared() -> Seq<EndpointView> {
    seq![
        EndpointView {
            resource: "contact"@,
            name: "search"@,
            method: Method::Get,
            template: "contacts"@,
            params: Seq::empty(),
        },
        EndpointView {
            resource: "contact"@,
            name: "get"@,
            method: Method::Get,
            template: "contacts/{}"@,
            params: seq!["id"@],
        },
        EndpointView {
            resource: "contact"@,
            name: "delete"@,
            method: Method::Delete,
            template: "contacts/{}"@,
            params: seq!["id"@],
        },
        EndpointView {
            resource: "contact"@,
            name: "create"@,
            method: Method::Post,
            template: "contacts"@,
            params: Seq::empty(),
        },
        EndpointView {
            resource: "contact"@,
            name: "sync"@,
            method: Method::Post,
            template: "contact/sync"@,
            params: Seq::empty(),
        },
    ]
}

/// Where `contact_search` stands in the table.
pub const SEARCH: usize = 0;

/// Where `contact_get` stands in the table.
pub const GET: usize = 1;

/// Where `contact_delete` stands in the table.
pub const DELETE: usize = 2;

/// Where `contact_create` stands in the table.
pub const CREATE: usize = 3;

/// Where `contact_sync` stands in the table.
pub const SYNC: usize = 4;

/// What a list of endpoints declares.
pub open spec fn endpoints_view(endpoints: Seq<Endpoint>) -> Seq<EndpointView> {
    endpoints.map_values(|endpoint: Endpoint| endpoint@)
}

/// The parameter list of an endpoint that takes an `id`.
fn id_param() -> (params: Vec<String>)
    ensures
        texts(params@) == seq!["id"@],
{
    let mut params: Vec<String> = Vec::new();
    params.push(String::from_str("id"));
    proof {
        assert(texts(params@) =~= seq!["id"@]);
    }
    params
}

/// The table of the contact API.
pub fn declare() -> (endpoints: Vec<Endpoint>)
    ensures
        endpoints_view(endpoints@) == declared(),
{
    let mut endpoints: Vec<Endpoint> = Vec::new();
    let none: Vec<String> = Vec::new();
    proof {
        assert(texts(none@) =~= Seq::empty());
    }
    endpoints.push(Endpoint::new("contact", "search", Method::Get, "contacts", none));
    endpoints.push(Endpoint::new("contact", "get", Method::Get, "contacts/{}", id_param()));
    endpoints.push(Endpoint::new("contact", "delete", Method::Delete, "contacts/{}", id_param()));
    let none: Vec<String> = Vec::new();
    proof {
        assert(texts(none@) =~= Seq::empty());
    }
    endpoints.push(Endpoint::new("contact", "create", Method::Post, "contacts", none));
    let none: Vec<String> = Vec::new();
    proof {
        assert(texts(none@) =~= Seq::empty());
    }
    endpoints.push(Endpoint::new("contact", "sync", Method::Post, "contact/sync", none));
    proof {
        assert(endpoints_view(endpoints@) =~= declared());
    }
    endpoints
}

/// The paths of the declared endpoints: a template without a placeholder is
/// the path, and `contacts/{}` is `contacts/` followed by the identifier as
/// it was given.
pub proof fn lemma_declared_paths(id: Seq<char>)
    ensures
        declared()[SEARCH as int].path(Seq::empty()) == Some("contacts"@),
        declared()[GET as int].path(seq![id]) == Some("contacts/"@ + id),
        declared()[DELETE as int].path(seq![id]) == Some("contacts/"@ + id),
        declared()[CREATE as int].path(Seq::empty()) == Some("contacts"@),
        declared()[SYNC as int].path(Seq::empty()) == Some("contact/sync"@),
{
    reveal_strlit("contacts");
    reveal_strlit("contacts/");
    reveal_strlit("contacts/{}");
    reveal_strlit("contact/sync");
    let none = Seq::<Seq<char>>::empty();
    let plain = "contacts"@;
    lemma_resolve_plain(plain, none, none, 0, 8);
    assert(plain.take(8) =~= plain);
    assert(plain.take(8) + Seq::<char>::empty() =~= plain);
    let sync = "contact/sync"@;
    lemma_resolve_plain(sync, none, none, 0, 12);
    assert(sync.take(12) =~= sync);
    assert(sync.take(12) + Seq::<char>::empty() =~= sync);
    let by_id = "contacts/{}"@;
    let names = seq!["id"@];
    let values = seq![id];
    lemma_resolve_plain(by_id, names, values, 0, 9);
    let hole = by_id.skip(9);
    assert(by_id.take(9) =~= "contacts/"@);
    assert(hole =~= seq!['{', '}']);
    assert(hole.subrange(1, 1) =~= Seq::<char>::empty());
    assert(hole.skip(2) =~= Seq::<char>::empty());
    assert(resolve(hole, names, values, 0) == Some(id + Seq::<char>::empty())) by {
        reveal_with_fuel(crate::template::find_from, 2);
        reveal_with_fuel(resolve, 2);
    }
    assert(id + Seq::<char>::empty() =~= id);
}

/// The names under which the declared endpoints are called: the resource
/// `contact`, an underscore, and the name of the endpoint.
pub proof fn lemma_declared_names()
    ensures
        declared()[SEARCH as int].function_name() == "contact_search"@,
        declared()[GET as int].function_name() == "contact_get"@,
        declared()[DELETE as int].function_name() == "contact_delete"@,
        declared()[CREATE as int].function_name() == "contact_create"@,
        declared()[SYNC as int].function_name() == "contact_sync"@,
{
    reveal_strlit("contact");
    reveal_strlit("search");
    reveal_strlit("get");
    reveal_strlit("delete");
    reveal_strlit("create");
    reveal_strlit("sync");
    reveal_strlit("contact_search");
    reveal_strlit("contact_get");
    reveal_strlit("contact_delete");
    reveal_strlit("contact_create");
    reveal_strlit("contact_sync");
    assert("contact"@ + seq!['_'] + "search"@ =~= "contact_search"@);
    assert("contact"@ + seq!['_'] + "get"@ =~= "contact_get"@);
    assert("contact"@ + seq!['_'] + "delete"@ =~= "contact_delete"@);
    assert("contact"@ + seq!['_'] + "create"@ =~= "contact_create"@);
    assert("contact"@ + seq!['_'] + "sync"@ =~= "contact_sync"@);
}

/// The request builder of the contact API: a base URL, the headers that
/// every request carries, and the endpoint table.
pub struct ActiveCampaignBuilder {
    base_url: String,
    headers: Vec<(String, String)>,
    endpoints: Vec<Endpoint>,
}

impl ActiveCampaignBuilder {
    #[verifier::type_invariant]
    spec fn holds_the_table(&self) -> bool {
        endpoints_view(self.endpoints@) == declared()
    }

    /// The base URL that every request of this builder starts with.
    pub closed spec fn base_url(&self) -> Seq<char> {
        self.base_url@
    }

    /// The headers that every request of this builder carries.
    pub closed spec fn headers(&self) -> Seq<(Seq<char>, Seq<char>)> {
        pairs_view(self.headers@)
    }

    /// The request that this builder makes for the declared endpoint at
    /// `index` of the table, called with `args`.
    pub open spec fn declared_request(&self, index: int, args: Seq<Seq<char>>) -> Option<
        RequestView,
    > {
        declared()[index].request(self.base_url(), self.headers(), args)
    }

    /// A builder for the API below `base_url`. Its requests carry `headers`,
    /// or no header where none are given.
    pub fn new(base_url: &str, headers: Option<Vec<(String, String)>>) -> (builder: Self)
        ensures
            builder.base_url() == base_url@,
            builder.headers() == match headers {
                Some(given) => pairs_view(given@),
                None => Seq::empty(),
            },
    {
        let headers = match headers {
            Some(given) => given,
            None => {
                let empty: Vec<(String, String)> = Vec::new();
                proof {
                    assert(pairs_view(empty@) =~= Seq::empty());
                }
                empty
            },
        };
        ActiveCampaignBuilder { base_url: String::from_str(base_url), headers, endpoints: declare() }
    }

    /// The base URL of this builder.
    pub fn get_base_url(&self) -> (base_url: &str)
        ensures
            base_url@ == self.base_url(),
    {
        self.base_url.as_str()
    }

    /// The headers that every request of this builder carries.
    pub fn get_headers(&self) -> (headers: Vec<(String, String)>)
        ensures
            pairs_view(headers@) == self.headers(),
    {
        copy_pairs(&self.headers)
    }

    /// The request of the declared endpoint at `index`, called with `args`.
    fn build(&self, index: usize, args: &Vec<String>) -> (request: Request)
        requires
            index < declared().len(),
            self.declared_request(index as int, texts(args@)) is Some,
        ensures
            Some(request@) == self.declared_request(index as int, texts(args@)),
    {
        proof {
            use_type_invariant(self);
            assert(endpoints_view(self.endpoints@)[index as int] == self.endpoints@[index as int]@);
        }
        match self.endpoints[index].request(self.base_url.as_str(), &self.headers, args) {
            Some(request) => request,
            None => {
                proof {
                    assert(false);
                }
                Request::new(Method::Get, String::new(), Vec::new())
            },
        }
    }

    /// `GET {base}/contacts`: lists or searches contacts.
    pub fn contact_search(&self) -> (request: Request)
        ensures
            Some(request@) == self.declared_request(SEARCH as int, Seq::empty()),
            request@ == RequestView::bare(
                Method::Get,
                self.base_url() + "/contacts"@,
                self.headers(),
            ),
    {
        let args: Vec<String> = Vec::new();
        proof {
            lemma_declared_paths(Seq::empty());
            lemma_url(self.base_url(), Seq::empty());
            assert(texts(args@) =~= Seq::empty());
        }
        self.build(SEARCH, &args)
    }

    /// `GET {base}/contacts/{id}`: fetches the contact `id`.
    pub fn contact_get(&self, id: &str) -> (request: Request)
        ensures
            Some(request@) == self.declared_request(GET as int, seq![id@]),
            request@ == RequestView::bare(
                Method::Get,
                self.base_url() + "/contacts/"@ + id@,
                self.headers(),
            ),
    {
        let mut args: Vec<String> = Vec::new();
        args.push(String::from_str(id));
        proof {
            lemma_declared_paths(id@);
            lemma_url(self.base_url(), id@);
            assert(texts(args@) =~= seq![id@]);
        }
        self.build(GET, &args)
    }

    /// `DELETE {base}/contacts/{id}`: deletes the contact `id`.
    pub fn contact_delete(&self, id: &str) -> (request: Request)
        ensures
            Some(request@) == self.declared_request(DELETE as int, seq![id@]),
            request@ == RequestView::bare(
                Method::Delete,
                self.base_url() + "/contacts/"@ + id@,
                self.headers(),
            ),
    {
        let mut args: Vec<String> = Vec::new();
        args.push(String::from_str(id));
        proof {
            lemma_declared_paths(id@);
            lemma_url(self.base_url(), id@);
            assert(texts(args@) =~= seq![id@]);
        }
        self.build(DELETE, &args)
    }

    /// `POST {base}/contacts`: creates a contact.
    pub fn contact_create(&self) -> (request: Request)
        ensures
            Some(request@) == self.declared_request(CREATE as int, Seq::empty()),
            request@ == RequestView::bare(
                Method::Post,
                self.base_url() + "/contacts"@,
                self.headers(),
            ),
    {
        let args: Vec<String> = Vec::new();
        proof {
            lemma_declared_paths(Seq::empty());
            lemma_url(self.base_url(), Seq::empty());
            assert(texts(args@) =~= Seq::empty());
        }
        self.build(CREATE, &args)
    }

    /// `POST {base}/contact/sync`: creates or updates a contact.
    pub fn contact_sync(&self) -> (request: Request)
        ensures
            Some(request@) == self.declared_request(SYNC as int, Seq::empty()),
            request@ == RequestView::bare(
                Method::Post,
                self.base_url() + "/contact/sync"@,
                self.headers(),
            ),
    {
        let args: Vec<String> = Vec::new();
        proof {
            lemma_declared_paths(Seq::empty());
            lemma_url(self.base_url(), Seq::empty());
            assert(texts(args@) =~= Seq::empty());
        }
        self.build(SYNC, &args)
    }
}

/// The URLs of the declared endpoints, written out.
proof fn lemma_url(base_url: Seq<char>, id: Seq<char>)
    ensures
        (base_url + seq!['/']) + "contacts"@ == base_url + "/contacts"@,
        (base_url + seq!['/']) + "contact/sync"@ == base_url + "/contact/sync"@,
        (base_url + seq!['/']) + ("contacts/"@ + id) == base_url + "/contacts/"@ + id,
{
    reveal_strlit("contacts");
    reveal_strlit("/contacts");
    reveal_strlit("contact/sync");
    reveal_strlit("/contact/sync");
    reveal_strlit("contacts/");
    reveal_strlit("/contacts/");
    assert((base_url + seq!['/']) + "contacts"@ =~= base_url + "/contacts"@);
    assert((base_url + seq!['/']) + "contact/sync"@ =~= base_url + "/contact/sync"@);
    assert((base_url + seq!['/']) + ("contacts/"@ + id) =~= base_url + "/contacts/"@ + id);
}

} // verus!
