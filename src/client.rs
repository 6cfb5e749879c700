use vstd::prelude::*;
use crate::headers::{HeaderValue, HeaderValueModel, Headers};
use crate::error::opt_view;
use crate::form::{form_body, form_of};

verus! {

/// Per-call options that override the default request context.
#[derive(Clone, Debug)]
pub struct Params {
    /// The connected account on whose behalf requests are made.
    pub stripe_account: Option<String>,
}

impl Default for Params {
    fn default() -> (r: Params)
        ensures
            r.stripe_account is None,
    {
        Params { stripe_account: None }
    }
}

/// The methods the service's API uses.
#[derive(Clone, Copy, Debug, PartialEq, Eq)]
pub enum Method {
    Get,
    Post,
    Delete,
}

/// A request ready to be sent: built afresh for each call.
#[derive(Clone, Debug)]
pub struct Request {
    pub method: Method,
    pub url: String,
    pub headers: Headers,
    pub body: Option<String>,
}

/// Credentials and scoping options, from which requests are built.
#[derive(Clone, Debug)]
pub struct Client {
    pub secret_key: String,
    pub params: Params,
}

#[verifier::external_type_specification]
#[verifier::external_body]
pub struct ExUri(hyper::Uri);

/// Whether hyper's URI parser accepts the string.
pub uninterp spec fn uri_accepts(s: Seq<char>) -> bool;

/// Relies on hyper's `Uri::from_str`: whether it accepts a string depends on
/// the string alone.
#[verifier::external_body]
fn parse_uri(s: &str) -> (r: Option<hyper::Uri>)
    ensures
        r is Some == uri_accepts(s@),
{
    <hyper::Uri as std::str::FromStr>::from_str(s).ok()
}

impl Request {
    /// The request's address as a URI, or `None` where the URI parser
    /// rejects it (a resource path with characters that a URI cannot hold).
    pub fn target(&self) -> (r: Option<hyper::Uri>)
        ensures
            r is Some == uri_accepts(self.url@),
    {
        parse_uri(self.url.as_str())
    }
}

pub open spec fn api_base() -> Seq<char> {
    "https://api.stripe.com/v1/"@
}

pub open spec fn authorization_name() -> Seq<char> {
    "Authorization"@
}

pub open spec fn content_type_name() -> Seq<char> {
    "Content-Type"@
}

pub open spec fn account_name() -> Seq<char> {
    "Stripe-Account"@
}

pub open spec fn form_content_type() -> Seq<char> {
    "application/x-www-form-urlencoded"@
}

/// A resource path names a resource relative to the API's base address; it
/// starts with a separator.
pub open spec fn is_resource_path(path: Seq<char>) -> bool {
    path.len() >= 1 && path[0] == '/'
}

/// The address of a resource: the base address, then the path without its
/// leading separator.
pub open spec fn url_of(path: Seq<char>) -> Seq<char> {
    api_base() + path.subrange(1, path.len() as int)
}

/// The headers of every request made with secret `secret` and scoping account
/// `account`, in order.
pub open spec fn header_lines(secret: Seq<char>, account: Option<Seq<char>>) -> Seq<
    (Seq<char>, HeaderValueModel),
> {
    let base = seq![
        (authorization_name(), HeaderValueModel::Basic(secret)),
        (content_type_name(), HeaderValueModel::Text(form_content_type())),
    ];
    match account {
        Some(id) => base.push((account_name(), HeaderValueModel::Text(id))),
        None => base,
    }
}

impl Client {
    pub open spec fn account(&self) -> Option<Seq<char>> {
        opt_view(self.params.stripe_account)
    }

    /// `r` is the request that this client makes with `method` on `path`,
    /// carrying `body`.
    pub open spec fn builds(&self, r: Request, method: Method, path: Seq<char>, body: Option<Seq<char>>) -> bool {
        &&& r.method == method
        &&& r.url@ == url_of(path)
        &&& r.headers.wf()
        &&& r.headers.view() == header_lines(self.secret_key@, self.account())
        &&& opt_view(r.body) == body
    }

    /// The address of the resource at `path`.
    pub fn url(path: &str) -> (r: String)
        requires
            is_resource_path(path@),
        ensures
            r@ == url_of(path@),
    {
        let rest = path.substring_char(1, path.unicode_len());
        let mut url = String::from_str("https://api.stripe.com/v1/");
        url.append(rest);
        url
    }

    pub fn new(secret_key: &str) -> (r: Client)
        ensures
            r.secret_key@ == secret_key@,
            r.params.stripe_account is None,
    {
        Client { secret_key: String::from_str(secret_key), params: Params::default() }
    }

    /// A client with the same secret key and other params; this client is
    /// left as it is.
    pub fn with(&self, params: Params) -> (r: Client)
        ensures
            r.secret_key@ == self.secret_key@,
            r.params == params,
    {
        Client { secret_key: self.secret_key.clone(), params }
    }

    /// Scopes the requests of this client to the account `account_id`.
    pub fn set_stripe_account(&mut self, account_id: &str)
        ensures
            final(self).secret_key == old(self).secret_key,
            opt_view(final(self).params.stripe_account) == Some(account_id@),
    {
        self.params.stripe_account = Some(String::from_str(account_id));
    }

    /// Sets the authentication, content type and, where this client is scoped
    /// to an account, account headers, replacing any entries of those names.
    pub fn set_headers(&self, headers: &mut Headers)
        requires
            old(headers).wf(),
        ensures
            final(headers).wf(),
            final(headers).has(authorization_name(), HeaderValueModel::Basic(self.secret_key@)),
            final(headers).has(content_type_name(), HeaderValueModel::Text(form_content_type())),
            match self.account() {
                Some(id) => final(headers).has(account_name(), HeaderValueModel::Text(id)),
                None => final(headers).has_name(account_name()) == old(headers).has_name(
                    account_name(),
                ),
            },
            old(headers).view().len() == 0 ==> final(headers).view() == header_lines(
                self.secret_key@,
                self.account(),
            ),
            // setting them where they are already set changes nothing
            ({
                &&& old(headers).has(authorization_name(), HeaderValueModel::Basic(self.secret_key@))
                &&& old(headers).has(content_type_name(), HeaderValueModel::Text(form_content_type()))
                &&& (self.account() matches Some(id) ==> old(headers).has(
                    account_name(),
                    HeaderValueModel::Text(id),
                ))
            }) ==> final(headers).view() == old(headers).view(),
    {
        proof {
            reveal_strlit("Authorization");
            reveal_strlit("Content-Type");
            reveal_strlit("Stripe-Account");
            assert(authorization_name()[0] != content_type_name()[0]);
            assert(authorization_name()[0] != account_name()[0]);
            assert(content_type_name()[0] != account_name()[0]);
        }
        let ghost empty = headers.view().len() == 0;
        headers.set(String::from_str("Authorization"), HeaderValue::Basic(self.secret_key.clone()));
        proof {
            if empty {
                assert(headers.view() =~= seq![
                    (authorization_name(), HeaderValueModel::Basic(self.secret_key@)),
                ]);
                if headers.has_name(content_type_name()) {
                    let k = choose|k: int| 0 <= k < headers.view().len() && #[trigger] headers.view()[k].0 == content_type_name();
                    assert(k == 0);
                }
            }
        }
        headers.set(
            String::from_str("Content-Type"),
            HeaderValue::Text(String::from_str("application/x-www-form-urlencoded")),
        );
        proof {
            if empty {
                assert(headers.view() =~= header_lines(self.secret_key@, None));
                if headers.has_name(account_name()) {
                    let k = choose|k: int| 0 <= k < headers.view().len() && #[trigger] headers.view()[k].0 == account_name();
                }
            }
        }
        match &self.params.stripe_account {
            Some(account) => {
                headers.set(String::from_str("Stripe-Account"), HeaderValue::Text(account.clone()));
                proof {
                    if empty {
                        assert(headers.view() =~= header_lines(self.secret_key@, self.account()));
                    }
                }
            },
            None => {},
        }
    }

    fn request(&self, method: Method, path: &str, body: Option<String>) -> (r: Request)
        requires
            is_resource_path(path@),
        ensures
            self.builds(r, method, path@, opt_view(body)),
    {
        let url = Client::url(path);
        let mut headers = Headers::new();
        self.set_headers(&mut headers);
        Request { method, url, headers, body }
    }

    /// A GET request for the resource at `path`, with no body.
    pub fn get(&self, path: &str) -> (r: Request)
        requires
            is_resource_path(path@),
        ensures
            self.builds(r, Method::Get, path@, None),
    {
        self.request(Method::Get, path, None)
    }

    /// A POST request to `path` whose body is the form that `params`, the
    /// parameters encoded as a query string, make.
    pub fn post(&self, path: &str, params: &str) -> (r: Request)
        requires
            is_resource_path(path@),
        ensures
            self.builds(r, Method::Post, path@, Some(form_of(params@))),
    {
        self.request(Method::Post, path, Some(form_body(params)))
    }

    /// A POST request to `path` with no body.
    pub fn post_empty(&self, path: &str) -> (r: Request)
        requires
            is_resource_path(path@),
        ensures
            self.builds(r, Method::Post, path@, None),
    {
        self.request(Method::Post, path, None)
    }

    /// A DELETE request for the resource at `path`, with no body.
    pub fn delete(&self, path: &str) -> (r: Request)
        requires
            is_resource_path(path@),
        ensures
            self.builds(r, Method::Delete, path@, None),
    {
        self.request(Method::Delete, path, None)
    }
}

/// A request built by a client that is scoped to an account carries exactly
/// one account header, naming that account; one built by a client that is not
/// carries none.
pub proof fn lemma_account_header(
    c: Client,
    r: Request,
    method: Method,
    path: Seq<char>,
    body: Option<Seq<char>>,
)
    requires
        c.builds(r, method, path, body),
    ensures
        match c.account() {
            Some(id) => exists|k: int|
                0 <= k < r.headers.view().len() && r.headers.view()[k] == (
                    account_name(),
                    HeaderValueModel::Text(id),
                ) && forall|j: int|
                    0 <= j < r.headers.view().len() && (#[trigger] r.headers.view()[j]).0
                        == account_name() ==> j == k,
            None => forall|j: int|
                0 <= j < r.headers.view().len() ==> (#[trigger] r.headers.view()[j]).0
                    != account_name(),
        },
{
    reveal_strlit("Authorization");
    reveal_strlit("Content-Type");
    reveal_strlit("Stripe-Account");
    assert(authorization_name()[0] != account_name()[0]);
    assert(content_type_name()[0] != account_name()[0]);
    let v = r.headers.view();
    assert(v[0].0 == authorization_name());
    assert(v[1].0 == content_type_name());
    if let Some(id) = c.account() {
        assert(v[2] == (account_name(), HeaderValueModel::Text(id)));
    }
}

} // verus!
