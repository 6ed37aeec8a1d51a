//! The HTTP requests of a run, described as plain data. Sending them is left
//! to the caller.

use vstd::prelude::*;
use vstd::utf8::encode_utf8;
use crate::config::{CGitea, CGiteaView};
use crate::text::{decimal, decimal_string, has_char};

verus! {

/// The method of a request.
#[derive(Debug, Clone, Copy, PartialEq, Eq)]
pub enum Method {
    Get,
    Post,
}

/// One header line: its name and its value.
#[derive(Debug, Clone, PartialEq, Eq)]
pub struct Header {
    pub name: String,
    pub value: String,
}

/// A request to send: method, absolute URL, headers in order and, for a
/// `Post`, the body.
#[derive(Debug, Clone, PartialEq, Eq)]
pub struct HttpRequest {
    pub method: Method,
    pub url: String,
    pub headers: Vec<Header>,
    pub body: Option<String>,
}

/// A request, with texts as sequences of characters and each header as a
/// pair of name and value.
pub struct HttpRequestView {
    pub method: Method,
    pub url: Seq<char>,
    pub headers: Seq<(Seq<char>, Seq<char>)>,
    pub body: Option<Seq<char>>,
}

impl View for Header {
    type V = (Seq<char>, Seq<char>);

    open spec fn view(&self) -> (Seq<char>, Seq<char>) {
        (self.name@, self.value@)
    }
}

impl View for HttpRequest {
    type V = HttpRequestView;

    open spec fn view(&self) -> HttpRequestView {
        HttpRequestView {
            method: self.method,
            url: self.url@,
            headers: self.headers@.map_values(|h: Header| h@),
            body: match self.body {
                Some(b) => Some(b@),
                None => None,
            },
        }
    }
}

/// Number of items asked for per page of a listing.
pub const PAGE_SIZE: usize = 100;

/// The listing endpoint `endpoint` narrowed to page `page`: the paging
/// parameters are appended with `&` where the endpoint already has a query,
/// with `?` where it has none.
pub open spec fn page_endpoint(endpoint: Seq<char>, page: nat) -> Seq<char> {
    if endpoint.contains('?') {
        endpoint + "&per_page=100&page="@ + decimal(page)
    } else {
        endpoint + "?per_page=100&page="@ + decimal(page)
    }
}

/// A `Get` of `endpoint` on the GitHub API, authorised by `token`.
pub open spec fn github_request(token: Seq<char>, endpoint: Seq<char>) -> HttpRequestView {
    HttpRequestView {
        method: Method::Get,
        url: "https://api.github.com"@ + endpoint,
        headers: seq![
            ("User-Agent"@, "teahub"@),
            ("Accept"@, "application/vnd.github+json"@),
            ("Authorization"@, "Bearer "@ + token),
            ("X-GitHub-Api-Version"@, "2022-11-28"@),
        ],
        body: None,
    }
}

/// A `Get` of `endpoint` on the API of the Gitea instance `gitea`.
pub open spec fn gitea_request(gitea: CGiteaView, endpoint: Seq<char>) -> HttpRequestView {
    HttpRequestView {
        method: Method::Get,
        url: gitea.url + "/api/v1"@ + endpoint,
        headers: seq![
            ("User-Agent"@, "teahub"@),
            ("Accept"@, "application/json"@),
            ("Authorization"@, "token "@ + gitea.token),
        ],
        body: None,
    }
}

/// The `Post` that asks the Gitea instance `gitea` to migrate a repository.
/// `body` is the JSON text of the migration options; `Content-Length` is its
/// length in bytes.
pub open spec fn migration_request(gitea: CGiteaView, body: Seq<char>) -> HttpRequestView {
    HttpRequestView {
        method: Method::Post,
        url: gitea.url + "/api/v1/repos/migrate"@,
        headers: seq![
            ("User-Agent"@, "teahub"@),
            ("Content-Length"@, decimal(encode_utf8(body).len())),
            ("Content-Type"@, "application/json"@),
            ("Authorization"@, "token "@ + gitea.token),
        ],
        body: Some(body),
    }
}

/// The concatenation of `a` and `b`.
pub fn join(a: &str, b: &str) -> (s: String)
    ensures
        s@ == a@ + b@,
{
    let mut s = String::from_str(a);
    s.append(b);
    s
}

fn header(name: &str, value: String) -> (h: Header)
    ensures
        h@ == (name@, value@),
{
    Header { name: String::from_str(name), value }
}

/// Appends the paging parameters for page `page` to `endpoint`.
pub fn paged(endpoint: &str, page: u64) -> (s: String)
    ensures
        s@ == page_endpoint(endpoint@, page as nat),
{
    let mut s = if has_char(endpoint, '?') {
        join(endpoint, "&per_page=100&page=")
    } else {
        join(endpoint, "?per_page=100&page=")
    };
    let number = decimal_string(page);
    s.append(number.as_str());
    s
}

/// Describes a `Get` of `endpoint` on the GitHub API.
pub fn get_github(token: &str, endpoint: &str) -> (request: HttpRequest)
    ensures
        request@ == github_request(token@, endpoint@),
{
    let mut headers: Vec<Header> = Vec::new();
    headers.push(header("User-Agent", String::from_str("teahub")));
    headers.push(header("Accept", String::from_str("application/vnd.github+json")));
    headers.push(header("Authorization", join("Bearer ", token)));
    headers.push(header("X-GitHub-Api-Version", String::from_str("2022-11-28")));
    let request = HttpRequest {
        method: Method::Get,
        url: join("https://api.github.com", endpoint),
        headers,
        body: None,
    };
    assert(request@.headers =~= github_request(token@, endpoint@).headers);
    request
}

/// Describes a `Get` of `endpoint` on the API of the Gitea instance `config`.
pub fn get_gitea(config: &CGitea, endpoint: &str) -> (request: HttpRequest)
    ensures
        request@ == gitea_request(config@, endpoint@),
{
    let mut headers: Vec<Header> = Vec::new();
    headers.push(header("User-Agent", String::from_str("teahub")));
    headers.push(header("Accept", String::from_str("application/json")));
    headers.push(header("Authorization", join("token ", config.token.as_str())));
    let mut url = join(config.url.as_str(), "/api/v1");
    url.append(endpoint);
    let request = HttpRequest { method: Method::Get, url, headers, body: None };
    assert(request@.headers =~= gitea_request(config@, endpoint@).headers);
    request
}

/// Describes the `Post` that hands the migration options, already written
/// out as the JSON text `body`, to the Gitea instance `config`.
pub fn migrate_request(config: &CGitea, body: String) -> (request: HttpRequest)
    ensures
        request@ == migration_request(config@, body@),
{
    let length = body.as_str().as_bytes().len();
    let mut headers: Vec<Header> = Vec::new();
    headers.push(header("User-Agent", String::from_str("teahub")));
    headers.push(header("Content-Length", decimal_string(length as u64)));
    headers.push(header("Content-Type", String::from_str("application/json")));
    headers.push(header("Authorization", join("token ", config.token.as_str())));
    let request = HttpRequest {
        method: Method::Post,
        url: join(config.url.as_str(), "/api/v1/repos/migrate"),
        headers,
        body: Some(body),
    };
    assert(request@.headers =~= migration_request(config@, body@).headers);
    request
}

} // verus!
