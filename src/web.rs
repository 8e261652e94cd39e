//! Answering a WebFinger query from the directory's index, and the bodies and
//! status codes that the answers are rendered with.

use vstd::prelude::*;
use crate::directory::WebState;

verus! {

/// The two parameters of a query.
pub struct WebfingerParams {
    pub rel: String,
    pub resource: String,
}

/// A query that lacks one of its parameters.
pub enum QueryError {
    MissingRel,
    MissingResource,
}

/// One link of an answer.
pub struct WebfingerResponseLinks {
    pub rel: String,
    pub href: String,
}

/// The answer for an account that the directory holds.
pub struct WebfingerResponse {
    pub subject: String,
    pub links: Vec<WebfingerResponseLinks>,
}

/// The answer for an account that the directory does not hold; it carries the
/// email address that was looked up.
pub enum WebfingerError {
    UserNotFound(String),
}

/// The body of a failed answer.
pub struct ErrorResponse {
    pub message: String,
}

/// What a link stands for: its relation and its target.
pub type LinkView = (Seq<char>, Seq<char>);

/// What an answer stands for: its subject and its links.
pub type ResponseView = (Seq<char>, Seq<LinkView>);

impl View for WebfingerResponseLinks {
    type V = LinkView;

    open spec fn view(&self) -> LinkView {
        (self.rel@, self.href@)
    }
}

impl View for WebfingerResponse {
    type V = ResponseView;

    open spec fn view(&self) -> ResponseView {
        (self.subject@, self.links@.map_values(|l: WebfingerResponseLinks| l@))
    }
}

impl View for WebfingerError {
    type V = Seq<char>;

    open spec fn view(&self) -> Seq<char> {
        match self {
            WebfingerError::UserNotFound(email) => email@,
        }
    }
}

/// The URI scheme prefix of an account identifier.
pub open spec fn acct_prefix() -> Seq<char> {
    seq!['a', 'c', 'c', 't', ':']
}

/// The email address that an identifier names: the identifier with one leading
/// `acct:` removed, or the identifier itself where it has none.
pub open spec fn normalized(resource: Seq<char>) -> Seq<char> {
    if resource.len() >= acct_prefix().len() && resource.take(5) == acct_prefix() {
        resource.skip(5)
    } else {
        resource
    }
}

/// The answer to a query for `resource` with relation `rel`, given the index
/// and the callback URL: the subject echoes the identifier as given, and the
/// one link points at the callback; where the index lacks the address, the
/// failure carries the address.
pub open spec fn resolve(
    directory: Map<Seq<char>, Seq<char>>,
    callback: Seq<char>,
    rel: Seq<char>,
    resource: Seq<char>,
) -> Result<ResponseView, Seq<char>> {
    if directory.contains_key(normalized(resource)) {
        Ok((resource, seq![(rel, callback)]))
    } else {
        Err(normalized(resource))
    }
}

/// What a result of `webfinger` stands for.
pub open spec fn outcome(r: Result<WebfingerResponse, WebfingerError>) -> Result<ResponseView, Seq<char>> {
    match r {
        Ok(resp) => Ok(resp@),
        Err(e) => Err(e@),
    }
}

/// The message of a failure for `email`.
pub open spec fn not_found_message(email: Seq<char>) -> Seq<char> {
    "No user with email address "@ + email + " exists"@
}

impl WebfingerParams {
    /// Takes the parameters of a query as they came; a query without `rel`, or
    /// else without `resource`, is refused.
    pub fn from_query(rel: Option<String>, resource: Option<String>) -> (r: Result<Self, QueryError>)
        ensures
            rel is None ==> r == Err::<Self, QueryError>(QueryError::MissingRel),
            rel is Some && resource is None ==> r == Err::<Self, QueryError>(QueryError::MissingResource),
            rel is Some && resource is Some ==> (r matches Ok(p)
                && p.rel == rel->Some_0 && p.resource == resource->Some_0),
    {
        match rel {
            None => Err(QueryError::MissingRel),
            Some(rel) => match resource {
                None => Err(QueryError::MissingResource),
                Some(resource) => Ok(WebfingerParams { rel, resource }),
            },
        }
    }
}

/// The status code of a refused query.
pub const BAD_REQUEST: u16 = 400;

/// The status code of a query for an unknown account.
pub const NOT_FOUND: u16 = 404;

/// The message of a refused query that lacks the parameter `name`.
pub open spec fn missing_message(name: Seq<char>) -> Seq<char> {
    "Failed to deserialize query string: missing field `"@ + name + "`"@
}

impl QueryError {
    /// The name of the parameter that the query lacks.
    pub fn field(&self) -> (r: &'static str)
        ensures
            r@ == match self {
                QueryError::MissingRel => "rel"@,
                QueryError::MissingResource => "resource"@,
            },
    {
        match self {
            QueryError::MissingRel => "rel",
            QueryError::MissingResource => "resource",
        }
    }

    /// The status code and body that a refused query is answered with.
    pub fn into_response(self) -> (r: (u16, ErrorResponse))
        ensures
            r.0 == BAD_REQUEST,
            r.1.message@ == missing_message(match self {
                QueryError::MissingRel => "rel"@,
                QueryError::MissingResource => "resource"@,
            }),
    {
        let mut message = String::from_str("Failed to deserialize query string: missing field `");
        message.append(self.field());
        message.append("`");
        (BAD_REQUEST, ErrorResponse { message })
    }
}

impl WebfingerError {
    /// The status code and body that a query for an unknown account is
    /// answered with.
    pub fn into_response(self) -> (r: (u16, ErrorResponse))
        ensures
            r.0 == NOT_FOUND,
            r.1.message@ == not_found_message(self@),
    {
        match self {
            WebfingerError::UserNotFound(email) => {
                let mut message = String::from_str("No user with email address ");
                message.append(email.as_str());
                message.append(" exists");
                (NOT_FOUND, ErrorResponse { message })
            },
        }
    }
}

/// The email address that `resource` names.
pub fn normalize(resource: &String) -> (r: String)
    ensures
        r@ == normalized(resource@),
{
    let s = resource.as_str();
    let n = s.unicode_len();
    if n >= 5 && s.get_char(0) == 'a' && s.get_char(1) == 'c' && s.get_char(2) == 'c'
        && s.get_char(3) == 't' && s.get_char(4) == ':' {
        assert(resource@.take(5) =~= acct_prefix());
        String::from_str(s.substring_char(5, n))
    } else {
        assert(n >= 5 ==> resource@.take(5) != acct_prefix()) by {
            if n >= 5 && resource@.take(5) == acct_prefix() {
                assert(resource@[0] == resource@.take(5)[0]);
                assert(resource@[1] == resource@.take(5)[1]);
                assert(resource@[2] == resource@.take(5)[2]);
                assert(resource@[3] == resource@.take(5)[3]);
                assert(resource@[4] == resource@.take(5)[4]);
            }
        };
        resource.clone()
    }
}

/// Answers a query from `data`.
pub fn webfinger(params: &WebfingerParams, data: &WebState) -> (r: Result<WebfingerResponse, WebfingerError>)
    ensures
        outcome(r) == resolve(data.directory(), data.callback(), params.rel@, params.resource@),
{
    let request_email_addr = normalize(&params.resource);
    let valid_user = data.lookup(&request_email_addr).is_some();
    if valid_user {
        let link = WebfingerResponseLinks { rel: params.rel.clone(), href: data.auth_url() };
        let links = vec![link];
        let resp = WebfingerResponse { subject: params.resource.clone(), links };
        assert(resp@.1 =~= seq![(params.rel@, data.callback())]);
        Ok(resp)
    } else {
        Err(WebfingerError::UserNotFound(request_email_addr))
    }
}

} // verus!
