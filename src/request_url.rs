//! A request URL held as the parts that signing reads and writes: everything
//! before the path, the path, the serialized query and the fragment.
use vstd::prelude::*;
use vstd::string::StringExecFns;
use vstd::utf8::{encode_utf8, is_ascii_chars};
use crate::encoding::{form_append, form_append_pair};

verus! {

#[verifier::external_type_specification]
#[verifier::external_body]
pub struct ExParseError(url::ParseError);

/// The model of a request URL.
pub struct UrlView {
    /// Scheme, authority and port: all that comes before the path.
    pub prefix: Seq<char>,
    pub path: Seq<char>,
    /// The query string without its `?`; `None` where the URL has no `?`.
    pub query: Option<Seq<char>>,
    /// The fragment without its `#`.
    pub fragment: Option<Seq<char>>,
}

pub open spec fn opt_view(s: Option<String>) -> Option<Seq<char>> {
    match s {
        Some(v) => Some(v@),
        None => None,
    }
}

impl UrlView {
    /// The query string, empty where the URL has none.
    pub open spec fn query_text(self) -> Seq<char> {
        match self.query {
            Some(q) => q,
            None => Seq::empty(),
        }
    }

    /// The URL with `name=value` appended to its query parameters.
    pub open spec fn with_pair(self, name: Seq<char>, value: Seq<char>) -> UrlView {
        UrlView {
            query: Some(form_append(self.query_text(), encode_utf8(name), encode_utf8(value))),
            ..self
        }
    }

    /// The URL with `/` and a segment appended to its path.
    pub open spec fn with_segment(self, segment: Seq<char>) -> UrlView {
        UrlView { path: self.path + seq!['/'] + segment, ..self }
    }

    /// The URL as text.
    pub open spec fn serialization(self) -> Seq<char> {
        let q: Seq<char> = match self.query {
            Some(q) => seq!['?'] + q,
            None => Seq::empty(),
        };
        let f: Seq<char> = match self.fragment {
            Some(f) => seq!['#'] + f,
            None => Seq::empty(),
        };
        self.prefix + self.path + q + f
    }
}

/// A URL that a request is sent to.
#[derive(Clone, Debug, PartialEq, Eq)]
pub struct RequestUrl {
    prefix: String,
    path: String,
    query: Option<String>,
    fragment: Option<String>,
}

/// The input could not be parsed as an absolute URL.
#[derive(Clone, Copy, Debug, PartialEq, Eq)]
pub struct InvalidUrl;

impl View for RequestUrl {
    type V = UrlView;

    closed spec fn view(&self) -> UrlView {
        UrlView {
            prefix: self.prefix@,
            path: self.path@,
            query: opt_view(self.query),
            fragment: opt_view(self.fragment),
        }
    }
}

/// Relies on url::Url::parse, and on the parsed URL's slicing at
/// `Position::BeforePath`, `path`, `query` and `fragment`, which split its
/// serialization into prefix, path, query and fragment; url documents path,
/// query and fragment as ASCII text.
#[verifier::external_body]
fn parse_parts(input: &str) -> (r: Result<(String, String, Option<String>, Option<String>), url::ParseError>)
    ensures
        r matches Ok(p) ==> is_ascii_chars(p.1@) && (p.2 matches Some(q) ==> is_ascii_chars(q@)),
{
    let url = url::Url::parse(input)?;
    Ok((
        url[..url::Position::BeforePath].to_string(),
        url.path().to_string(),
        url.query().map(|q| q.to_string()),
        url.fragment().map(|f| f.to_string()),
    ))
}

impl RequestUrl {
    /// Parses an absolute URL.
    pub fn parse(input: &str) -> (r: Result<RequestUrl, InvalidUrl>)
        ensures
            r matches Ok(u) ==> is_ascii_chars(u@.path) && is_ascii_chars(u@.query_text()),
    {
        match parse_parts(input) {
            Ok((prefix, path, query, fragment)) => Ok(RequestUrl { prefix, path, query, fragment }),
            Err(_) => Err(InvalidUrl),
        }
    }

    /// A URL of the given prefix and path, with no query and no fragment.
    pub fn from_parts(prefix: &str, path: &str) -> (r: RequestUrl)
        ensures
            r@ == (UrlView { prefix: prefix@, path: path@, query: None, fragment: None }),
    {
        RequestUrl {
            prefix: String::from_str(prefix),
            path: String::from_str(path),
            query: None,
            fragment: None,
        }
    }

    /// The path, percent-encoded.
    pub fn path(&self) -> (r: &str)
        ensures
            r@ == self@.path,
    {
        self.path.as_str()
    }

    /// The query string without its `?`, if the URL has one.
    pub fn query(&self) -> (r: Option<&str>)
        ensures
            r matches Some(q) ==> self@.query == Some(q@),
            r is None ==> self@.query is None,
    {
        match &self.query {
            Some(q) => Some(q.as_str()),
            None => None,
        }
    }

    /// Appends the pair `name=value` to the query, form-encoding both.
    pub fn append_pair(&mut self, name: &str, value: &str)
        ensures
            final(self)@ == old(self)@.with_pair(name@, value@),
    {
        let current = match &self.query {
            Some(q) => q.clone(),
            None => String::new(),
        };
        self.query = Some(form_append_pair(current, name, value));
    }

    /// Appends `/` and a segment to the path. The segment is taken as
    /// it stands, so it holds none of the characters that a path segment
    /// would have to escape.
    pub fn push_segment(&mut self, segment: &str)
        requires
            forall|i: int| 0 <= i < segment@.len() ==> is_plain_segment_char(#[trigger] segment@[i]),
        ensures
            final(self)@ == old(self)@.with_segment(segment@),
    {
        proof {
            reveal_strlit("/");
        }
        self.path.append("/");
        self.path.append(segment);
        assert(self@.path =~= old(self)@.path + seq!['/'] + segment@);
    }

    /// The URL as text.
    pub fn as_string(&self) -> (r: String)
        ensures
            r@ == self@.serialization(),
    {
        proof {
            reveal_strlit("?");
            reveal_strlit("#");
        }
        let mut s = self.prefix.clone();
        s.append(self.path.as_str());
        match &self.query {
            Some(q) => {
                s.append("?");
                s.append(q.as_str());
            },
            None => {},
        }
        match &self.fragment {
            Some(f) => {
                s.append("#");
                s.append(f.as_str());
            },
            None => {},
        }
        assert(s@ =~= self@.serialization());
        s
    }
}

/// ASCII letters, digits, `-`, `.`, `_`, `~` and `,`: characters that a path
/// segment holds unescaped.
pub open spec fn is_plain_segment_char(c: char) -> bool {
    ('a' <= c && c <= 'z') || ('A' <= c && c <= 'Z') || ('0' <= c && c <= '9') || c == '-'
        || c == '.' || c == '_' || c == '~' || c == ','
}

} // verus!
