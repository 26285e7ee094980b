//! The URL a request is aimed at, held by its parts.

use vstd::prelude::*;
use vstd::string::*;
use crate::text::text_of;
use url::{Position, Url};

verus! {

/// An absolute URL after parsing, split where a request builder needs it
/// split: at the query and at the fragment.
#[derive(Clone, Debug)]
pub struct Target {
    /// Everything up to the end of the path: scheme, authority and path.
    pub stem: String,
    /// The query without its leading `?`, if the URL has one.
    pub query: Option<String>,
    /// The fragment without its leading `#`, if the URL has one.
    pub fragment: Option<String>,
}

/// What a `Target` stands for.
pub struct TargetView {
    pub stem: Seq<char>,
    pub query: Option<Seq<char>>,
    pub fragment: Option<Seq<char>>,
}

impl View for Target {
    type V = TargetView;

    open spec fn view(&self) -> TargetView {
        TargetView {
            stem: self.stem@,
            query: text_of(self.query),
            fragment: text_of(self.fragment),
        }
    }
}

impl TargetView {
    /// The URL written out: the stem, then `?` and the query if there is one,
    /// then `#` and the fragment if there is one.
    pub open spec fn href(self) -> Seq<char> {
        self.stem + (match self.query {
            Some(q) => seq!['?'] + q,
            None => Seq::<char>::empty(),
        }) + (match self.fragment {
            Some(f) => seq!['#'] + f,
            None => Seq::<char>::empty(),
        })
    }

    /// The same URL with its query replaced.
    pub open spec fn with_query(self, query: Seq<char>) -> TargetView {
        TargetView { query: Some(query), ..self }
    }
}

/// The outcome of `url::Url::parse` on a string: the parts of the normalised
/// URL, or the parser's error.
pub uninterp spec fn url_parse(input: Seq<char>) -> Result<TargetView, url::ParseError>;

/// Parses an absolute URL with `url::Url::parse` and takes the parsed URL
/// apart. Trusted: the outcome is the value `url_parse` names; the stem is the
/// URL's text before `Position::AfterPath`, the query and fragment are what
/// `Url::query` and `Url::fragment` return.
#[verifier::external_body]
pub(crate) fn parse_url(input: &str) -> (res: Result<Target, url::ParseError>)
    ensures
        match res {
            Ok(target) => url_parse(input@) == Ok::<TargetView, url::ParseError>(target@),
            Err(e) => url_parse(input@) == Err::<TargetView, url::ParseError>(e),
        },
{
    match Url::parse(input) {
        Ok(url) => Ok(Target {
            stem: url[..Position::AfterPath].to_string(),
            query: url.query().map(String::from),
            fragment: url.fragment().map(String::from),
        }),
        Err(e) => Err(e),
    }
}

impl Target {
    /// Replaces the query, whatever it was, and keeps the rest.
    pub fn with_query(self, query: String) -> (res: Target)
        ensures
            res@ == self@.with_query(query@),
    {
        Target { stem: self.stem, query: Some(query), fragment: self.fragment }
    }

    /// Writes the URL out as one string.
    pub fn href(&self) -> (res: String)
        ensures
            res@ == self@.href(),
    {
        proof {
            reveal_strlit("?");
            reveal_strlit("#");
        }
        let mut out = self.stem.clone();
        match &self.query {
            Some(q) => {
                out.append("?");
                out.append(q.as_str());
            },
            None => {},
        }
        match &self.fragment {
            Some(f) => {
                out.append("#");
                out.append(f.as_str());
            },
            None => {},
        }
        out
    }
}

} // verus!
