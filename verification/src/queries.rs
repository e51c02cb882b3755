//! The query contract: the request and reply shapes exchanged with the
//! backend, and the extraction of their payloads.
//!
//! Replies nest optional objects; a reply missing an expected object at the
//! envelope level breaks the protocol contract. Each executable type has a
//! ghost counterpart (its view) over which the contracts speak.

use vstd::prelude::*;

use crate::error::MissingField;
use crate::error::WikiError;

verus! {

/// Arguments of the page listing query: an optional server-side tag filter.
#[derive(Debug)]
pub struct ListAllPagesArguments {
    pub tags: Option<Vec<String>>,
}

/// Reply envelope of the page listing query.
#[derive(Debug)]
pub struct ListAllPages {
    pub pages: Option<PageQuery>,
}

/// Payload of a successful page listing query.
#[derive(Debug)]
pub struct PageQuery {
    pub list: Vec<PageListItem>,
}

/// One page of the listing: identifier, full path, optional tag list and
/// optional title. An absent tag list and an empty one both mean "no tags".
#[derive(Debug)]
pub struct PageListItem {
    pub id: i32,
    pub path: String,
    pub tags: Option<Vec<Option<String>>>,
    pub title: Option<String>,
}

/// Ghost counterpart of [`PageListItem`].
pub ghost struct PageAbs {
    pub id: int,
    pub path: Seq<char>,
    pub tags: Option<Seq<Option<Seq<char>>>>,
    pub title: Option<Seq<char>>,
}

impl View for PageListItem {
    type V = PageAbs;

    open spec fn view(&self) -> PageAbs {
        PageAbs {
            id: self.id as int,
            path: self.path@,
            tags: self.tags.deep_view(),
            title: self.title.deep_view(),
        }
    }
}

/// Copies a tag list, keeping each entry's value.
fn duplicate_tags(v: &Vec<Option<String>>) -> (r: Vec<Option<String>>)
    ensures
        r@ == v@,
{
    let mut r: Vec<Option<String>> = Vec::new();
    let mut i: usize = 0;
    while i < v.len()
        invariant
            i <= v@.len(),
            r@ =~= v@.subrange(0, i as int),
        decreases v@.len() - i,
    {
        let entry: Option<String> = match &v[i] {
            Option::Some(t) => Option::Some(t.clone()),
            Option::None => Option::None,
        };
        r.push(entry);
        i = i + 1;
    }
    proof {
        assert(r@ =~= v@);
    }
    r
}

impl PageListItem {
    /// Copies a page, keeping its view.
    pub fn duplicate(&self) -> (r: PageListItem)
        ensures
            r@ == self@,
    {
        let tags: Option<Vec<Option<String>>> = match &self.tags {
            Option::Some(v) => Option::Some(duplicate_tags(v)),
            Option::None => Option::None,
        };
        let title: Option<String> = match &self.title {
            Option::Some(t) => Option::Some(t.clone()),
            Option::None => Option::None,
        };
        let r = PageListItem { id: self.id, path: self.path.clone(), tags, title };
        proof {
            match (&r.tags, &self.tags) {
                (Option::Some(rv), Option::Some(sv)) => {
                    assert(rv.deep_view() =~= sv.deep_view());
                },
                _ => {},
            }
        }
        r
    }
}

impl ResponseStatus {
    /// Copies a status, keeping its view.
    pub fn duplicate(&self) -> (r: ResponseStatus)
        ensures
            r@ == self@,
    {
        ResponseStatus {
            error_code: self.error_code,
            message: match &self.message {
                Option::Some(m) => Option::Some(m.clone()),
                Option::None => Option::None,
            },
            slug: self.slug.clone(),
            succeeded: self.succeeded,
        }
    }
}

/// Arguments of the single-page move mutation.
#[derive(Debug)]
pub struct MoveSinglePageArguments {
    pub destination_path: String,
    pub id: i32,
}

/// Ghost counterpart of [`MoveSinglePageArguments`].
pub ghost struct MoveArgsAbs {
    pub destination_path: Seq<char>,
    pub id: int,
}

impl View for MoveSinglePageArguments {
    type V = MoveArgsAbs;

    open spec fn view(&self) -> MoveArgsAbs {
        MoveArgsAbs { destination_path: self.destination_path@, id: self.id as int }
    }
}

/// Reply envelope of the single-page move mutation.
#[derive(Debug)]
pub struct MoveSinglePage {
    pub pages: Option<PageMutation>,
}

/// Payload of a page mutation reply.
#[derive(Debug)]
pub struct PageMutation {
    pub move_: Option<DefaultResponse>,
}

/// Wrapper around the response status of a mutation reply.
#[derive(Debug)]
pub struct DefaultResponse {
    pub response_result: Option<ResponseStatus>,
}

/// Per-request outcome reported by the backend.
#[derive(Debug)]
pub struct ResponseStatus {
    pub error_code: i32,
    pub message: Option<String>,
    pub slug: String,
    pub succeeded: bool,
}

/// Ghost counterpart of [`ResponseStatus`].
pub ghost struct StatusAbs {
    pub error_code: int,
    pub message: Option<Seq<char>>,
    pub slug: Seq<char>,
    pub succeeded: bool,
}

impl View for ResponseStatus {
    type V = StatusAbs;

    open spec fn view(&self) -> StatusAbs {
        StatusAbs {
            error_code: self.error_code as int,
            message: self.message.deep_view(),
            slug: self.slug@,
            succeeded: self.succeeded,
        }
    }
}

/// Reply envelope of the site title query.
#[derive(Debug)]
pub struct GetWikiTitle {
    pub site: Option<SiteQuery>,
}

/// Site object of a title reply.
#[derive(Debug)]
pub struct SiteQuery {
    pub config: Option<SiteConfig>,
}

/// Site configuration object of a title reply.
#[derive(Debug)]
pub struct SiteConfig {
    pub title: Option<String>,
}

/// The payload of a title reply, when every level of it is present.
pub open spec fn spec_title_of(reply: Option<GetWikiTitle>) -> Result<Seq<char>, WikiError> {
    match reply {
        Option::None => Result::Err(WikiError::BackendContract(MissingField::Data)),
        Option::Some(gwt) => match gwt.site {
            Option::None => Result::Err(WikiError::BackendContract(MissingField::Site)),
            Option::Some(sq) => match sq.config {
                Option::None => Result::Err(WikiError::BackendContract(MissingField::Config)),
                Option::Some(sc) => match sc.title {
                    Option::None => Result::Err(WikiError::BackendContract(MissingField::Title)),
                    Option::Some(t) => Result::Ok(t@),
                },
            },
        },
    }
}

/// Extracts the site title from a title reply, reporting the first missing
/// level as a contract violation.
pub fn extract_title(reply: Option<GetWikiTitle>) -> (r: Result<String, WikiError>)
    ensures
        match r {
            Result::Ok(t) => spec_title_of(reply) == Result::<Seq<char>, WikiError>::Ok(t@),
            Result::Err(e) => spec_title_of(reply) == Result::<Seq<char>, WikiError>::Err(e),
        },
{
    match reply {
        Option::None => Result::Err(WikiError::BackendContract(MissingField::Data)),
        Option::Some(gwt) => match gwt.site {
            Option::None => Result::Err(WikiError::BackendContract(MissingField::Site)),
            Option::Some(sq) => match sq.config {
                Option::None => Result::Err(WikiError::BackendContract(MissingField::Config)),
                Option::Some(sc) => match sc.title {
                    Option::None => Result::Err(WikiError::BackendContract(MissingField::Title)),
                    Option::Some(t) => Result::Ok(t),
                },
            },
        },
    }
}

} // verus!
