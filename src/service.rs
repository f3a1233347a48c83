use vstd::prelude::*;

use crate::shortener::{decimal, generate_short_url};
use crate::store::{code_for_url, live_url_for_code, MappingModel, UrlStore};

verus! {

/// The public link for `code` under `base`: `<base>/<code>`.
pub open spec fn short_url_of(base: Seq<char>, code: Seq<char>) -> Seq<char> {
    base + seq!['/'] + code
}

/// The page that explains an expired or unknown link: `<base>/timeout`.
pub open spec fn timeout_url_of(base: Seq<char>) -> Seq<char> {
    base + seq!['/', 't', 'i', 'm', 'e', 'o', 'u', 't']
}

/// The code that a create request for `url` at `now` answers with: the code
/// of an existing row for `url`, else a fresh one made from `now`.
pub open spec fn issued_code(rows: Seq<MappingModel>, url: Seq<char>, now: nat) -> Seq<char> {
    match code_for_url(rows, url) {
        Some(c) => c,
        None => decimal(now),
    }
}

/// The table after a create request for `url` at `now`: unchanged when `url`
/// has a row, else with the new row appended.
pub open spec fn rows_after_create(rows: Seq<MappingModel>, url: Seq<char>, now: nat) -> Seq<
    MappingModel,
> {
    match code_for_url(rows, url) {
        Some(c) => rows,
        None => rows.push(
            MappingModel { original_url: url, short_code: decimal(now), creation_time: now },
        ),
    }
}

/// The answer to a create request.
pub struct Urls {
    pub short_url: String,
    pub original_url: String,
}

/// What a create request does with the store.
pub enum CreatePlan {
    /// `original_url` already has a row: answer with its code.
    Reuse(String),
    /// Insert a row with this new code, then answer with it.
    Insert(String),
}

impl CreatePlan {
    /// The code that the request answers with.
    pub fn code(&self) -> (r: &String)
        ensures
            self matches CreatePlan::Reuse(c) ==> r == c,
            self matches CreatePlan::Insert(c) ==> r == c,
    {
        match self {
            CreatePlan::Reuse(c) => c,
            CreatePlan::Insert(c) => c,
        }
    }
}

/// Where a resolve request sends the visitor.
pub enum Redirect {
    /// To the original URL of a live mapping.
    ToOriginal(String),
    /// To the timeout page: the code is unknown or expired.
    ToTimeout,
}

impl View for Redirect {
    type V = Option<Seq<char>>;

    open spec fn view(&self) -> Option<Seq<char>> {
        match self {
            Redirect::ToOriginal(u) => Some(u@),
            Redirect::ToTimeout => None,
        }
    }
}

/// The `<base>/<code>` link.
pub fn short_url(base: &String, code: &String) -> (r: String)
    ensures
        r@ == short_url_of(base@, code@),
{
    let mut r = base.clone();
    r.append("/");
    r.append(code.as_str());
    proof {
        reveal_strlit("/");
    }
    assert(r@ =~= short_url_of(base@, code@));
    r
}

/// The `<base>/timeout` link.
pub fn timeout_url(base: &String) -> (r: String)
    ensures
        r@ == timeout_url_of(base@),
{
    let mut r = base.clone();
    r.append("/timeout");
    proof {
        reveal_strlit("/timeout");
    }
    assert(r@ =~= timeout_url_of(base@));
    r
}

impl Redirect {
    /// The URL to redirect to.
    pub fn location(&self, base: &String) -> (r: String)
        ensures
            self matches Redirect::ToOriginal(u) ==> r@ == u@,
            self is ToTimeout ==> r@ == timeout_url_of(base@),
    {
        match self {
            Redirect::ToOriginal(u) => u.clone(),
            Redirect::ToTimeout => timeout_url(base),
        }
    }
}

/// Decides a create request from the result of looking the original URL up:
/// reuse the code found, else insert one generated from `now_secs`.
pub fn plan_create(existing: Option<String>, now_secs: u64) -> (r: CreatePlan)
    ensures
        existing matches Some(c) ==> r == CreatePlan::Reuse(c),
        existing is None ==> (r matches CreatePlan::Insert(c) && c@ == decimal(now_secs as nat)),
{
    match existing {
        Some(c) => CreatePlan::Reuse(c),
        None => CreatePlan::Insert(generate_short_url(now_secs)),
    }
}

/// Decides a resolve request from the result of looking the code up among
/// live rows.
pub fn redirect_for(found: Option<String>) -> (r: Redirect)
    ensures
        found matches Some(u) ==> r == Redirect::ToOriginal(u),
        found is None ==> r is ToTimeout,
{
    match found {
        Some(u) => Redirect::ToOriginal(u),
        None => Redirect::ToTimeout,
    }
}

/// The answer to a create request for `original_url` that was given `code`.
pub fn make_response(base: &String, original_url: &String, code: &String) -> (r: Urls)
    ensures
        r.original_url@ == original_url@,
        r.short_url@ == short_url_of(base@, code@),
{
    Urls { short_url: short_url(base, code), original_url: original_url.clone() }
}

impl UrlStore {
    /// Handles a create request for `original_url` at `now`: reuses the code
    /// of the first row for that URL (expired or not), else inserts a row
    /// with a code made from `now`; answers with `<base>/<code>`.
    pub fn create_short(&mut self, base: &String, original_url: &String, now: u64) -> (r: Urls)
        ensures
            final(self)@ == rows_after_create(old(self)@, original_url@, now as nat),
            r.original_url@ == original_url@,
            r.short_url@ == short_url_of(base@, issued_code(old(self)@, original_url@, now as nat)),
    {
        let existing = self.find_code_by_original_url(original_url);
        let plan = plan_create(existing, now);
        match &plan {
            CreatePlan::Insert(code) => {
                self.insert_mapping(original_url, code, now);
            },
            CreatePlan::Reuse(_) => {},
        }
        make_response(base, original_url, plan.code())
    }

    /// Handles a resolve request for `code` at `now`: to the original URL of
    /// the first live row with that code, else to the timeout page.
    pub fn resolve(&self, code: &String, now: u64) -> (r: Redirect)
        ensures
            r@ == live_url_for_code(self@, code@, now as nat),
    {
        redirect_for(self.find_valid_original_url(code, now))
    }
}

} // verus!
