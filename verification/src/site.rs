//! Page-level decisions: the language of a session, where static content
//! is redirected, which posts a listing shows and which templates and files
//! are used.

use vstd::prelude::*;
use crate::text::{seq_contains, str_contains, without_char, remove_char, concat3};

verus! {

/// The content-network host that serves static files outside `local`.
pub const CONTENT_HOST: &'static str = "https://d19qt7p7fni613.cloudfront.net";

/// The listing of the most viewed posts.
pub const POPULAR_POSTS_QUERY: &'static str = "SELECT * FROM posts ORDER BY views DESC LIMIT 4";

/// The listing of the newest posts.
pub const RECENT_POSTS_QUERY: &'static str = "SELECT * FROM posts ORDER BY time_posted DESC LIMIT 8";

/// Where a request for a static file is redirected: the content host,
/// then `/<branch>` except for post images, then the requested path.
pub open spec fn content_redirect_spec(path: Seq<char>, branch: Seq<char>) -> Seq<char> {
    CONTENT_HOST@ + (if seq_contains(path, "post-images"@) { Seq::empty() } else { "/"@ + branch }) + path
}

/// The redirect target for a static file outside the `local` environment.
pub fn content_redirect_url(path: &str, branch: &str) -> (url: String)
    ensures
        url@ == content_redirect_spec(path@, branch@),
{
    let mut url = String::from_str(CONTENT_HOST);
    if !str_contains(path, "post-images") {
        url.append("/");
        url.append(branch);
    } else {
        proof {
            assert(url@ + Seq::<char>::empty() =~= url@);
        }
    }
    url.append(path);
    url
}

/// Where static files go: a path that does not mention `post-images` is
/// sent to the content host under `/<branch>` followed by the path itself;
/// a post-image path is sent to the content host followed by the path,
/// without the branch.
pub proof fn content_redirect_keeps_branch(path: Seq<char>, branch: Seq<char>)
    ensures
        !seq_contains(path, "post-images"@) ==> content_redirect_spec(path, branch)
            == CONTENT_HOST@ + "/"@ + branch + path,
        seq_contains(path, "post-images"@) ==> content_redirect_spec(path, branch) == CONTENT_HOST@ + path,
{
    assert(CONTENT_HOST@ + ("/"@ + branch) + path =~= CONTENT_HOST@ + "/"@ + branch + path);
    assert(CONTENT_HOST@ + Seq::<char>::empty() + path =~= CONTENT_HOST@ + path);
}

/// The session language, `GEO` when none was chosen.
pub fn session_language(lang: Option<String>) -> (l: String)
    ensures
        l@ == match lang {
            Some(s) => s@,
            None => "GEO"@,
        },
{
    match lang {
        Some(s) => s,
        None => String::from_str("GEO"),
    }
}

/// The language kept raw (JSON text) in the session, with its quotes taken
/// out; `ge` when none was chosen.
pub fn stored_language(raw: Option<String>) -> (l: String)
    ensures
        l@ == without_char(
            match raw {
                Some(s) => s@,
                None => "ge"@,
            },
            '"',
        ),
{
    match raw {
        Some(s) => remove_char(s.as_str(), '"'),
        None => remove_char("ge", '"'),
    }
}

/// The file holding the translations called `name`.
pub fn translations_path(name: &str) -> (p: String)
    ensures
        p@ == "./public/translations/"@ + name@ + ".json"@,
{
    concat3("./public/translations/", name, ".json")
}

/// The template of upload step `step`.
pub fn upload_step_template(step: &str) -> (t: String)
    ensures
        t@ == "components/upload_steps/upload_step"@ + step@ + ".html"@,
{
    concat3("components/upload_steps/upload_step", step, ".html")
}

/// The listing query for a posts component: the popular posts when the
/// requested path mentions `popular`, the newest posts otherwise.
pub fn posts_query(path: &str) -> (q: &'static str)
    ensures
        q == (if seq_contains(path@, "popular"@) { POPULAR_POSTS_QUERY } else { RECENT_POSTS_QUERY }),
{
    if str_contains(path, "popular") {
        POPULAR_POSTS_QUERY
    } else {
        RECENT_POSTS_QUERY
    }
}

/// The body of the analytics page when the report could not be read.
pub const REPORT_ERROR_BODY: &'static str = "Internal Server Error";

/// The analytics answer: the report page as it was read (status 200), or
/// status 500 with `REPORT_ERROR_BODY` when it could not be read.
pub fn report_response(report: Option<Vec<u8>>) -> (r: (u16, Option<Vec<u8>>))
    ensures
        r == (match report {
            Some(page) => (200u16, Some(page)),
            None => (500u16, None::<Vec<u8>>),
        }),
{
    match report {
        Some(page) => (200, Some(page)),
        None => (500, None),
    }
}

} // verus!
