use vstd::prelude::*;

use crate::error::BridgeError;
use crate::text::{concat, same_text};

verus! {

/// Most search results shown in one reply.
pub const MAX_RESULTS: usize = 5;

/// Reply to a search with an empty query.
pub const EMPTY_QUERY: &'static str = "Query is empty";

/// Reply to a fetch with an empty URL.
pub const EMPTY_URL: &'static str = "URL is empty";

/// Reply to a search whose backend gave nothing to show.
pub const NO_RESULTS: &'static str = "No results found";

/// A status line of an HTTP response.
pub struct HttpStatus {
    /// The numeric status code.
    pub code: u16,
    /// The status as shown to people, such as `404 Not Found`.
    pub display: String,
}

impl HttpStatus {
    /// Whether the status is in the success class (200 to 299).
    pub open spec fn success_spec(&self) -> bool {
        200 <= self.code && self.code <= 299
    }

    /// Whether the status is in the success class (200 to 299).
    pub fn is_success(&self) -> (r: bool)
        ensures
            r == self.success_spec(),
    {
        200 <= self.code && self.code <= 299
    }
}

/// One entry of the search backend's `results` array; a field that is absent
/// or not a string is `None`.
pub struct SearchEntry {
    pub title: Option<String>,
    pub content: Option<String>,
    pub url: Option<String>,
}

/// The text of an optional field, empty when absent.
pub open spec fn field_text(f: Option<String>) -> Seq<char> {
    match f {
        Some(s) => s@,
        None => Seq::empty(),
    }
}

/// The block shown for one search entry: a heading with the title, the
/// content, and a source line with the URL.
pub open spec fn entry_block(e: SearchEntry) -> Seq<char> {
    "### "@ + field_text(e.title) + "\n"@ + field_text(e.content) + "\nSource: "@ + field_text(
        e.url,
    ) + "\n\n"@
}

/// The blocks of all of `entries`, in order.
pub open spec fn entry_blocks(entries: Seq<SearchEntry>) -> Seq<char>
    decreases entries.len(),
{
    if entries.len() == 0 {
        Seq::empty()
    } else {
        entry_blocks(entries.drop_last()) + entry_block(entries.last())
    }
}

/// The text of a search reply: the blocks of the first `MAX_RESULTS` entries,
/// or a fixed notice when there is nothing to show.
pub open spec fn search_text(results: Option<Seq<SearchEntry>>) -> Seq<char> {
    let out = match results {
        Some(v) => entry_blocks(v.take(if v.len() < MAX_RESULTS { v.len() as int } else { MAX_RESULTS as int })),
        None => Seq::empty(),
    };
    if out.len() == 0 {
        NO_RESULTS@
    } else {
        out
    }
}

fn field_str(f: &Option<String>) -> (r: &str)
    ensures
        r@ == field_text(*f),
{
    proof {
        reveal_strlit("");
    }
    match f {
        Some(s) => s.as_str(),
        None => "",
    }
}

/// Formats the backend's `results` (`None` when the body has no such array)
/// as the text of a search reply.
pub fn format_search_results(results: &Option<Vec<SearchEntry>>) -> (r: String)
    ensures
        r@ == search_text(match results {
            Some(v) => Some(v@),
            None => None,
        }),
{
    let mut out = String::new();
    match results {
        Some(v) => {
            let n: usize = if v.len() < MAX_RESULTS { v.len() } else { MAX_RESULTS };
            let mut i: usize = 0;
            while i < n
                invariant
                    n <= v@.len(),
                    n == (if v@.len() < MAX_RESULTS { v@.len() } else { MAX_RESULTS as nat }),
                    i <= n,
                    out@ == entry_blocks(v@.take(i as int)),
                decreases n - i,
            {
                let e = &v[i];
                assert(v@.take(i + 1).drop_last() =~= v@.take(i as int));
                out.append("### ");
                out.append(field_str(&e.title));
                out.append("\n");
                out.append(field_str(&e.content));
                out.append("\nSource: ");
                out.append(field_str(&e.url));
                out.append("\n\n");
                i = i + 1;
            }
        },
        None => {},
    }
    if out.as_str().is_empty() {
        String::from_str(NO_RESULTS)
    } else {
        out
    }
}

/// Whether a search backend status lets the reply through: any status outside
/// the success class is an `Api` error naming it.
pub fn check_search_status(status: &HttpStatus) -> (r: Result<(), BridgeError>)
    ensures
        r is Ok <==> status.success_spec(),
        r is Err ==> r->Err_0 is Api && r->Err_0->Api_0@ == "SearXNG error: HTTP "@
            + status.display@,
{
    if status.is_success() {
        Ok(())
    } else {
        Err(BridgeError::Api(concat("SearXNG error: HTTP ", status.display.as_str())))
    }
}

/// The notice that replaces a page whose fetch was answered with a status
/// outside the success class; `None` for a success.
pub fn fetch_status_notice(status: &HttpStatus) -> (r: Option<String>)
    ensures
        r is None <==> status.success_spec(),
        r is Some ==> r->0@ == "Impossible de lire la page : Erreur HTTP "@ + status.display@,
{
    if status.is_success() {
        None
    } else {
        Some(concat("Impossible de lire la page : Erreur HTTP ", status.display.as_str()))
    }
}

/// The arguments of a tool call; an argument that is absent or not a string
/// is `None`.
pub struct ToolArguments {
    pub query: Option<String>,
    pub url: Option<String>,
}

/// The parameters of a `tools/call` call; absent or mistyped members are
/// `None`.
pub struct CallParams {
    pub name: Option<String>,
    pub arguments: Option<ToolArguments>,
}

/// The tool that `params` names, empty when none is named.
pub open spec fn tool_name_of(params: Option<CallParams>) -> Seq<char> {
    match params {
        Some(p) => field_text(p.name),
        None => Seq::empty(),
    }
}

/// The `query` argument in `params`, empty when absent.
pub open spec fn query_of(params: Option<CallParams>) -> Seq<char> {
    match params {
        Some(p) => match p.arguments {
            Some(a) => field_text(a.query),
            None => Seq::empty(),
        },
        None => Seq::empty(),
    }
}

/// The `url` argument in `params`, empty when absent.
pub open spec fn url_of(params: Option<CallParams>) -> Seq<char> {
    match params {
        Some(p) => match p.arguments {
            Some(a) => field_text(a.url),
            None => Seq::empty(),
        },
        None => Seq::empty(),
    }
}

/// What a tool call needs next.
pub enum ToolStep {
    /// The outcome is known without any backend request.
    Done(Result<String, BridgeError>),
    /// Ask the search backend for this query, then shape its answer with
    /// `check_search_status` and `format_search_results`.
    Search(String),
    /// Fetch this URL, then shape the answer with `fetch_status_notice`,
    /// `page_source` and `page_text`.
    Fetch(String),
}

/// What `plan_tool` decides for `params`.
pub open spec fn plan_spec(params: Option<CallParams>, r: ToolStep) -> bool {
    let name = tool_name_of(params);
    if name == "search"@ {
        if query_of(params).len() == 0 {
            r is Done && r->Done_0 is Ok && r->Done_0->Ok_0@ == EMPTY_QUERY@
        } else {
            r is Search && r->Search_0@ == query_of(params)
        }
    } else if name == "fetch_page"@ {
        if url_of(params).len() == 0 {
            r is Done && r->Done_0 is Ok && r->Done_0->Ok_0@ == EMPTY_URL@
        } else {
            r is Fetch && r->Fetch_0@ == url_of(params)
        }
    } else {
        r is Done && r->Done_0 is Err && r->Done_0->Err_0 is Api && r->Done_0->Err_0->Api_0@
            == "Unknown tool: "@ + name
    }
}

fn argument_str(params: &Option<CallParams>, want_query: bool) -> (r: &str)
    ensures
        r@ == (if want_query { query_of(*params) } else { url_of(*params) }),
{
    proof {
        reveal_strlit("");
    }
    match params {
        Some(p) => match &p.arguments {
            Some(a) => if want_query { field_str(&a.query) } else { field_str(&a.url) },
            None => "",
        },
        None => "",
    }
}

/// Routes a tool call to its backend: an empty query or URL is answered at
/// once without any request, and an unknown tool is an `Api` error.
pub fn plan_tool(params: &Option<CallParams>) -> (r: ToolStep)
    ensures
        plan_spec(*params, r),
{
    proof {
        reveal_strlit("");
        reveal_strlit("search");
        reveal_strlit("fetch_page");
    }
    let name: &str = match params {
        Some(p) => field_str(&p.name),
        None => "",
    };
    if same_text(name, "search") {
        let query = argument_str(params, true);
        if query.is_empty() {
            ToolStep::Done(Ok(String::from_str(EMPTY_QUERY)))
        } else {
            ToolStep::Search(String::from_str(query))
        }
    } else if same_text(name, "fetch_page") {
        let url = argument_str(params, false);
        proof {
            assert(name@ == tool_name_of(*params));
            assert(name@ == "fetch_page"@);
            assert("fetch_page"@.len() != "search"@.len());
            assert(tool_name_of(*params) != "search"@);
        }
        if url.is_empty() {
            ToolStep::Done(Ok(String::from_str(EMPTY_URL)))
        } else {
            ToolStep::Fetch(String::from_str(url))
        }
    } else {
        ToolStep::Done(Err(BridgeError::Api(concat("Unknown tool: ", name))))
    }
}

} // verus!

verus! {

proof fn lemma_blocks_nonempty(entries: Seq<SearchEntry>)
    requires
        entries.len() > 0,
    ensures
        entry_blocks(entries).len() > 0,
{
    reveal_strlit("### ");
    reveal_strlit("\n\n");
}

/// Search formatting law: with no `results` array, or an empty one, the reply
/// is exactly the no-results notice; with N of them, it is the blocks of the
/// first min(N, `MAX_RESULTS`) entries in order, each giving the entry's
/// title, content and URL in that order.
pub proof fn lemma_search_text(results: Option<Seq<SearchEntry>>)
    ensures
        (results is None || results->0.len() == 0) ==> search_text(results) == NO_RESULTS@,
        results is Some && results->0.len() > 0 ==> search_text(results) == entry_blocks(
            results->0.take(
                if results->0.len() < MAX_RESULTS {
                    results->0.len() as int
                } else {
                    MAX_RESULTS as int
                },
            ),
        ),
{
    if let Some(v) = results {
        let k = if v.len() < MAX_RESULTS { v.len() as int } else { MAX_RESULTS as int };
        if v.len() > 0 {
            lemma_blocks_nonempty(v.take(k));
        } else {
            assert(v.take(k).len() == 0);
        }
    }
}

} // verus!

verus! {

/// Empty-argument law: a search with an empty query, or a page fetch with an
/// empty URL, needs no backend request and is answered at once with its
/// fixed notice.
pub proof fn lemma_empty_argument_answered(params: Option<CallParams>, step: ToolStep)
    requires
        plan_spec(params, step),
    ensures
        tool_name_of(params) == "search"@ && query_of(params).len() == 0 ==> step is Done
            && step->Done_0 is Ok && step->Done_0->Ok_0@ == EMPTY_QUERY@,
        tool_name_of(params) == "fetch_page"@ && url_of(params).len() == 0 ==> step is Done
            && step->Done_0 is Ok && step->Done_0->Ok_0@ == EMPTY_URL@,
{
    reveal_strlit("search");
    reveal_strlit("fetch_page");
    assert("search"@.len() != "fetch_page"@.len());
}

} // verus!
