//! The web search tool: which provider a search goes to, and how the
//! provider's answer is shown. The requests themselves run outside.

use vstd::prelude::*;
use crate::text::{concat, join, join_seq, push_str, str_eq, to_owned, trim, trim_seq, views};

verus! {

/// Where a search goes.
#[derive(Debug, Clone)]
pub enum SearchRoute {
    /// Kimi's built-in web search.
    Kimi,
    /// SerpAPI (also for "google").
    SerpApi,
    /// The search cannot run: fail with this message.
    Refused { message: String },
}

/// Routes a search by the configuration: refused while disabled, then by
/// provider name.
pub fn search_route(enabled: bool, provider: &str) -> (r: SearchRoute)
    ensures
        !enabled ==> (r matches SearchRoute::Refused { message } && message@
            == "Web search is currently disabled. Please enable it in configuration."@),
        enabled && provider@ == "kimi"@ ==> r is Kimi,
        enabled && (provider@ == "serpapi"@ || provider@ == "google"@) ==> r is SerpApi,
        enabled && provider@ != "kimi"@ && provider@ != "serpapi"@ && provider@ != "google"@
            ==> (r matches SearchRoute::Refused { message } && message@
            == "Unsupported web search provider: "@ + provider@),
{
    if !enabled {
        return SearchRoute::Refused {
            message: to_owned("Web search is currently disabled. Please enable it in configuration."),
        };
    }
    proof {
        reveal_strlit("kimi");
        reveal_strlit("serpapi");
        reveal_strlit("google");
        assert("kimi"@.len() == 4);
        assert("serpapi"@.len() == 7);
        assert("google"@.len() == 6);
    }
    if str_eq(provider, "kimi") {
        SearchRoute::Kimi
    } else if str_eq(provider, "serpapi") || str_eq(provider, "google") {
        SearchRoute::SerpApi
    } else {
        SearchRoute::Refused { message: concat("Unsupported web search provider: ", provider) }
    }
}

/// The Kimi model: the configured one, else `kimi-k2-turbo-preview`.
pub fn kimi_model(configured: &str) -> (r: String)
    ensures
        configured@.len() == 0 ==> r@ == "kimi-k2-turbo-preview"@,
        configured@.len() > 0 ==> r@ == configured@,
{
    if configured.is_empty() {
        to_owned("kimi-k2-turbo-preview")
    } else {
        to_owned(configured)
    }
}

/// How many tool-call turns a Kimi search may take.
pub const KIMI_MAX_TURNS: usize = 5;

/// A search answer as shown: trimmed, or "No results found." when empty.
pub fn answer_text(content: &str) -> (r: String)
    ensures
        trim_seq(content@).len() == 0 ==> r@ == "No results found."@,
        trim_seq(content@).len() > 0 ==> r@ == trim_seq(content@),
{
    let t = trim(content);
    if t.as_str().is_empty() {
        to_owned("No results found.")
    } else {
        t
    }
}

/// An organic result of SerpAPI, its fields where present.
#[derive(Debug, Clone)]
pub struct SerpResult {
    pub title: Option<String>,
    pub snippet: Option<String>,
    pub link: Option<String>,
}

/// A result as shown: title ("No Title" without one), snippet and source.
pub open spec fn serp_entry(r: SerpResult) -> Seq<char> {
    "### "@ + match r.title {
        Some(t) => t@,
        None => "No Title"@,
    } + "\n"@ + match r.snippet {
        Some(s) => s@,
        None => Seq::empty(),
    } + "\nSource: "@ + match r.link {
        Some(l) => l@,
        None => Seq::empty(),
    }
}

/// The SerpAPI answer: the first five results, separated by blank lines,
/// or "No results found." without results.
pub open spec fn serp_text_spec(results: Seq<SerpResult>) -> Seq<char> {
    let shown = if results.len() > 5 {
        results.take(5)
    } else {
        results
    };
    if shown.len() == 0 {
        "No results found."@
    } else {
        join_seq(shown.map_values(|r: SerpResult| serp_entry(r)), "\n\n"@)
    }
}

fn entry_text(r: &SerpResult) -> (s: String)
    ensures
        s@ == serp_entry(*r),
{
    let mut s = to_owned("### ");
    match &r.title {
        Some(t) => push_str(&mut s, t.as_str()),
        None => push_str(&mut s, "No Title"),
    }
    push_str(&mut s, "\n");
    match &r.snippet {
        Some(t) => push_str(&mut s, t.as_str()),
        None => {},
    }
    push_str(&mut s, "\nSource: ");
    match &r.link {
        Some(t) => push_str(&mut s, t.as_str()),
        None => {},
    }
    s
}

/// Formats the SerpAPI results.
pub fn serp_results_text(results: &Vec<SerpResult>) -> (r: String)
    ensures
        r@ == serp_text_spec(results@),
{
    let n: usize = if results.len() > 5 {
        5
    } else {
        results.len()
    };
    let ghost shown = if results@.len() > 5 {
        results@.take(5)
    } else {
        results@
    };
    let mut entries: Vec<String> = Vec::new();
    let mut i: usize = 0;
    while i < n
        invariant
            i <= n,
            n == shown.len(),
            shown == (if results@.len() > 5 {
                results@.take(5)
            } else {
                results@
            }),
            views(entries@) == shown.take(i as int).map_values(|r: SerpResult| serp_entry(r)),
        decreases n - i,
    {
        let e = entry_text(&results[i]);
        let ghost before = views(entries@);
        entries.push(e);
        assert(shown[i as int] == results@[i as int]);
        assert(shown.take(i + 1) =~= shown.take(i as int).push(shown[i as int]));
        assert(views(entries@) =~= before.push(e@));
        assert(views(entries@) =~= shown.take(i + 1).map_values(|r: SerpResult| serp_entry(r)));
        i += 1;
    }
    assert(shown.take(n as int) =~= shown);
    if n == 0 {
        return to_owned("No results found.");
    }
    join(&entries, "\n\n")
}

/// The bytes of a character in UTF-8.
pub open spec fn utf8_bytes(c: char) -> Seq<int> {
    let n = c as int;
    if n < 0x80 {
        seq![n]
    } else if n < 0x800 {
        seq![0xC0 + n / 64, 0x80 + n % 64]
    } else if n < 0x10000 {
        seq![0xE0 + n / 4096, 0x80 + (n / 64) % 64, 0x80 + n % 64]
    } else {
        seq![0xF0 + n / 262144, 0x80 + (n / 4096) % 64, 0x80 + (n / 64) % 64, 0x80 + n % 64]
    }
}

/// The bytes that URL encoding leaves as they are: ASCII letters and digits
/// and `-`, `.`, `_`, `~`.
pub open spec fn url_safe_byte(b: int) -> bool {
    (0x30 <= b <= 0x39) || (0x41 <= b <= 0x5A) || (0x61 <= b <= 0x7A) || b == 0x2D || b == 0x2E
        || b == 0x5F || b == 0x7E
}

/// An upper-case hexadecimal digit.
pub open spec fn hex_digit(d: int) -> char {
    if d < 10 {
        (0x30 + d) as char
    } else {
        (0x41 + d - 10) as char
    }
}

/// The URL encoding of a byte: itself when safe, else `%` and two
/// upper-case hex digits.
pub open spec fn url_encoded_byte(b: int) -> Seq<char> {
    if url_safe_byte(b) {
        seq![b as char]
    } else {
        seq!['%', hex_digit(b / 16), hex_digit(b % 16)]
    }
}

/// The URL encoding of a sequence of bytes.
pub open spec fn url_encoded_bytes(bs: Seq<int>) -> Seq<char>
    decreases bs.len(),
{
    if bs.len() == 0 {
        Seq::empty()
    } else {
        url_encoded_bytes(bs.drop_last()) + url_encoded_byte(bs.last())
    }
}

/// The URL encoding of a text: each byte of its UTF-8 form encoded in turn.
pub open spec fn url_encoded(s: Seq<char>) -> Seq<char>
    decreases s.len(),
{
    if s.len() == 0 {
        Seq::empty()
    } else {
        url_encoded(s.drop_last()) + url_encoded_bytes(utf8_bytes(s.last()))
    }
}

/// `urlencoding::encode`: percent-encodes every byte of the UTF-8 text except
/// ASCII letters, digits and `-`, `_`, `.`, `~`, with upper-case hex digits.
#[verifier::external_body]
fn url_encode(s: &str) -> (r: String)
    ensures
        r@ == url_encoded(s@),
{
    urlencoding::encode(s).into_owned()
}

/// The SerpAPI request URL for a query and an API key.
pub fn serpapi_url(query: &str, api_key: &str) -> (r: String)
    ensures
        r@ == "https://serpapi.com/search.json?q="@ + url_encoded(query@) + "&api_key="@ + api_key@,
{
    let mut u = to_owned("https://serpapi.com/search.json?q=");
    let q = url_encode(query);
    push_str(&mut u, q.as_str());
    push_str(&mut u, "&api_key=");
    push_str(&mut u, api_key);
    u
}

/// The status shown while SerpAPI is searched.
pub fn serpapi_status(query: &str) -> (r: String)
    ensures
        r@ == "Searching (SerpAPI): "@ + query@,
{
    concat("Searching (SerpAPI): ", query)
}

} // verus!
