use vstd::prelude::*;

verus! {

/// Longest extracted text, in characters, handed back whole.
pub const MAX_CHARS: usize = 15000;

/// Returned when a page holds no text once reduced, or its markup could not
/// be converted.
pub const EMPTY_PAGE: &'static str = "La page a été chargée mais aucun contenu textuel n'a pu être extrait.";

/// Appended to text cut at `MAX_CHARS` characters.
pub const TRUNCATION_MARKER: &'static str = "...\n\n(Contenu tronqué car trop long)";

/// The outer HTML of the first element that `selector` matches in the
/// document `html`, if any.
pub uninterp spec fn region_of(html: Seq<char>, selector: Seq<char>) -> Option<Seq<char>>;


/// Relies on scraper: `Html::parse_document` parses `html`,
/// `Selector::parse` parses `selector` (a selector that does not parse
/// matches nothing), `Html::select` walks the parsed tree's nodes in the
/// order they were created and `ElementRef::html` serialises the first
/// match, tags included.
#[verifier::external_body]
fn select_first(html: &str, selector: &str) -> (r: Option<String>)
    ensures
        r.is_some() == region_of(html@, selector@).is_some(),
        r.is_some() ==> r.unwrap()@ == region_of(html@, selector@).unwrap(),
{
    let sel = scraper::Selector::parse(selector).ok()?;
    let doc = scraper::Html::parse_document(html);
    let first = doc.select(&sel).next();
    first.map(|e| e.html())
}

/// Whitespace as `char::is_whitespace` defines it: the Unicode
/// `White_Space` property.
pub open spec fn is_white(c: char) -> bool {
    ('\u{9}' <= c && c <= '\u{d}') || c == ' ' || c == '\u{85}' || c == '\u{a0}'
        || c == '\u{1680}' || ('\u{2000}' <= c && c <= '\u{200a}') || c == '\u{2028}'
        || c == '\u{2029}' || c == '\u{202f}' || c == '\u{205f}' || c == '\u{3000}'
}

/// `s` without its leading whitespace.
pub open spec fn trim_start(s: Seq<char>) -> Seq<char>
    decreases s.len(),
{
    if s.len() > 0 && is_white(s[0]) {
        trim_start(s.drop_first())
    } else {
        s
    }
}

/// `s` without its trailing whitespace.
pub open spec fn trim_end(s: Seq<char>) -> Seq<char>
    decreases s.len(),
{
    if s.len() > 0 && is_white(s.last()) {
        trim_end(s.drop_last())
    } else {
        s
    }
}

/// `s` without leading and trailing whitespace.
pub open spec fn trim(s: Seq<char>) -> Seq<char> {
    trim_end(trim_start(s))
}

/// Relies on str::trim: removes leading and trailing whitespace, as
/// `char::is_whitespace` defines it.
#[verifier::external_body]
fn trimmed(s: &str) -> (r: &str)
    ensures
        r@ == trim(s@),
{
    s.trim()
}

/// One entry of the ordered table of page regions to try.
pub struct RegionRule {
    /// A CSS selector for the region.
    pub selector: &'static str,
    /// Whether a match of this rule ends the search at once.
    pub decisive: bool,
}

/// The selectors tried, most specific first, each with whether a match of it
/// ends the search.
pub open spec fn region_rules_spec() -> Seq<(Seq<char>, bool)> {
    seq![
        ("article"@, true),
        ("main"@, true),
        (".content"@, false),
        ("#content"@, false),
        ("body"@, false),
    ]
}

/// The table of page regions to try, in order.
pub fn region_rules() -> (r: Vec<RegionRule>)
    ensures
        r@.len() == region_rules_spec().len(),
        forall|i: int|
            0 <= i < r@.len() ==> (#[trigger] r@[i]).selector@ == region_rules_spec()[i].0
                && r@[i].decisive == region_rules_spec()[i].1,
{
    vec![
        RegionRule { selector: "article", decisive: true },
        RegionRule { selector: "main", decisive: true },
        RegionRule { selector: ".content", decisive: false },
        RegionRule { selector: "#content", decisive: false },
        RegionRule { selector: "body", decisive: false },
    ]
}

/// The first region, in the order of `rules`, that matches in `html`.
pub open spec fn first_region(html: Seq<char>, rules: Seq<(Seq<char>, bool)>) -> Option<Seq<char>>
    decreases rules.len(),
{
    if rules.len() == 0 {
        None
    } else {
        match first_region(html, rules.drop_last()) {
            Some(f) => Some(f),
            None => region_of(html, rules.last().0),
        }
    }
}

proof fn lemma_first_region_kept(html: Seq<char>, rules: Seq<(Seq<char>, bool)>, i: int)
    requires
        0 <= i <= rules.len(),
        first_region(html, rules.subrange(0, i)) is Some,
    ensures
        first_region(html, rules) == first_region(html, rules.subrange(0, i)),
    decreases rules.len() - i,
{
    if i < rules.len() {
        assert(rules.subrange(0, i + 1).drop_last() =~= rules.subrange(0, i));
        lemma_first_region_kept(html, rules, i + 1);
    } else {
        assert(rules.subrange(0, i) =~= rules);
    }
}

/// Picks the most relevant region of the page: the rules are tried in order
/// and the first match is kept; a match of a decisive rule ends the search,
/// and a later match never replaces an earlier one.
pub fn choose_region(html: &str) -> (r: Option<String>)
    ensures
        r.is_some() == first_region(html@, region_rules_spec()).is_some(),
        r.is_some() ==> r.unwrap()@ == first_region(html@, region_rules_spec()).unwrap(),
{
    let rules = region_rules();
    let ghost spec_rules = region_rules_spec();
    let mut found: Option<String> = None;
    let mut i: usize = 0;
    while i < rules.len()
        invariant
            rules@.len() == spec_rules.len(),
            spec_rules == region_rules_spec(),
            forall|k: int|
                0 <= k < rules@.len() ==> (#[trigger] rules@[k]).selector@ == spec_rules[k].0
                    && rules@[k].decisive == spec_rules[k].1,
            i <= rules@.len(),
            found.is_some() == first_region(html@, spec_rules.subrange(0, i as int)).is_some(),
            found.is_some() ==> found.unwrap()@ == first_region(
                html@,
                spec_rules.subrange(0, i as int),
            ).unwrap(),
        decreases rules@.len() - i,
    {
        let rule = &rules[i];
        assert(spec_rules.subrange(0, i + 1).drop_last() =~= spec_rules.subrange(0, i as int));
        match select_first(html, rule.selector) {
            Some(fragment) => {
                if found.is_none() {
                    found = Some(fragment);
                }
                if rule.decisive {
                    proof {
                        lemma_first_region_kept(html@, spec_rules, i + 1);
                    }
                    return found;
                }
            },
            None => {},
        }
        i = i + 1;
    }
    assert(spec_rules.subrange(0, i as int) =~= spec_rules);
    found
}

/// The text handed back for trimmed page text `s`: a fixed notice when it
/// is empty, its first `MAX_CHARS` characters and a marker when it is
/// longer, else `s` itself.
pub open spec fn bound_spec(s: Seq<char>) -> Seq<char> {
    if s.len() == 0 {
        EMPTY_PAGE@
    } else if s.len() > MAX_CHARS {
        s.subrange(0, MAX_CHARS as int) + TRUNCATION_MARKER@
    } else {
        s
    }
}

/// Bounds extracted text to `MAX_CHARS` characters; the cut falls at exactly
/// that many characters, whatever the words.
pub fn bound_text(s: &str) -> (r: String)
    ensures
        r@ == bound_spec(s@),
{
    if s.is_empty() {
        String::from_str(EMPTY_PAGE)
    } else if s.unicode_len() > MAX_CHARS {
        let mut r = String::from_str(s.substring_char(0, MAX_CHARS));
        r.append(TRUNCATION_MARKER);
        r
    } else {
        String::from_str(s)
    }
}

/// The markup of a page to convert to text: the chosen region, or the whole
/// document when no region matched.
pub open spec fn page_source_spec(html: Seq<char>) -> Seq<char> {
    match first_region(html, region_rules_spec()) {
        Some(f) => f,
        None => html,
    }
}

/// Selects the markup of a fetched HTML page that is worth converting to text.
pub fn page_source(html: &str) -> (r: String)
    ensures
        r@ == page_source_spec(html@),
{
    match choose_region(html) {
        Some(fragment) => fragment,
        None => String::from_str(html),
    }
}

/// The text handed back for a page, given the conversion of its chosen
/// markup: `None` when the conversion failed, which counts as a page
/// without text.
pub open spec fn page_text_spec(markdown: Option<Seq<char>>) -> Seq<char> {
    match markdown {
        Some(m) => bound_spec(trim(m)),
        None => EMPTY_PAGE@,
    }
}

/// Finishes a page from the Markdown of its chosen markup: trimmed and
/// bounded; a failed conversion gives the no-text notice.
pub fn page_text(markdown: &Option<String>) -> (r: String)
    ensures
        r@ == page_text_spec(match markdown {
            Some(m) => Some(m@),
            None => None,
        }),
{
    match markdown {
        Some(m) => bound_text(trimmed(m.as_str())),
        None => String::from_str(EMPTY_PAGE),
    }
}

} // verus!

verus! {

/// Truncation boundary: trimmed text of exactly `MAX_CHARS` characters is
/// handed back unchanged, and text of one character more is cut to its first
/// `MAX_CHARS` characters followed by the truncation marker.
pub proof fn lemma_bound_boundary(s: Seq<char>)
    ensures
        s.len() == MAX_CHARS ==> bound_spec(s) == s,
        s.len() == MAX_CHARS + 1 ==> bound_spec(s) == s.subrange(0, MAX_CHARS as int)
            + TRUNCATION_MARKER@,
        s.len() > 0 && s.len() <= MAX_CHARS ==> bound_spec(bound_spec(s)) == bound_spec(s),
{
}

} // verus!
