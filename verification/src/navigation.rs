//! What a tab does with a navigation: pages that want a new window are
//! routed through the `newwindow.local` host, whose query names the page to
//! open in a new tab; every other navigation goes ahead and is announced to
//! the window under the tab's own event name. Also the checking of the URLs
//! that the user types.

use vstd::prelude::*;

verus! {

#[verifier::external_type_specification]
#[verifier::external_body]
pub struct ExUrl(url::Url);

/// What `url::Url::parse` (no base URL) gives for `input`: the parsed URL,
/// or the text (`Display`) of the error it refuses the input with.
pub uninterp spec fn url_parse_outcome(input: Seq<char>) -> Result<url::Url, Seq<char>>;

/// Whether the URL parser accepts `input` as an absolute URL.
pub open spec fn url_parse_accepts(input: Seq<char>) -> bool {
    url_parse_outcome(input) is Ok
}

/// The name/value pairs that `application/x-www-form-urlencoded` parsing of
/// `query` yields, in order, percent-decoded.
pub uninterp spec fn form_urlencoded_pairs(query: Seq<char>) -> Seq<(Seq<char>, Seq<char>)>;

/// Parses an absolute URL with `url::Url::parse`, turning a refusal into
/// the error's text. The result is the parser's outcome for the text.
#[verifier::external_body]
fn url_parse(input: &str) -> (res: Result<url::Url, String>)
    ensures
        match res {
            Ok(u) => url_parse_outcome(input@) == Ok::<url::Url, Seq<char>>(u),
            Err(m) => url_parse_outcome(input@) == Err::<url::Url, Seq<char>>(m@),
        },
{
    url::Url::parse(input).map_err(|e| e.to_string())
}

/// The pairs of a query string, through `url::form_urlencoded::parse`, as owned strings.
#[verifier::external_body]
fn query_pairs(query: &str) -> (pairs: Vec<(String, String)>)
    ensures
        pair_views(pairs@) == form_urlencoded_pairs(query@),
{
    url::form_urlencoded::parse(query.as_bytes()).into_owned().collect()
}

/// The pairs as mathematical strings.
pub open spec fn pair_views(pairs: Seq<(String, String)>) -> Seq<(Seq<char>, Seq<char>)> {
    pairs.map_values(|p: (String, String)| (p.0@, p.1@))
}

/// The value of the first pair named `key`, if any.
pub open spec fn first_value_for(pairs: Seq<(Seq<char>, Seq<char>)>, key: Seq<char>) -> Option<Seq<char>>
    decreases pairs.len(),
{
    if pairs.len() == 0 {
        None
    } else if pairs[0].0 == key {
        Some(pairs[0].1)
    } else {
        first_value_for(pairs.drop_first(), key)
    }
}

/// Skipping pairs that do not carry `key` does not change the first value for it.
proof fn lemma_first_value_skip(pairs: Seq<(Seq<char>, Seq<char>)>, key: Seq<char>, i: int)
    requires
        0 <= i <= pairs.len(),
        forall|j: int| 0 <= j < i ==> #[trigger] pairs[j].0 != key,
    ensures
        first_value_for(pairs, key) == first_value_for(pairs.skip(i), key),
    decreases i,
{
    if i > 0 {
        assert(pairs[0].0 != key);
        let rest = pairs.drop_first();
        assert forall|j: int| 0 <= j < i - 1 implies #[trigger] rest[j].0 != key by {
            assert(rest[j] == pairs[j + 1]);
        }
        lemma_first_value_skip(rest, key, i - 1);
        assert(rest.skip(i - 1) =~= pairs.skip(i));
    } else {
        assert(pairs.skip(0) =~= pairs);
    }
}

/// The value of the first pair named `url`, as the new-tab interception reads it.
pub fn first_url_param(pairs: &Vec<(String, String)>) -> (r: Option<String>)
    ensures
        match r {
            Some(v) => first_value_for(pair_views(pairs@), "url"@) == Some(v@),
            None => first_value_for(pair_views(pairs@), "url"@) is None,
        },
{
    let key = String::from_str("url");
    let ghost views = pair_views(pairs@);
    let mut i: usize = 0;
    while i < pairs.len()
        invariant
            i <= pairs@.len(),
            key@ == "url"@,
            views == pair_views(pairs@),
            views.len() == pairs@.len(),
            forall|j: int| 0 <= j < i ==> #[trigger] views[j].0 != "url"@,
        decreases pairs@.len() - i,
    {
        if pairs[i].0 == key {
            proof {
                lemma_first_value_skip(views, "url"@, i as int);
                assert(views.skip(i as int)[0] == views[i as int]);
            }
            return Some(pairs[i].1.clone());
        }
        i = i + 1;
    }
    proof {
        lemma_first_value_skip(views, "url"@, i as int);
        assert(views.skip(i as int).len() == 0);
    }
    None
}

/// Checks a URL that the user asked a tab to show: the URL it parses to,
/// or the parser's message when it does not parse.
pub fn parse_web_url(input: &str) -> (res: Result<url::Url, String>)
    ensures
        res is Ok <==> url_parse_accepts(input@),
        res matches Ok(u) ==> url_parse_outcome(input@) == Ok::<url::Url, Seq<char>>(u),
        res matches Err(m) ==> url_parse_outcome(input@) == Err::<url::Url, Seq<char>>(m@),
{
    url_parse(input)
}

/// The prefix of navigations that stand for "open this in a new tab".
pub open spec fn new_tab_url_prefix() -> Seq<char> {
    "http://newwindow.local/"@
}

/// The name of the event that announces a tab's new address to its window.
pub open spec fn url_changed_event_text(tab_label: Seq<char>) -> Seq<char> {
    "url-changed-"@ + tab_label
}

/// What a tab does with a navigation, in mathematical terms.
pub enum NavigationModel {
    NewTab { target: Option<Seq<char>> },
    Proceed { event: Seq<char> },
}

/// What a tab does with a navigation.
pub enum NavigationDecision {
    /// Stop the navigation; if `target` names a page, ask the window to open it in a new tab.
    NewTab { target: Option<String> },
    /// Let the navigation go ahead and announce the new address under `event`.
    Proceed { event: String },
}

impl View for NavigationDecision {
    type V = NavigationModel;

    open spec fn view(&self) -> NavigationModel {
        match self {
            NavigationDecision::NewTab { target } => NavigationModel::NewTab {
                target: match target {
                    Some(t) => Some(t@),
                    None => None,
                },
            },
            NavigationDecision::Proceed { event } => NavigationModel::Proceed { event: event@ },
        }
    }
}

/// What a tab does with a navigation, given the URL's text and its query.
pub open spec fn navigation_spec(tab_label: Seq<char>, url_text: Seq<char>, query: Option<Seq<char>>) -> NavigationModel {
    if new_tab_url_prefix().is_prefix_of(url_text) {
        NavigationModel::NewTab {
            target: match query {
                Some(q) => first_value_for(form_urlencoded_pairs(q), "url"@),
                None => None,
            },
        }
    } else {
        NavigationModel::Proceed { event: url_changed_event_text(tab_label) }
    }
}

/// The name of the event that announces the new address of tab `tab_label`.
pub fn url_changed_event(tab_label: &str) -> (s: String)
    ensures
        s@ == url_changed_event_text(tab_label@),
{
    let mut s = String::from_str("url-changed-");
    s.append(tab_label);
    s
}

/// Decides what the tab labelled `tab_label` does with a navigation to the
/// URL whose text is `url_text` and whose query is `query`.
pub fn decide_navigation(tab_label: &str, url_text: &str, query: Option<&str>) -> (d: NavigationDecision)
    ensures
        d@ == navigation_spec(tab_label@, url_text@, match query {
            Some(q) => Some(q@),
            None => None,
        }),
{
    if crate::text::has_prefix(url_text, "http://newwindow.local/") {
        match query {
            Some(q) => {
                let pairs = query_pairs(q);
                NavigationDecision::NewTab { target: first_url_param(&pairs) }
            },
            None => NavigationDecision::NewTab { target: None },
        }
    } else {
        NavigationDecision::Proceed { event: url_changed_event(tab_label) }
    }
}

/// The value found for `key` is, untouched, the value of the first pair
/// named `key`: whenever pair `i` is the first one so named, the result is
/// exactly its value.
pub proof fn lemma_first_value_is_first_match(pairs: Seq<(Seq<char>, Seq<char>)>, key: Seq<char>, i: int)
    requires
        0 <= i < pairs.len(),
        pairs[i].0 == key,
        forall|j: int| 0 <= j < i ==> #[trigger] pairs[j].0 != key,
    ensures
        first_value_for(pairs, key) == Some(pairs[i].1),
{
    lemma_first_value_skip(pairs, key, i);
    assert(pairs.skip(i)[0] == pairs[i]);
}

/// When no pair is named `key`, no value is found for it.
pub proof fn lemma_no_match_no_value(pairs: Seq<(Seq<char>, Seq<char>)>, key: Seq<char>)
    requires
        forall|j: int| 0 <= j < pairs.len() ==> #[trigger] pairs[j].0 != key,
    ensures
        first_value_for(pairs, key) is None,
{
    lemma_first_value_skip(pairs, key, pairs.len() as int);
    assert(pairs.skip(pairs.len() as int).len() == 0);
}

/// The announcement event of a tab is `url-changed-` followed by the whole
/// label, so two different tabs never share an event name.
pub proof fn lemma_event_names_whole_label(label: Seq<char>, other: Seq<char>)
    ensures
        url_changed_event_text(label).take(12) == "url-changed-"@,
        url_changed_event_text(label).skip(12) == label,
        label != other ==> url_changed_event_text(label) != url_changed_event_text(other),
{
    reveal_strlit("url-changed-");
    assert(url_changed_event_text(label).take(12) =~= "url-changed-"@);
    assert(url_changed_event_text(label).skip(12) =~= label);
    assert(url_changed_event_text(other).skip(12) =~= other);
}

/// A navigation under `http://newwindow.local/` is always stopped; it asks
/// for a new tab on exactly the value of the first `url` pair of its query,
/// whatever that value is, and on nothing when there is no query or no
/// such pair. Any other navigation goes ahead under `url-changed-` and the
/// whole tab label.
pub proof fn lemma_navigation_outcome(tab_label: Seq<char>, url_text: Seq<char>, q: Seq<char>, i: int)
    ensures
        "http://newwindow.local/"@.is_prefix_of(url_text) ==> navigation_spec(tab_label, url_text, None)
            == (NavigationModel::NewTab { target: None }),
        "http://newwindow.local/"@.is_prefix_of(url_text) && 0 <= i < form_urlencoded_pairs(q).len()
            && form_urlencoded_pairs(q)[i].0 == "url"@ && (forall|j: int|
            0 <= j < i ==> #[trigger] form_urlencoded_pairs(q)[j].0 != "url"@) ==> navigation_spec(
            tab_label,
            url_text,
            Some(q),
        ) == (NavigationModel::NewTab { target: Some(form_urlencoded_pairs(q)[i].1) }),
        "http://newwindow.local/"@.is_prefix_of(url_text) && (forall|j: int|
            0 <= j < form_urlencoded_pairs(q).len() ==> #[trigger] form_urlencoded_pairs(q)[j].0 != "url"@)
            ==> navigation_spec(tab_label, url_text, Some(q)) == (NavigationModel::NewTab { target: None }),
        !"http://newwindow.local/"@.is_prefix_of(url_text) ==> navigation_spec(tab_label, url_text, Some(q))
            == navigation_spec(tab_label, url_text, None) && navigation_spec(tab_label, url_text, None)
            == (NavigationModel::Proceed { event: "url-changed-"@ + tab_label }),
{
    let pairs = form_urlencoded_pairs(q);
    if new_tab_url_prefix().is_prefix_of(url_text) {
        if 0 <= i < pairs.len() && pairs[i].0 == "url"@ && (forall|j: int|
            0 <= j < i ==> #[trigger] pairs[j].0 != "url"@) {
            lemma_first_value_is_first_match(pairs, "url"@, i);
        }
        if forall|j: int| 0 <= j < pairs.len() ==> #[trigger] pairs[j].0 != "url"@ {
            lemma_no_match_no_value(pairs, "url"@);
        }
    }
}

} // verus!
