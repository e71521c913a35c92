//! The calls this library makes into std and into other crates, each with the
//! contract it is trusted to meet.
use vstd::prelude::*;

verus! {

/// The view of each string in a sequence.
pub open spec fn string_views(v: Seq<String>) -> Seq<Seq<char>> {
    v.map_values(|w: String| w@)
}

/// The view of an optional string.
pub open spec fn opt_view(o: Option<String>) -> Option<Seq<char>> {
    match o {
        Some(s) => Some(s@),
        None => None,
    }
}

/// The view of an optional integer.
pub open spec fn opt_int(o: Option<i64>) -> Option<int> {
    match o {
        Some(t) => Some(t as int),
        None => None,
    }
}

/// The characters with Unicode's `White_Space` property, which is what
/// `char::is_whitespace` tests.
pub open spec fn is_space(c: char) -> bool {
    ||| '\t' <= c && c <= '\r'
    ||| c == ' ' || c == '\u{85}' || c == '\u{a0}' || c == '\u{1680}'
    ||| '\u{2000}' <= c && c <= '\u{200a}'
    ||| c == '\u{2028}' || c == '\u{2029}' || c == '\u{202f}' || c == '\u{205f}' || c == '\u{3000}'
}

/// The length of the run of non-space characters that starts `s`.
pub open spec fn word_end(s: Seq<char>) -> nat
    decreases s.len(),
{
    if s.len() == 0 || is_space(s[0]) {
        0
    } else {
        1 + word_end(s.drop_first())
    }
}

proof fn lemma_word_end_bound(s: Seq<char>)
    ensures
        word_end(s) <= s.len(),
    decreases s.len(),
{
    if s.len() > 0 && !is_space(s[0]) {
        lemma_word_end_bound(s.drop_first());
    }
}

/// The words of `s`: its maximal runs of non-space characters, in order.
pub open spec fn whitespace_words(s: Seq<char>) -> Seq<Seq<char>>
    decreases s.len(),
    via whitespace_words_decreases
{
    if s.len() == 0 {
        Seq::empty()
    } else if is_space(s[0]) {
        whitespace_words(s.drop_first())
    } else {
        seq![s.take(word_end(s) as int)] + whitespace_words(s.skip(word_end(s) as int))
    }
}

#[via_fn]
proof fn whitespace_words_decreases(s: Seq<char>) {
    if s.len() > 0 && !is_space(s[0]) {
        lemma_word_end_bound(s);
    }
}

/// Relies on `str::split_whitespace`: the sub-slices of `s` separated by any
/// amount of `White_Space` characters, in order.
#[verifier::external_body]
pub(crate) fn split_words(s: &str) -> (r: Vec<String>)
    ensures
        string_views(r@) == whitespace_words(s@),
{
    s.split_whitespace().map(|w| w.to_string()).collect()
}

/// The Unix time, in seconds, of an RFC 2822 date, or `None` where chrono
/// does not read `s` as one.
pub uninterp spec fn rfc2822_seconds(s: Seq<char>) -> Option<int>;

/// Relies on `chrono::DateTime::parse_from_rfc2822` and `DateTime::timestamp`:
/// the parse succeeds or fails, and gives its seconds, from the text alone.
#[verifier::external_body]
pub(crate) fn parse_rfc2822_seconds(s: &str) -> (r: Option<i64>)
    ensures
        opt_int(r) == rfc2822_seconds(s@),
{
    chrono::DateTime::parse_from_rfc2822(s).ok().map(|d| d.timestamp())
}

/// The `attr` attribute of the first element of `html` that `selector`
/// matches: `None` where no element matches, `Some(None)` where the element
/// has no such attribute.
pub uninterp spec fn html_first_attr(html: Seq<char>, selector: Seq<char>, attr: Seq<char>) -> Option<
    Option<Seq<char>>,
>;

/// The view of an optional optional string.
pub open spec fn nested_view(o: Option<Option<String>>) -> Option<Option<Seq<char>>> {
    match o {
        None => None,
        Some(inner) => Some(opt_view(inner)),
    }
}

/// Relies on scraper's `Html::parse_document`, `Selector::parse`,
/// `Html::select` and `ElementRef::attr`: parsing and matching depend on the
/// texts alone. A selector that scraper does not accept matches nothing.
#[verifier::external_body]
pub(crate) fn first_attr(html: &str, selector: &str, attr: &str) -> (r: Option<Option<String>>)
    ensures
        nested_view(r) == html_first_attr(html@, selector@, attr@),
{
    let document = scraper::Html::parse_document(html);
    match scraper::Selector::parse(selector) {
        Ok(sel) => document.select(&sel).next().map(|e| e.attr(attr).map(|v| v.to_string())),
        Err(_) => None,
    }
}

/// The decoded query pairs of `url`, in order, or `None` where it is no URL.
pub uninterp spec fn url_query_pairs(url: Seq<char>) -> Option<Seq<(Seq<char>, Seq<char>)>>;

/// The view of each pair of strings in a sequence.
pub open spec fn pairs_view(v: Seq<(String, String)>) -> Seq<(Seq<char>, Seq<char>)> {
    v.map_values(|p: (String, String)| (p.0@, p.1@))
}

/// Relies on `reqwest::Url::parse` and `Url::query_pairs`: both depend on the
/// text of `url` alone.
#[verifier::external_body]
pub(crate) fn query_pairs(url: &str) -> (r: Option<Vec<(String, String)>>)
    ensures
        match r {
            None => url_query_pairs(url@) is None,
            Some(v) => url_query_pairs(url@) == Some(pairs_view(v@)),
        },
{
    reqwest::Url::parse(url).ok().map(
        |u| u.query_pairs().map(|(k, v)| (k.into_owned(), v.into_owned())).collect(),
    )
}

/// The string field `key` of `body` read as a JSON object of strings: `None`
/// where `body` is no such object, `Some(None)` where it has no field `key`.
pub uninterp spec fn json_string_field(body: Seq<char>, key: Seq<char>) -> Option<
    Option<Seq<char>>,
>;

/// Relies on `serde_json::from_str` into a `HashMap<String, String>`: whether
/// it succeeds, and the value kept under each key, depend on `body` alone.
#[verifier::external_body]
pub(crate) fn json_field(body: &str, key: &str) -> (r: Option<Option<String>>)
    ensures
        nested_view(r) == json_string_field(body@, key@),
{
    serde_json::from_str::<std::collections::HashMap<String, String>>(body).ok().map(
        |m| m.get(key).cloned(),
    )
}

} // verus!
