//! The session record: the session token and the SSO token, one per line.
use vstd::prelude::*;

verus! {

pub open spec fn or_empty(o: Option<Seq<char>>) -> Seq<char> {
    match o {
        Some(t) => t,
        None => Seq::empty(),
    }
}

/// The text of a record: each token, or nothing, followed by a newline.
pub open spec fn record_text(session_token: Option<Seq<char>>, sso_token: Option<Seq<char>>) -> Seq<
    char,
> {
    or_empty(session_token) + seq!['\n'] + or_empty(sso_token) + seq!['\n']
}

/// The index of the first newline of `s`, or its length where it has none.
pub open spec fn newline_at(s: Seq<char>) -> int
    decreases s.len(),
{
    if s.len() == 0 {
        0
    } else if s[0] == '\n' {
        0
    } else {
        1 + newline_at(s.drop_first())
    }
}

/// A line without the carriage return of a `\r\n` ending.
pub open spec fn strip_cr(l: Seq<char>) -> Seq<char> {
    if l.len() > 0 && l.last() == '\r' {
        l.drop_last()
    } else {
        l
    }
}

/// The first line of `s`, without its line ending.
pub open spec fn first_line(s: Seq<char>) -> Seq<char> {
    let e = newline_at(s);
    if e < s.len() {
        strip_cr(s.take(e))
    } else {
        s
    }
}

/// What follows the first line ending of `s`.
pub open spec fn after_first_line(s: Seq<char>) -> Seq<char> {
    let e = newline_at(s);
    if e < s.len() {
        s.skip(e + 1)
    } else {
        Seq::empty()
    }
}

/// An empty line stands for no token.
pub open spec fn token_of(l: Seq<char>) -> Option<Seq<char>> {
    if l.len() == 0 {
        None
    } else {
        Some(l)
    }
}

/// The tokens that a record holds: those of its first two lines, where they
/// are there and not empty.
pub open spec fn record_fields(s: Seq<char>) -> (Option<Seq<char>>, Option<Seq<char>>) {
    if s.len() == 0 {
        (None, None)
    } else {
        let rest = after_first_line(s);
        (
            token_of(first_line(s)),
            if rest.len() == 0 {
                None
            } else {
                token_of(first_line(rest))
            },
        )
    }
}

/// A token that a record keeps as it is: none, or a non-empty text without
/// line breaks.
pub open spec fn storable(o: Option<Seq<char>>) -> bool {
    match o {
        None => true,
        Some(t) => t.len() > 0 && forall|i: int| 0 <= i < t.len() ==> #[trigger] t[i] != '\n' && t[i]
            != '\r',
    }
}

proof fn lemma_newline_at(s: Seq<char>, e: int)
    requires
        0 <= e <= s.len(),
        forall|j: int| 0 <= j < e ==> s[j] != '\n',
        e == s.len() || s[e] == '\n',
    ensures
        newline_at(s) == e,
    decreases e,
{
    if e > 0 {
        lemma_newline_at(s.drop_first(), e - 1);
    }
}

/// Writing two tokens into a record and reading it back gives the same
/// tokens, for tokens that a record can keep.
pub proof fn record_round_trip(session_token: Option<Seq<char>>, sso_token: Option<Seq<char>>)
    requires
        storable(session_token),
        storable(sso_token),
    ensures
        record_fields(record_text(session_token, sso_token)) == (session_token, sso_token),
{
    let a = or_empty(session_token);
    let b = or_empty(sso_token);
    let s = record_text(session_token, sso_token);
    assert(s[a.len() as int] == '\n');
    lemma_newline_at(s, a.len() as int);
    assert(s.take(a.len() as int) =~= a);
    let rest = after_first_line(s);
    assert(rest =~= b + seq!['\n']);
    assert(rest[b.len() as int] == '\n');
    lemma_newline_at(rest, b.len() as int);
    assert(rest.take(b.len() as int) =~= b);
}

/// The text of the record of two tokens.
pub fn session_record(session_token: Option<&str>, sso_token: Option<&str>) -> (r: String)
    ensures
        r@ == record_text(
            match session_token {
                Some(t) => Some(t@),
                None => None,
            },
            match sso_token {
                Some(t) => Some(t@),
                None => None,
            },
        ),
{
    let mut text = String::new();
    if let Some(t) = session_token {
        text.append(t);
    }
    text.append("\n");
    if let Some(t) = sso_token {
        text.append(t);
    }
    text.append("\n");
    proof {
        reveal_strlit("\n");
    }
    assert(text@ =~= record_text(
        match session_token {
            Some(t) => Some(t@),
            None => None,
        },
        match sso_token {
            Some(t) => Some(t@),
            None => None,
        },
    ));
    text
}

/// The first line of `s` and what follows its line ending.
fn split_first_line(s: &str) -> (r: (&str, &str))
    ensures
        r.0@ == first_line(s@),
        r.1@ == after_first_line(s@),
{
    let n = s.unicode_len();
    let mut e: usize = 0;
    while e < n
        invariant
            n == s@.len(),
            e <= n,
            forall|j: int| 0 <= j < e ==> s@[j] != '\n',
        ensures
            e <= n,
            forall|j: int| 0 <= j < e ==> s@[j] != '\n',
            e == n || s@[e as int] == '\n',
        decreases n - e,
    {
        if s.get_char(e) == '\n' {
            break;
        }
        e = e + 1;
    }
    proof {
        lemma_newline_at(s@, e as int);
    }
    if e == n {
        assert(s@.subrange(0, n as int) =~= s@);
        return (s, s.substring_char(n, n));
    }
    let mut line = s.substring_char(0, e);
    if e > 0 && s.get_char(e - 1) == '\r' {
        line = s.substring_char(0, e - 1);
    }
    (line, s.substring_char(e + 1, n))
}

/// The two tokens of a record; an empty or missing line gives `None`.
pub fn parse_session_record(text: &str) -> (r: (Option<String>, Option<String>))
    ensures
        (crate::foreign::opt_view(r.0), crate::foreign::opt_view(r.1)) == record_fields(text@),
{
    if text.unicode_len() == 0 {
        return (None, None);
    }
    let (first, rest) = split_first_line(text);
    let session_token = if first.unicode_len() == 0 {
        None
    } else {
        Some(String::from_str(first))
    };
    let sso_token = if rest.unicode_len() == 0 {
        None
    } else {
        let (second, _) = split_first_line(rest);
        if second.unicode_len() == 0 {
            None
        } else {
            Some(String::from_str(second))
        }
    };
    (session_token, sso_token)
}

} // verus!
