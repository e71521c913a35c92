//! One-time passcodes: how they look in a mail subject, and how long to wait
//! between looking for them.
use vstd::arithmetic::power2::{
    lemma2_to64, lemma2_to64_rest, lemma_pow2_strictly_increases, lemma_pow2_unfold, pow2,
};
use vstd::prelude::*;

use crate::foreign::{
    opt_view, parse_rfc2822_seconds, rfc2822_seconds, split_words, string_views, whitespace_words,
};

verus! {

/// An ASCII decimal digit.
pub open spec fn is_digit(c: char) -> bool {
    '0' <= c && c <= '9'
}

/// Six characters that read as a non-negative integer: digits, where the
/// first may also be the `+` sign that integer parsing accepts.
pub open spec fn is_otp_text(s: Seq<char>) -> bool {
    &&& s.len() == 6
    &&& forall|i: int| 0 <= i < 6 ==> is_digit(#[trigger] s[i]) || (i == 0 && s[i] == '+')
}

/// Whether `s` is shaped like a one-time passcode.
pub fn is_otp(s: &str) -> (r: bool)
    ensures
        r == is_otp_text(s@),
{
    let n = s.unicode_len();
    if n != 6 {
        return false;
    }
    let mut i: usize = 0;
    while i < 6
        invariant
            n == 6,
            s@.len() == 6,
            i <= 6,
            forall|j: int| 0 <= j < i ==> is_digit(#[trigger] s@[j]) || (j == 0 && s@[j] == '+'),
        decreases 6 - i,
    {
        let c = s.get_char(i);
        let ok = ('0' <= c && c <= '9') || (i == 0 && c == '+');
        if !ok {
            return false;
        }
        i = i + 1;
    }
    true
}

} // verus!

verus! {

/// The first passcode-shaped word of `words`, if any.
pub open spec fn first_otp_in(words: Seq<Seq<char>>) -> Option<Seq<char>>
    decreases words.len(),
{
    if words.len() == 0 {
        None
    } else if is_otp_text(words[0]) {
        Some(words[0])
    } else {
        first_otp_in(words.drop_first())
    }
}

/// The first of `words` that is shaped like a passcode.
pub fn first_otp(words: &Vec<String>) -> (r: Option<String>)
    ensures
        opt_view(r) == first_otp_in(string_views(words@)),
{
    let ghost all = string_views(words@);
    let mut i: usize = 0;
    assert(all.subrange(0, all.len() as int) =~= all);
    while i < words.len()
        invariant
            i <= words@.len(),
            all == string_views(words@),
            first_otp_in(all) == first_otp_in(all.subrange(i as int, all.len() as int)),
        decreases words.len() - i,
    {
        let ghost rest = all.subrange(i as int, all.len() as int);
        assert(rest.drop_first() =~= all.subrange(i + 1, all.len() as int));
        if is_otp(words[i].as_str()) {
            return Some(words[i].clone());
        }
        i = i + 1;
    }
    assert(all.subrange(i as int, all.len() as int).len() == 0);
    None
}

/// The passcode in a mail subject: its first whitespace-separated word that
/// is shaped like one.
pub fn get_otp_from_sub(subject: &str) -> (r: Option<String>)
    ensures
        opt_view(r) == first_otp_in(whitespace_words(subject@)),
{
    let words = split_words(subject);
    first_otp(&words)
}

} // verus!

verus! {

/// What can go wrong while reading a passcode out of the mailbox.
#[derive(Debug, Clone, Copy, PartialEq, Eq, Structural)]
pub enum OtpError {
    /// The newest message came without an id.
    MessageIdMissing,
    /// The message came without a payload.
    PayloadMissing,
    /// The payload came without headers.
    HeadersMissing,
    /// No `Date` header.
    DateHeaderMissing,
    /// A `Date` header without a value.
    DateValueMissing,
    /// A `Date` value that is no RFC 2822 date.
    DateInvalid,
    /// No `Subject` header.
    SubjectHeaderMissing,
    /// A `Subject` header without a value.
    SubjectValueMissing,
    /// A fresh message whose subject holds no passcode.
    OtpNotInSubject,
}

/// One header of a mail message, as the mailbox reports it.
pub struct MessageHeader {
    pub name: Option<String>,
    pub value: Option<String>,
}

/// A header as a pair of optional texts.
pub open spec fn header_view(h: MessageHeader) -> (Option<Seq<char>>, Option<Seq<char>>) {
    (opt_view(h.name), opt_view(h.value))
}

/// Each header as a pair of optional texts.
pub open spec fn headers_view(hs: Seq<MessageHeader>) -> Seq<(Option<Seq<char>>, Option<Seq<char>>)> {
    hs.map_values(|h: MessageHeader| header_view(h))
}

/// The value of the first header named `name`: `None` where there is no such
/// header, `Some(None)` where it has no value.
pub open spec fn header_value(
    hs: Seq<(Option<Seq<char>>, Option<Seq<char>>)>,
    name: Seq<char>,
) -> Option<Option<Seq<char>>>
    decreases hs.len(),
{
    if hs.len() == 0 {
        None
    } else if hs[0].0 == Some(name) {
        Some(hs[0].1)
    } else {
        header_value(hs.drop_first(), name)
    }
}

/// Finds the value of the first header named `name`.
fn find_header(headers: &Vec<MessageHeader>, name: &str) -> (r: Option<Option<String>>)
    ensures
        match r {
            None => header_value(headers_view(headers@), name@) is None,
            Some(v) => header_value(headers_view(headers@), name@) == Some(opt_view(v)),
        },
{
    let ghost all = headers_view(headers@);
    let key = String::from_str(name);
    let mut i: usize = 0;
    assert(all.subrange(0, all.len() as int) =~= all);
    while i < headers.len()
        invariant
            i <= headers@.len(),
            all == headers_view(headers@),
            key@ == name@,
            header_value(all, name@) == header_value(all.subrange(i as int, all.len() as int), name@),
        decreases headers.len() - i,
    {
        let ghost rest = all.subrange(i as int, all.len() as int);
        assert(rest.drop_first() =~= all.subrange(i + 1, all.len() as int));
        let h = &headers[i];
        let matched = match &h.name {
            Some(n) => n.eq(&key),
            None => false,
        };
        if matched {
            return Some(h.value.clone());
        }
        i = i + 1;
    }
    assert(all.subrange(i as int, all.len() as int).len() == 0);
    None
}

/// The id of the newest message, given the listing of at most one message
/// that the mailbox returned: `None` while no message is there, whether the
/// listing is empty or, as the mailbox reports no match, absent.
pub fn latest_message_id(messages: Option<Vec<Option<String>>>) -> (r: Result<
    Option<String>,
    OtpError,
>)
    ensures
        match messages {
            None => r is Ok && r->Ok_0 is None,
            Some(ids) => if ids@.len() == 0 {
                r is Ok && r->Ok_0 is None
            } else {
                match ids@[0] {
                    None => r == Err::<Option<String>, OtpError>(OtpError::MessageIdMissing),
                    Some(id) => r is Ok && opt_view(r->Ok_0) == Some(id@),
                }
            },
        },
{
    match messages {
        None => Ok(None),
        Some(ids) => {
            if ids.len() == 0 {
                Ok(None)
            } else {
                match &ids[0] {
                    None => Err(OtpError::MessageIdMissing),
                    Some(id) => Ok(Some(id.clone())),
                }
            }
        },
    }
}

/// What a message yields, given its headers, for a passcode requested at
/// `after` (Unix seconds): nothing for a message older than that, else the
/// passcode in its subject.
pub open spec fn message_otp(
    payload: Option<Option<Seq<(Option<Seq<char>>, Option<Seq<char>>)>>>,
    after: int,
) -> Result<Option<Seq<char>>, OtpError> {
    match payload {
        None => Err(OtpError::PayloadMissing),
        Some(None) => Err(OtpError::HeadersMissing),
        Some(Some(hs)) => match header_value(hs, "Date"@) {
            None => Err(OtpError::DateHeaderMissing),
            Some(None) => Err(OtpError::DateValueMissing),
            Some(Some(date)) => match rfc2822_seconds(date) {
                None => Err(OtpError::DateInvalid),
                Some(sent) => fresh_otp(sent, after, hs),
            },
        },
    }
}

/// What a message sent at `sent` yields for a passcode requested at `after`:
/// nothing where it is older, else the passcode in its subject.
pub open spec fn fresh_otp(
    sent: int,
    after: int,
    hs: Seq<(Option<Seq<char>>, Option<Seq<char>>)>,
) -> Result<Option<Seq<char>>, OtpError> {
    if sent < after {
        Ok(None)
    } else {
        match header_value(hs, "Subject"@) {
            None => Err(OtpError::SubjectHeaderMissing),
            Some(None) => Err(OtpError::SubjectValueMissing),
            Some(Some(subject)) => match first_otp_in(whitespace_words(subject)) {
                None => Err(OtpError::OtpNotInSubject),
                Some(code) => Ok(Some(code)),
            },
        }
    }
}

/// The view of what a message yields.
pub open spec fn result_view(r: Result<Option<String>, OtpError>) -> Result<Option<Seq<char>>, OtpError> {
    match r {
        Ok(o) => Ok(opt_view(o)),
        Err(e) => Err(e),
    }
}

/// The view of a message's headers, where it has them.
pub open spec fn payload_view(p: Option<Option<Vec<MessageHeader>>>) -> Option<Option<Seq<(Option<Seq<char>>, Option<Seq<char>>)>>> {
    match p {
        None => None,
        Some(None) => Some(None),
        Some(Some(hs)) => Some(Some(headers_view(hs@))),
    }
}

/// The passcode of a fetched message, given its headers (outer `None`: the
/// message had no payload; inner `None`: the payload had no headers) and the
/// time the passcode was requested. A message sent before `after_timestamp`
/// yields `None` whatever its subject says.
pub fn otp_from_message(
    payload: Option<Option<Vec<MessageHeader>>>,
    after_timestamp: i64,
) -> (r: Result<Option<String>, OtpError>)
    ensures
        result_view(r) == message_otp(payload_view(payload), after_timestamp as int),
{
    let headers = match payload {
        None => return Err(OtpError::PayloadMissing),
        Some(None) => return Err(OtpError::HeadersMissing),
        Some(Some(hs)) => hs,
    };
    let date = match find_header(&headers, "Date") {
        None => return Err(OtpError::DateHeaderMissing),
        Some(None) => return Err(OtpError::DateValueMissing),
        Some(Some(d)) => d,
    };
    let sent = match parse_rfc2822_seconds(date.as_str()) {
        None => return Err(OtpError::DateInvalid),
        Some(t) => t,
    };
    otp_if_fresh(sent, after_timestamp, &headers)
}

/// The passcode of a message sent at `sent` (Unix seconds), given its
/// headers: `None` where it was sent before `after_timestamp`, else the
/// passcode in its subject.
pub fn otp_if_fresh(sent: i64, after_timestamp: i64, headers: &Vec<MessageHeader>) -> (r: Result<
    Option<String>,
    OtpError,
>)
    ensures
        result_view(r) == fresh_otp(sent as int, after_timestamp as int, headers_view(headers@)),
{
    if sent < after_timestamp {
        return Ok(None);
    }
    let subject = match find_header(headers, "Subject") {
        None => return Err(OtpError::SubjectHeaderMissing),
        Some(None) => return Err(OtpError::SubjectValueMissing),
        Some(Some(s)) => s,
    };
    match get_otp_from_sub(subject.as_str()) {
        None => Err(OtpError::OtpNotInSubject),
        Some(code) => Ok(Some(code)),
    }
}

} // verus!

verus! {

/// A message sent before the passcode was requested never yields one, even
/// where its subject holds a passcode-shaped word.
pub proof fn stale_message_yields_nothing(
    headers: Seq<(Option<Seq<char>>, Option<Seq<char>>)>,
    after: int,
)
    requires
        header_value(headers, "Date"@) matches Some(Some(date)) && rfc2822_seconds(date) matches Some(
            sent,
        ) && sent < after,
    ensures
        message_otp(Some(Some(headers)), after) == Ok::<Option<Seq<char>>, OtpError>(None),
{
}

/// A message yields a passcode only where its `Date` header reads as a time
/// no earlier than the request: a stale passcode is never returned.
pub proof fn only_fresh_messages_yield_otp(
    payload: Option<Option<Seq<(Option<Seq<char>>, Option<Seq<char>>)>>>,
    after: int,
)
    ensures
        message_otp(payload, after) matches Ok(Some(_)) ==> (payload matches Some(Some(hs))
            && header_value(hs, "Date"@) matches Some(Some(date)) && rfc2822_seconds(date) matches Some(
            sent,
        ) && sent >= after),
{
}

/// The pause, in seconds, before attempt `attempt` (counted from 0) to fetch
/// the passcode: 5 seconds, doubled at each attempt.
pub open spec fn backoff_spec(attempt: nat) -> nat {
    5 * pow2(attempt)
}

/// The number of attempts whose pauses fit in a `u64`; a wait ends there.
pub const MAX_TRIES: usize = 62;

/// The pause before attempt `attempt`.
pub fn backoff_seconds(attempt: usize) -> (r: u64)
    requires
        attempt < MAX_TRIES,
    ensures
        r as nat == backoff_spec(attempt as nat),
{
    let mut secs: u64 = 5;
    let mut k: usize = 0;
    proof {
        lemma2_to64();
        lemma2_to64_rest();
    }
    while k < attempt
        invariant
            k <= attempt < MAX_TRIES,
            secs as nat == 5 * pow2(k as nat),
            pow2(60) == 0x1000000000000000,
        decreases attempt - k,
    {
        proof {
            lemma_pow2_unfold((k + 1) as nat);
            if k < 60 {
                lemma_pow2_strictly_increases(k as nat, 60);
            }
        }
        secs = secs * 2;
        k = k + 1;
    }
    secs
}

/// The state of a wait for a passcode: how many fetches were made, of how
/// many allowed, and what they found.
pub struct OtpWait {
    after_timestamp: i64,
    tries: usize,
    attempt: usize,
    found: Option<String>,
}

/// The state of a wait, as plain values.
pub struct OtpWaitView {
    pub after_timestamp: int,
    pub tries: nat,
    pub attempt: nat,
    pub found: Option<Seq<char>>,
}

impl View for OtpWait {
    type V = OtpWaitView;

    closed spec fn view(&self) -> OtpWaitView {
        OtpWaitView {
            after_timestamp: self.after_timestamp as int,
            tries: self.tries as nat,
            attempt: self.attempt as nat,
            found: opt_view(self.found),
        }
    }
}

/// The pause before the next fetch, or `None` once the wait is over: a
/// passcode was found, every attempt was spent, or the pauses would no
/// longer fit in a `u64`.
pub open spec fn next_pause(w: OtpWaitView) -> Option<nat> {
    if w.found is None && w.attempt < w.tries && w.attempt < MAX_TRIES {
        Some(backoff_spec(w.attempt))
    } else {
        None
    }
}

impl OtpWait {
    /// A wait for a passcode sent at or after `after_timestamp`, with at most
    /// `tries` fetches.
    pub fn new(after_timestamp: i64, tries: usize) -> (r: OtpWait)
        ensures
            r@ == (OtpWaitView {
                after_timestamp: after_timestamp as int,
                tries: tries as nat,
                attempt: 0,
                found: None,
            }),
    {
        OtpWait { after_timestamp, tries, attempt: 0, found: None }
    }

    #[verifier::type_invariant]
    spec fn attempts_in_bounds(self) -> bool {
        self.attempt <= self.tries && self.attempt <= MAX_TRIES
    }

    /// The time the passcode was requested.
    pub fn after_timestamp(&self) -> (r: i64)
        ensures
            r as int == self@.after_timestamp,
    {
        self.after_timestamp
    }

    /// How long to sleep before the next fetch, or `None` when the wait is over.
    pub fn next_sleep(&self) -> (r: Option<u64>)
        ensures
            opt_int_u64(r) == next_pause(self@),
    {
        proof {
            use_type_invariant(self);
        }
        if self.found.is_none() && self.attempt < self.tries && self.attempt < MAX_TRIES {
            Some(backoff_seconds(self.attempt))
        } else {
            None
        }
    }

    /// Takes in what a fetch found.
    pub fn record(&mut self, fetched: Option<String>)
        requires
            next_pause(old(self)@) is Some,
        ensures
            final(self)@ == (OtpWaitView {
                attempt: old(self)@.attempt + 1,
                found: opt_view(fetched),
                ..old(self)@
            }),
    {
        proof {
            use_type_invariant(&*self);
        }
        self.attempt = self.attempt + 1;
        self.found = fetched;
    }

    /// What the wait found: `None` where every fetch came back empty.
    pub fn into_otp(self) -> (r: Option<String>)
        ensures
            opt_view(r) == self@.found,
    {
        self.found
    }
}

/// The pause as a number.
pub open spec fn opt_int_u64(o: Option<u64>) -> Option<nat> {
    match o {
        Some(t) => Some(t as nat),
        None => None,
    }
}

/// While no passcode has turned up, fetch `k` (counted from 0) comes after a
/// pause of `5 * 2^k` seconds, and after the last allowed fetch the wait ends
/// with nothing.
pub proof fn polling_schedule(after: int, tries: nat, k: nat)
    requires
        k <= tries,
    ensures
        k < tries && k < MAX_TRIES ==> next_pause(
            OtpWaitView { after_timestamp: after, tries, attempt: k, found: None },
        ) == Some(5 * pow2(k)),
        k == tries || k == MAX_TRIES ==> next_pause(
            OtpWaitView { after_timestamp: after, tries, attempt: k, found: None },
        ) is None,
        backoff_spec(k + 1) == 2 * backoff_spec(k),
{
    lemma_pow2_unfold(k + 1);
}

} // verus!
