//! The login session: the token the server hands out in its `ONIXSESSID`
//! cookie, kept between requests and sent back with each of them.
use crate::text::{first_field, has_prefix, in_class, lemma_leading_run, strip_prefix, up_to, CharClass};
use vstd::prelude::*;

verus! {

/// The text every session cookie starts with.
pub open spec fn cookie_prefix() -> Seq<char> {
    "ONIXSESSID="@
}

/// The session token a `Set-Cookie` value carries: what follows
/// `ONIXSESSID=` up to the first `;`, if the value sets that cookie.
pub open spec fn token_in(value: Seq<char>) -> Option<Seq<char>> {
    if has_prefix(value, cookie_prefix()) {
        Some(up_to(value.skip(cookie_prefix().len() as int), ';'))
    } else {
        None
    }
}

/// The token after a response with the given `Set-Cookie` values (in order;
/// `None` stands for a value that is not valid text): the token of the last
/// value that sets the session cookie, or `current` when none does.
pub open spec fn captured(current: Seq<char>, values: Seq<Option<String>>) -> Seq<char>
    decreases values.len(),
{
    if values.len() == 0 {
        current
    } else {
        let before = captured(current, values.drop_last());
        match values.last() {
            Some(v) => match token_in(v@) {
                Some(t) => t,
                None => before,
            },
            None => before,
        }
    }
}

/// The `Cookie` header value sent with a request: none without a token.
pub open spec fn cookie_for(token: Seq<char>) -> Option<Seq<char>> {
    if token.len() == 0 {
        None
    } else {
        Some(cookie_prefix() + token)
    }
}

/// An HTTP header as a name and a value.
#[derive(Clone, Debug)]
pub struct Header {
    pub name: String,
    pub value: String,
}

/// The user agent the client announces.
pub open spec fn user_agent() -> Seq<char> {
    "OnixMessengerRust/161 Windows"@
}

/// The login session of one client.
pub struct Session {
    token: String,
}

impl View for Session {
    type V = Seq<char>;

    /// The current token; empty when signed out.
    closed spec fn view(&self) -> Seq<char> {
        self.token@
    }
}

fn token_of(value: &str) -> (r: Option<&str>)
    ensures
        r is Some <==> token_in(value@) is Some,
        r matches Some(t) ==> t@ == token_in(value@)->Some_0,
{
    proof {
        reveal_strlit("ONIXSESSID=");
    }
    match strip_prefix(value, "ONIXSESSID=") {
        Some(rest) => Some(first_field(rest, ';')),
        None => None,
    }
}

impl Session {
    /// A session that starts from a stored token (empty: signed out).
    pub fn new(token: String) -> (s: Session)
        ensures
            s@ == token@,
    {
        Session { token }
    }

    /// The current token (`ApiClient::session`).
    pub fn token(&self) -> (r: String)
        ensures
            r@ == self@,
    {
        self.token.clone()
    }

    /// Whether there is no token.
    pub fn is_signed_out(&self) -> (b: bool)
        ensures
            b == (self@.len() == 0),
    {
        self.token.as_str().is_empty()
    }

    /// Forgets the token (after logging out).
    pub fn clear(&mut self)
        ensures
            final(self)@.len() == 0,
    {
        self.token = String::new();
    }

    /// Takes the token from a response's `Set-Cookie` values: the last one
    /// that sets `ONIXSESSID` wins; without one the token stays.
    pub fn capture(&mut self, set_cookie: &Vec<Option<String>>)
        ensures
            final(self)@ == captured(old(self)@, set_cookie@),
    {
        let mut i: usize = 0;
        while i < set_cookie.len()
            invariant
                i <= set_cookie.len(),
                self.token@ == captured(old(self)@, set_cookie@.take(i as int)),
            decreases set_cookie.len() - i,
        {
            proof {
                let t = set_cookie@.take(i + 1);
                assert(t.drop_last() =~= set_cookie@.take(i as int));
                assert(t.last() == set_cookie@[i as int]);
            }
            match &set_cookie[i] {
                Some(value) => match token_of(value.as_str()) {
                    Some(t) => {
                        self.token = t.to_owned();
                    },
                    None => {},
                },
                None => {},
            }
            i = i + 1;
        }
        proof {
            assert(set_cookie@.take(i as int) =~= set_cookie@);
        }
    }

    /// The `Cookie` header value for the next request.
    pub fn cookie(&self) -> (r: Option<String>)
        ensures
            r is Some <==> cookie_for(self@) is Some,
            r matches Some(c) ==> c@ == cookie_for(self@)->Some_0,
    {
        if self.token.as_str().is_empty() {
            None
        } else {
            let mut c = String::from_str("ONIXSESSID=");
            c.append(self.token.as_str());
            proof {
                reveal_strlit("ONIXSESSID=");
            }
            Some(c)
        }
    }

    /// The headers every request carries: `accept: application/json`, the
    /// user agent, and the session cookie when there is a token.
    pub fn request_headers(&self) -> (hs: Vec<Header>)
        ensures
            hs@.len() == (if self@.len() == 0 {
                2int
            } else {
                3int
            }),
            hs@[0].name@ == "accept"@,
            hs@[0].value@ == "application/json"@,
            hs@[1].name@ == "user-agent"@,
            hs@[1].value@ == user_agent(),
            self@.len() > 0 ==> hs@[2].name@ == "cookie"@ && hs@[2].value@ == cookie_prefix()
                + self@,
    {
        let mut hs: Vec<Header> = Vec::new();
        hs.push(
            Header { name: String::from_str("accept"), value: String::from_str("application/json") },
        );
        hs.push(
            Header {
                name: String::from_str("user-agent"),
                value: String::from_str("OnixMessengerRust/161 Windows"),
            },
        );
        match self.cookie() {
            Some(c) => {
                hs.push(Header { name: String::from_str("cookie"), value: c });
            },
            None => {},
        }
        hs
    }
}

/// A `Set-Cookie` value that sets the session cookie to a token without `;`
/// (optionally followed by `;` and attributes) makes that token the session:
/// the token the server writes is the token the client keeps.
pub proof fn lemma_capture_reads_back(current: Seq<char>, value: String, token: Seq<char>, attributes: Seq<char>)
    requires
        forall|i: int| 0 <= i < token.len() ==> token[i] != ';',
        attributes.len() == 0 || attributes[0] == ';',
        value@ == cookie_prefix() + token + attributes,
    ensures
        captured(current, seq![Some(value)]) == token,
{
    let s = seq![Some(value)];
    assert(s.drop_last() =~= Seq::<Option<String>>::empty());
    assert(value@.take(cookie_prefix().len() as int) =~= cookie_prefix());
    let rest = value@.skip(cookie_prefix().len() as int);
    assert(rest =~= token + attributes);
    lemma_up_to_prefix(token, attributes);
}

proof fn lemma_up_to_prefix(token: Seq<char>, attributes: Seq<char>)
    requires
        forall|i: int| 0 <= i < token.len() ==> token[i] != ';',
        attributes.len() == 0 || attributes[0] == ';',
    ensures
        up_to(token + attributes, ';') == token,
{
    let s = token + attributes;
    assert forall|k: int| 0 <= k < token.len() implies in_class(#[trigger] s[k], CharClass::AnyBut(';')) by {
        assert(s[k] == token[k]);
    }
    if token.len() < s.len() {
        assert(s[token.len() as int] == attributes[0]);
    }
    lemma_leading_run(s, CharClass::AnyBut(';'), token.len() as int);
    assert(s.take(token.len() as int) =~= token);
}

/// A signed-out session (after logging out) sends no session cookie.
pub proof fn lemma_signed_out_sends_no_cookie(token: Seq<char>)
    requires
        token.len() == 0,
    ensures
        cookie_for(token) is None,
{
}

/// Whether a `Set-Cookie` value sets the session cookie.
pub open spec fn sets_token(value: Option<String>) -> bool {
    match value {
        Some(v) => token_in(v@) is Some,
        None => false,
    }
}

/// Whether any of the values sets the session cookie.
pub open spec fn any_sets_token(values: Seq<Option<String>>) -> bool {
    exists|i: int| 0 <= i < values.len() && sets_token(#[trigger] values[i])
}

/// Values that do not set the session cookie leave the token as it was.
pub proof fn lemma_capture_keeps_token(current: Seq<char>, values: Seq<Option<String>>)
    requires
        !any_sets_token(values),
    ensures
        captured(current, values) == current,
{
    lemma_capture_outcome(current, values);
}

/// Taking the token twice from the same response changes nothing more than
/// taking it once.
pub proof fn lemma_capture_idempotent(current: Seq<char>, values: Seq<Option<String>>)
    ensures
        captured(captured(current, values), values) == captured(current, values),
{
    lemma_capture_outcome(current, values);
    lemma_capture_outcome(captured(current, values), values);
}

/// Either some value sets the token, and then the outcome does not depend on
/// where it started, or none does and it stays.
proof fn lemma_capture_outcome(current: Seq<char>, values: Seq<Option<String>>)
    ensures
        any_sets_token(values) ==> forall|other: Seq<char>|
            #[trigger] captured(other, values) == captured(current, values),
        !any_sets_token(values) ==> captured(current, values) == current,
    decreases values.len(),
{
    if values.len() > 0 {
        let init = values.drop_last();
        lemma_capture_outcome(current, init);
        assert forall|other: Seq<char>| any_sets_token(init) implies #[trigger] captured(other, init)
            == captured(current, init) by {
            lemma_capture_outcome(other, init);
        }
        assert(values.last() == values[values.len() - 1]);
        if any_sets_token(values) && !sets_token(values.last()) {
            let i: int = choose|i: int| 0 <= i < values.len() && sets_token(#[trigger] values[i]);
            assert(i < values.len() - 1);
            assert(init[i] == values[i]);
            assert(any_sets_token(init));
        }
        if any_sets_token(values) {
            assert forall|other: Seq<char>| #[trigger] captured(other, values) == captured(
                current,
                values,
            ) by {
                if !sets_token(values.last()) {
                    let i: int = choose|i: int| 0 <= i < values.len() && sets_token(#[trigger] values[i]);
                    assert(init[i] == values[i]);
                    assert(any_sets_token(init));
                    lemma_capture_outcome(other, init);
                    assert(captured(other, values) == captured(other, init));
                    assert(captured(current, values) == captured(current, init));
                } else {
                    let t = token_in(values.last()->Some_0@)->Some_0;
                    assert(captured(other, values) == t);
                    assert(captured(current, values) == t);
                }
            }
        }
        if any_sets_token(init) {
            let i: int = choose|i: int| 0 <= i < init.len() && sets_token(#[trigger] init[i]);
            assert(values[i] == init[i]);
        }
        if !any_sets_token(init) {
            assert forall|other: Seq<char>| !any_sets_token(init) implies #[trigger] captured(other, init)
                == other by {
                lemma_capture_outcome(other, init);
            }
            if !sets_token(values.last()) {
                assert forall|i: int| 0 <= i < values.len() implies !sets_token(#[trigger] values[i]) by {
                    if i < values.len() - 1 {
                        assert(values[i] == init[i]);
                    }
                }
            }
        }
    }
}

/// The token the server writes comes back in the next request's `Cookie`
/// header.
pub proof fn lemma_cookie_round_trip(current: Seq<char>, value: String, token: Seq<char>, attributes: Seq<char>)
    requires
        token.len() > 0,
        forall|i: int| 0 <= i < token.len() ==> token[i] != ';',
        attributes.len() == 0 || attributes[0] == ';',
        value@ == cookie_prefix() + token + attributes,
    ensures
        cookie_for(captured(current, seq![Some(value)])) == Some(cookie_prefix() + token),
{
    lemma_capture_reads_back(current, value, token, attributes);
}

} // verus!
