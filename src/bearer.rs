//! Bearer credentials: parsing an `Authorization` header value of the form
//! `Bearer <token>`.

use vstd::prelude::*;
use vstd::string::{StrSliceExecFns, StringExecFns};

verus! {

/// Why a header value is not a bearer credential.
#[derive(Debug, Clone, Copy, PartialEq, Eq, Structural)]
pub enum ParseError {
    /// Too short to hold the scheme and a token, or no token after the scheme.
    Invalid,
    /// The value does not start with the `Bearer` scheme.
    MissingTokenSchemeName,
    /// The value holds a character that a header value cannot hold.
    FailedToStr,
}

impl ParseError {
    /// What went wrong, in words.
    pub fn message(&self) -> (r: &'static str)
        ensures
            *self is Invalid ==> r@ == "Invalid header value."@,
            *self is MissingTokenSchemeName ==> r@ == "Missing authenticate scheme."@,
            *self is FailedToStr ==> r@ == "Header value is not visible ASCII."@,
    {
        match self {
            ParseError::Invalid => "Invalid header value.",
            ParseError::MissingTokenSchemeName => "Missing authenticate scheme.",
            ParseError::FailedToStr => "Header value is not visible ASCII.",
        }
    }
}

pub open spec fn scheme() -> Seq<char> {
    seq!['B', 'e', 'a', 'r', 'e', 'r']
}

/// A character that a header value may hold as text: visible ASCII or a tab.
pub open spec fn visible(c: char) -> bool {
    (' ' <= c && c <= '~') || c == '\t'
}

pub open spec fn has_space(h: Seq<char>) -> bool {
    exists|i: int| 0 <= i < h.len() && h[i] == ' '
}

/// The index of the first space.
pub open spec fn first_space(h: Seq<char>) -> int {
    choose|i: int| 0 <= i < h.len() && h[i] == ' ' && forall|j: int| 0 <= j < i ==> h[j] != ' '
}

/// The token that header value `h` carries, or why it carries none.
pub open spec fn parse_spec(h: Seq<char>) -> Result<Seq<char>, ParseError> {
    if h.len() < 8 {
        Err(ParseError::Invalid)
    } else if exists|i: int| 0 <= i < h.len() && !visible(#[trigger] h[i]) {
        Err(ParseError::FailedToStr)
    } else if !has_space(h) {
        Err(ParseError::MissingTokenSchemeName)
    } else if h.take(first_space(h)) != scheme() {
        Err(ParseError::MissingTokenSchemeName)
    } else {
        Ok(h.skip(first_space(h) + 1))
    }
}

/// A bearer token.
#[derive(Debug, Clone)]
pub struct Bearer {
    pub token: String,
}

impl Bearer {
    pub fn new(raw: String) -> (r: Bearer)
        ensures
            r.token@ == raw@,
    {
        Bearer { token: raw }
    }

    pub fn get_token(&self) -> (r: &str)
        ensures
            r@ == self.token@,
    {
        self.token.as_str()
    }

    /// The header value that presents this token: `Bearer <token>`.
    pub fn header_value(&self) -> (r: String)
        ensures
            r@ == scheme().push(' ') + self.token@,
    {
        let mut s = String::from_str("Bearer ");
        proof {
            reveal_strlit("Bearer ");
            assert("Bearer "@ =~= scheme().push(' '));
        }
        s.append(self.token.as_str());
        s
    }

    /// Parses a header value `Bearer <token>`.
    pub fn parse(header: &str) -> (r: Result<Bearer, ParseError>)
        ensures
            match parse_spec(header@) {
                Ok(t) => r matches Ok(b) && b.token@ == t,
                Err(e) => r == Err::<Bearer, ParseError>(e),
            },
    {
        let n = header.unicode_len();
        if n < 8 {
            return Err(ParseError::Invalid);
        }
        let mut i: usize = 0;
        while i < n
            invariant
                n == header@.len(),
                8 <= n,
                i <= n,
                forall|j: int| 0 <= j < i ==> visible(#[trigger] header@[j]),
            decreases n - i,
        {
            let c = header.get_char(i);
            if !((' ' <= c && c <= '~') || c == '\t') {
                assert(!visible(header@[i as int]));
                return Err(ParseError::FailedToStr);
            }
            i = i + 1;
        }
        let mut k: usize = 0;
        while k < n
            invariant
                n == header@.len(),
                8 <= n,
                k <= n,
                forall|j: int| 0 <= j < k ==> header@[j] != ' ',
            ensures
                k <= n,
                k < n ==> header@[k as int] == ' ',
                forall|j: int| 0 <= j < k ==> header@[j] != ' ',
            decreases n - k,
        {
            if header.get_char(k) == ' ' {
                break;
            }
            k = k + 1;
        }
        if k == n {
            return Err(ParseError::MissingTokenSchemeName);
        }
        proof {
            let h = header@;
            assert(0 <= k < h.len() && h[k as int] == ' ' && forall|j: int|
                0 <= j < k ==> h[j] != ' ');
            assert(has_space(h));
            let f = first_space(h);
            assert(0 <= f < h.len() && h[f] == ' ' && forall|j: int| 0 <= j < f ==> h[j] != ' ');
            if f < k {
                assert(h[f] != ' ');
            }
            if f > k {
                assert(h[k as int] != ' ');
            }
            assert(f == k);
        }
        let is_scheme = k == 6 && header.get_char(0) == 'B' && header.get_char(1) == 'e'
            && header.get_char(2) == 'a' && header.get_char(3) == 'r' && header.get_char(4) == 'e'
            && header.get_char(5) == 'r';
        proof {
            let h = header@;
            if is_scheme {
                assert(h.take(k as int) =~= scheme());
            } else if k == 6 {
                assert(h.take(6)[0] == h[0]);
                assert(h.take(6)[1] == h[1]);
                assert(h.take(6)[2] == h[2]);
                assert(h.take(6)[3] == h[3]);
                assert(h.take(6)[4] == h[4]);
                assert(h.take(6)[5] == h[5]);
                assert(scheme()[0] == 'B' && scheme()[1] == 'e' && scheme()[2] == 'a');
                assert(scheme()[3] == 'r' && scheme()[4] == 'e' && scheme()[5] == 'r');
                assert(h.take(k as int) != scheme());
            } else {
                assert(h.take(k as int).len() != scheme().len());
            }
        }
        if !is_scheme {
            return Err(ParseError::MissingTokenSchemeName);
        }
        let token = header.substring_char(k + 1, n);
        proof {
            assert(header@.subrange(k + 1, n as int) =~= header@.skip(k + 1));
        }
        Ok(Bearer { token: String::from_str(token) })
    }
}

/// The credentials that a request presents.
#[derive(Debug, Clone)]
pub struct Credentials(pub Bearer);

impl Credentials {
    pub fn get_token(&self) -> (r: &str)
        ensures
            r@ == self.0.token@,
    {
        self.0.get_token()
    }
}

/// The `Authorization` header, holding a bearer credential.
#[derive(Debug, Clone)]
pub struct BearerHeader(pub Bearer);

impl BearerHeader {
    pub fn into_value(self) -> (r: Bearer)
        ensures
            r == self.0,
    {
        self.0
    }
}

} // verus!
