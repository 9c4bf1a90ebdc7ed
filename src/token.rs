use vstd::prelude::*;
use vstd::string::*;

verus! {

/// A request header as the HTTP layer hands it over.
#[derive(Debug)]
pub enum HeaderText {
    /// The request does not carry the header.
    Absent,
    /// The header is there but its value is not visible ASCII text.
    NotText,
    /// The header's value, as text.
    Text(String),
}

/// The opaque credential a client sends in the `seafile-token` header. It is
/// forwarded to the backend and never inspected.
#[derive(Debug)]
pub struct SeafileToken(pub String);

pub open spec fn token_header_name() -> Seq<char> {
    seq!['s', 'e', 'a', 'f', 'i', 'l', 'e', '-', 't', 'o', 'k', 'e', 'n']
}

pub open spec fn authorization_spec(token: Seq<char>) -> Seq<char> {
    seq!['T', 'o', 'k', 'e', 'n', ' '] + token
}

impl SeafileToken {
    /// The name of the header that carries the token.
    pub fn name() -> (r: String)
        ensures
            r@ == token_header_name(),
    {
        let r = String::from_str("seafile-token");
        proof {
            reveal_strlit("seafile-token");
        }
        assert(r@ =~= token_header_name());
        r
    }

    /// Reads the token from its header: it must be present, text, and not
    /// empty.
    pub fn parse(header: HeaderText) -> (r: Option<SeafileToken>)
        ensures
            match header {
                HeaderText::Text(s) => if s@.len() > 0 {
                    r matches Some(t) && t.0@ == s@
                } else {
                    r is None
                },
                _ => r is None,
            },
    {
        match header {
            HeaderText::Text(s) => {
                if s.as_str().unicode_len() > 0 {
                    Some(SeafileToken(s))
                } else {
                    None
                }
            },
            _ => None,
        }
    }

    /// The value of the `Authorization` header that presents this token to
    /// the backend: `Token <value>`.
    pub fn authorization(&self) -> (r: String)
        ensures
            r@ == authorization_spec(self.0@),
    {
        let mut r = String::from_str("Token ");
        proof {
            reveal_strlit("Token ");
        }
        r.append(self.0.as_str());
        assert(r@ =~= authorization_spec(self.0@));
        r
    }
}

} // verus!
