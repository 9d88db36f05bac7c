//! Connection settings of the database that receivers can be queried from.
use url::{ParseError, Url};
use vstd::prelude::*;

verus! {

#[verifier::external_type_specification]
#[verifier::external_body]
pub struct ExUrl(Url);

#[verifier::external_type_specification]
#[verifier::external_body]
pub struct ExParseError(ParseError);

/// Whether the url crate parses the text as an absolute URL.
pub uninterp spec fn url_parses(s: Seq<char>) -> bool;

/// Relies on `Url::parse`: the outcome depends on the text alone.
#[verifier::external_body]
fn parse_url(s: &str) -> (r: Result<Url, ParseError>)
    ensures
        r is Ok <==> url_parses(s@),
{
    Url::parse(s)
}

/// A database password, shown only masked.
#[derive(Clone)]
pub struct Password(pub String);

/// `n` stars.
pub open spec fn stars(n: nat) -> Seq<char> {
    Seq::new(n, |i: int| '*')
}

/// The password with all but its last three characters replaced by stars,
/// so that a password of three characters is shown whole; one shorter than
/// three characters is all stars.
pub open spec fn masked_spec(p: Seq<char>) -> Seq<char> {
    if p.len() < 3 {
        stars(p.len())
    } else {
        stars((p.len() - 3) as nat) + p.subrange(p.len() - 3, p.len() as int)
    }
}

impl Password {
    /// The password as it may be shown.
    pub fn masked(&self) -> (r: String)
        ensures
            r@ == masked_spec(self.0@),
    {
        let n = self.0.as_str().unicode_len();
        let hidden: usize = if n < 3 {
            n
        } else {
            n - 3
        };
        let mut s = String::new();
        let mut i: usize = 0;
        while i < hidden
            invariant
                i <= hidden,
                s@ == stars(i as nat),
            decreases hidden - i,
        {
            s.append("*");
            proof {
                reveal_strlit("*");
                assert(stars(i as nat) + "*"@ =~= stars((i + 1) as nat));
            }
            i = i + 1;
        }
        let tail = self.0.as_str().substring_char(hidden, n);
        s.append(tail);
        assert(n < 3 ==> tail@ =~= Seq::<char>::empty());
        assert(n < 3 ==> s@ =~= stars(n as nat));
        s
    }
}

/// Where and as whom to connect to the database.
pub struct ConnVars {
    pub db_host: String,
    pub db_port: String,
    pub db_name: String,
    pub db_user: String,
    pub db_password: Password,
}

impl ConnVars {
    /// `postgresql://<user>:<password>@<host>:<port>/<name>`.
    pub open spec fn url_text(&self) -> Seq<char> {
        "postgresql://"@ + self.db_user@ + ":"@ + self.db_password.0@ + "@"@ + self.db_host@ + ":"@
            + self.db_port@ + "/"@ + self.db_name@
    }

    /// The connection string of the database.
    pub fn connection_string(&self) -> (r: String)
        ensures
            r@ == self.url_text(),
    {
        let mut s = String::from_str("postgresql://");
        s.append(self.db_user.as_str());
        s.append(":");
        s.append(self.db_password.0.as_str());
        s.append("@");
        s.append(self.db_host.as_str());
        s.append(":");
        s.append(self.db_port.as_str());
        s.append("/");
        s.append(self.db_name.as_str());
        s
    }

    /// The connection URL of the database.
    pub fn connection_url(&self) -> (r: Result<Url, ParseError>)
        ensures
            r is Ok <==> url_parses(self.url_text()),
    {
        let s = self.connection_string();
        parse_url(s.as_str())
    }
}

/// The local address that an SSH tunnel listens on.
pub const LOCALHOST: &'static str = "127.0.0.1";

impl ConnVars {
    /// `postgresql://<user>:<password>@127.0.0.1:<local_port>/<name>`.
    pub open spec fn tunnel_url_text(&self, local_port: Seq<char>) -> Seq<char> {
        "postgresql://"@ + self.db_user@ + ":"@ + self.db_password.0@ + "@"@ + LOCALHOST@ + ":"@
            + local_port + "/"@ + self.db_name@
    }

    /// The connection string of the database reached through a tunnel that
    /// listens on `local_port`.
    pub fn tunnel_connection_string(&self, local_port: &str) -> (r: String)
        ensures
            r@ == self.tunnel_url_text(local_port@),
    {
        let mut s = String::from_str("postgresql://");
        s.append(self.db_user.as_str());
        s.append(":");
        s.append(self.db_password.0.as_str());
        s.append("@");
        s.append(LOCALHOST);
        s.append(":");
        s.append(local_port);
        s.append("/");
        s.append(self.db_name.as_str());
        s
    }

    /// The connection URL of the database reached through a tunnel that
    /// listens on `local_port`.
    pub fn tunnel_connection_url(&self, local_port: &str) -> (r: Result<Url, ParseError>)
        ensures
            r is Ok <==> url_parses(self.tunnel_url_text(local_port@)),
    {
        let s = self.tunnel_connection_string(local_port);
        parse_url(s.as_str())
    }

    /// The forwarding rule of the tunnel:
    /// `127.0.0.1:<local_port>:<host>:<port>`.
    pub fn port_forward(&self, local_port: &str) -> (r: String)
        ensures
            r@ == LOCALHOST@ + ":"@ + local_port@ + ":"@ + self.db_host@ + ":"@ + self.db_port@,
    {
        let mut s = String::from_str(LOCALHOST);
        s.append(":");
        s.append(local_port);
        s.append(":");
        s.append(self.db_host.as_str());
        s.append(":");
        s.append(self.db_port.as_str());
        s
    }
}

} // verus!
