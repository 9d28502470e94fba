//! The registry's settings: the port it listens on and the three
//! directories it works in.

use crate::checksum::hex_digit;
use vstd::prelude::*;
use vstd::string::*;

verus! {

/// Settings as read from the configuration file. Paths are held as text.
pub struct Config {
    pub port: u16,
    pub bare_repo: String,
    pub repo: String,
    pub crates: String,
}

impl Config {
    /// The port the server listens on.
    pub fn port(&self) -> (r: u16)
        ensures
            r == self.port,
    {
        self.port
    }

    /// The directory that holds the stored archives.
    pub fn crates_root(&self) -> (r: &str)
        ensures
            r@ == self.crates@,
    {
        self.crates.as_str()
    }

    /// The working tree of the index repository.
    pub fn repo_root(&self) -> (r: &str)
        ensures
            r@ == self.repo@,
    {
        self.repo.as_str()
    }

    /// The bare repository that the index is pushed to.
    pub fn bare_repo_root(&self) -> (r: &str)
        ensures
            r@ == self.bare_repo@,
    {
        self.bare_repo.as_str()
    }
}

/// The decimal digits of a number, most significant first.
pub open spec fn decimal_of(n: nat) -> Seq<char>
    decreases n,
{
    if n < 10 {
        seq![hex_digit(n as u8)]
    } else {
        decimal_of(n / 10) + seq![hex_digit((n % 10) as u8)]
    }
}

fn digit_text(d: u16) -> (r: String)
    requires
        d < 10,
    ensures
        r@ == seq![hex_digit(d as u8)],
{
    let t = if d == 0 { "0" } else if d == 1 { "1" } else if d == 2 { "2" } else if d == 3 { "3" }
        else if d == 4 { "4" } else if d == 5 { "5" } else if d == 6 { "6" } else if d == 7 { "7" }
        else if d == 8 { "8" } else { "9" };
    proof {
        reveal_strlit("0");
        reveal_strlit("1");
        reveal_strlit("2");
        reveal_strlit("3");
        reveal_strlit("4");
        reveal_strlit("5");
        reveal_strlit("6");
        reveal_strlit("7");
        reveal_strlit("8");
        reveal_strlit("9");
    }
    let r = String::from_str(t);
    proof {
        assert(r@ =~= seq![hex_digit(d as u8)]);
    }
    r
}

/// A number in decimal.
pub fn decimal_text(n: u16) -> (r: String)
    ensures
        r@ == decimal_of(n as nat),
    decreases n,
{
    if n < 10 {
        digit_text(n)
    } else {
        let r = decimal_text(n / 10).concat(digit_text(n % 10).as_str());
        proof {
            assert(r@ =~= decimal_of(n as nat));
        }
        r
    }
}

/// The registry's `config.json` for a server on localhost at `port`: where
/// archives are downloaded from, and where the API is.
pub open spec fn registry_config_of(port: Seq<char>) -> Seq<char> {
    "{\n    \"dl\":\"http://localhost:"@ + port
        + "/api/v1/crates/download/{crate}/{version}\",\n    \"api\": \"http://localhost:"@ + port
        + "\"\n}"@
}

/// The registry's `config.json` for a server on localhost at `port`.
pub fn registry_config_json(port: u16) -> (r: String)
    ensures
        r@ == registry_config_of(decimal_of(port as nat)),
{
    let p = decimal_text(port);
    String::from_str("{\n    \"dl\":\"http://localhost:")
        .concat(p.as_str())
        .concat("/api/v1/crates/download/{crate}/{version}\",\n    \"api\": \"http://localhost:")
        .concat(p.as_str())
        .concat("\"\n}")
}

} // verus!
