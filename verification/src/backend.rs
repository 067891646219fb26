//! Backend base addresses, held as plain values (scheme, host, port) so the
//! engine can state exactly which URL an outbound request targets. Rendering
//! a base address as text, and grafting the inbound path onto it, are
//! verified here; parsing the rendered URL again is the transport's business.

use vstd::prelude::*;
use vstd::string::*;

verus! {

/// The character for one decimal digit.
pub open spec fn digit_char(d: nat) -> char {
    if d == 0 {
        '0'
    } else if d == 1 {
        '1'
    } else if d == 2 {
        '2'
    } else if d == 3 {
        '3'
    } else if d == 4 {
        '4'
    } else if d == 5 {
        '5'
    } else if d == 6 {
        '6'
    } else if d == 7 {
        '7'
    } else if d == 8 {
        '8'
    } else {
        '9'
    }
}

/// The usual decimal rendering of `n`: most significant digit first, no
/// leading zero except for `n == 0` itself.
pub open spec fn decimal_digits(n: nat) -> Seq<char>
    decreases n,
{
    if n < 10 {
        seq![digit_char(n)]
    } else {
        decimal_digits(n / 10).push(digit_char(n % 10))
    }
}

/// The one-character string for a decimal digit.
fn digit_str(d: u16) -> (r: &'static str)
    requires
        d < 10,
    ensures
        r@ == seq![digit_char(d as nat)],
{
    proof {
        reveal_strlit("0");
        reveal_strlit("1");
        reveal_strlit("2");
        reveal_strlit("3");
        reveal_strlit("4");
        reveal_strlit("5");
        reveal_strlit("6");
        reveal_strlit("7");
        reveal_strlit("8");
        reveal_strlit("9");
    }
    if d == 0 {
        let r = "0";
        assert(r@ =~= seq![digit_char(d as nat)]);
        r
    } else if d == 1 {
        let r = "1";
        assert(r@ =~= seq![digit_char(d as nat)]);
        r
    } else if d == 2 {
        let r = "2";
        assert(r@ =~= seq![digit_char(d as nat)]);
        r
    } else if d == 3 {
        let r = "3";
        assert(r@ =~= seq![digit_char(d as nat)]);
        r
    } else if d == 4 {
        let r = "4";
        assert(r@ =~= seq![digit_char(d as nat)]);
        r
    } else if d == 5 {
        let r = "5";
        assert(r@ =~= seq![digit_char(d as nat)]);
        r
    } else if d == 6 {
        let r = "6";
        assert(r@ =~= seq![digit_char(d as nat)]);
        r
    } else if d == 7 {
        let r = "7";
        assert(r@ =~= seq![digit_char(d as nat)]);
        r
    } else if d == 8 {
        let r = "8";
        assert(r@ =~= seq![digit_char(d as nat)]);
        r
    } else {
        let r = "9";
        assert(r@ =~= seq![digit_char(d as nat)]);
        r
    }
}

/// Renders `n` in decimal, proved against `decimal_digits`.
pub fn decimal_string(n: u16) -> (r: String)
    ensures
        r@ == decimal_digits(n as nat),
    decreases n,
{
    if n < 10 {
        let d = digit_str(n);
        d.to_owned()
    } else {
        let q: u16 = n / 10;
        let rem: u16 = n % 10;
        assert(q < n);
        let mut s = decimal_string(q);
        let d = digit_str(rem);
        s.append(d);
        proof {
            assert(s@ =~= decimal_digits((n / 10) as nat).push(digit_char((n % 10) as nat)));
        }
        s
    }
}

/// A backend base address: scheme, host and port, with no path of its own.
#[derive(Debug, Clone, PartialEq, Eq)]
pub struct BackendAddr {
    pub scheme: String,
    pub host: String,
    pub port: u16,
}

impl BackendAddr {
    /// The text of the base URL: `scheme://host:port`.
    pub open spec fn base_view(&self) -> Seq<char> {
        self.scheme@ + "://"@ + self.host@ + ":"@ + decimal_digits(self.port as nat)
    }

    /// Renders the base URL, exactly as `base_view` says.
    pub fn base_url(&self) -> (r: String)
        ensures
            r@ == self.base_view(),
    {
        let mut s = self.scheme.clone();
        s.append("://");
        s.append(self.host.as_str());
        s.append(":");
        let p = decimal_string(self.port);
        s.append(p.as_str());
        assert(s@ =~= self.base_view());
        s
    }

    /// The target URL for one outbound request: the base address with its
    /// (empty) path replaced by the inbound path, taken verbatim.
    pub fn target_url(&self, path: &str) -> (r: String)
        ensures
            r@ == self.base_view() + path@,
    {
        let mut s = self.base_url();
        s.append(path);
        s
    }
}

} // verus!
