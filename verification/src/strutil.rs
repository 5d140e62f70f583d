//! Verified helpers on strings: prefix tests, prefix stripping, bounded
//! truncation, and concatenation, used to build and take apart reference
//! names such as `refs/heads/<branch>`.

use vstd::prelude::*;
use vstd::string::StrSliceExecFns;
use vstd::string::StringExecFns;

verus! {

/// `p` is a prefix of `s`.
pub open spec fn spec_has_prefix(s: Seq<char>, p: Seq<char>) -> bool {
    p.len() <= s.len() && s.subrange(0, p.len() as int) == p
}

/// `s` with a leading `p` removed; `s` unchanged when `p` is no prefix.
pub open spec fn spec_strip_prefix(s: Seq<char>, p: Seq<char>) -> Seq<char> {
    if spec_has_prefix(s, p) {
        s.skip(p.len() as int)
    } else {
        s
    }
}

/// The first `n` characters of `s`, or all of `s` when it is shorter.
pub open spec fn spec_first_n(s: Seq<char>, n: nat) -> Seq<char> {
    if s.len() <= n {
        s
    } else {
        s.subrange(0, n as int)
    }
}

/// A lowercase hexadecimal digit.
pub open spec fn spec_hex_digit(c: char) -> bool {
    ('0' <= c && c <= '9') || ('a' <= c && c <= 'f')
}

/// A canonical object id as text: exactly forty lowercase hexadecimal
/// digits, the one form the store's own rendering of an id produces.
pub open spec fn spec_is_oid_hex(s: Seq<char>) -> bool {
    s.len() == 40 && forall|i: int| 0 <= i < s.len() ==> spec_hex_digit(#[trigger] s[i])
}

pub fn has_prefix(s: &str, p: &str) -> (r: bool)
    ensures
        r == spec_has_prefix(s@, p@),
{
    let sl = s.unicode_len();
    let pl = p.unicode_len();
    if sl < pl {
        return false;
    }
    let sub = s.substring_char(0, pl);
    String::from_str(sub) == String::from_str(p)
}

pub fn strip_prefix_or_self(s: &String, p: &str) -> (r: String)
    ensures
        r@ == spec_strip_prefix(s@, p@),
{
    let sl = s.as_str().unicode_len();
    let pl = p.unicode_len();
    if has_prefix(s.as_str(), p) {
        String::from_str(s.as_str().substring_char(pl, sl))
    } else {
        s.clone()
    }
}

pub fn first_n(s: &str, n: usize) -> (r: String)
    ensures
        r@ == spec_first_n(s@, n as nat),
{
    let sl = s.unicode_len();
    if sl <= n {
        String::from_str(s)
    } else {
        String::from_str(s.substring_char(0, n))
    }
}

pub fn concat2(a: &str, b: &str) -> (r: String)
    ensures
        r@ == a@ + b@,
{
    String::from_str(a).concat(b)
}

pub fn concat3(a: &str, b: &str, c: &str) -> (r: String)
    ensures
        r@ == a@ + b@ + c@,
{
    concat2(a, b).concat(c)
}

} // verus!
