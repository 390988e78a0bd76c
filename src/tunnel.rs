//! Finding the public address that a tunnel sidecar announces on its error
//! stream: the first text of the form
//! `https://[a-zA-Z0-9-.]+\.trycloudflare\.com`.

use vstd::prelude::*;
use vstd::string::StringSliceAdditionalSpecFns;
use crate::json::ascii;

verus! {

/// Bytes allowed in the host part: ASCII letters, digits, `-` and `.`.
pub open spec fn host_byte(c: u8) -> bool {
    (97 <= c <= 122) || (65 <= c <= 90) || (48 <= c <= 57) || c == 45 || c == 46
}

pub open spec fn scheme() -> Seq<u8> {
    ascii("https://"@)
}

pub open spec fn domain_suffix() -> Seq<u8> {
    ascii(".trycloudflare.com"@)
}

/// Whether `s[i..j]` is an address: the scheme, one or more host bytes,
/// then the domain suffix (whose bytes are host bytes too).
pub open spec fn url_at(s: Seq<u8>, i: int, j: int) -> bool {
    &&& 0 <= i
    &&& i + 27 <= j <= s.len()
    &&& s.subrange(i, i + 8) == scheme()
    &&& forall|k: int| i + 8 <= k < j ==> #[trigger] host_byte(s[k])
    &&& s.subrange(j - 18, j) == domain_suffix()
}

fn ascii_bytes(s: &str) -> (r: &[u8])
    requires
        s.is_ascii(),
    ensures
        r@ == ascii(s@),
{
    broadcast use vstd::string::is_ascii_spec_bytes;

    let r = s.as_bytes();
    assert(r@ =~= ascii(s@));
    r
}

/// Whether `lit` stands in `s` at `at`.
fn bytes_at(s: &[u8], at: usize, lit: &[u8]) -> (r: bool)
    ensures
        r == (at + lit@.len() <= s@.len() && s@.subrange(at as int, at + lit@.len()) == lit@),
{
    if at > s.len() || lit.len() > s.len() - at {
        return false;
    }
    let n = s.len();
    let mut k: usize = 0;
    while k < lit.len()
        invariant
            n == s@.len(),
            at + lit@.len() <= s@.len(),
            k <= lit@.len(),
            forall|m: int| 0 <= m < k ==> s@[at + m] == lit@[m],
        decreases lit@.len() - k,
    {
        if s[at + k] != lit[k] {
            assert(s@.subrange(at as int, at + lit@.len())[k as int] != lit@[k as int]);
            return false;
        }
        k += 1;
    }
    assert(s@.subrange(at as int, at + lit@.len()) =~= lit@);
    true
}

fn is_host_byte(c: u8) -> (r: bool)
    ensures
        r == host_byte(c),
{
    (97 <= c && c <= 122) || (65 <= c && c <= 90) || (48 <= c && c <= 57) || c == 45 || c == 46
}

/// The first address in `line`, taking the longest one where several start
/// at the same place; `None` where there is none.
pub fn find_tunnel_url(line: &[u8]) -> (r: Option<Vec<u8>>)
    ensures
        r is None <==> forall|i: int, j: int| !url_at(line@, i, j),
        r matches Some(v) ==> exists|i: int, j: int|
            #![trigger url_at(line@, i, j)]
            url_at(line@, i, j) && v@ == line@.subrange(i, j) && forall|i2: int, j2: int|
                url_at(line@, i2, j2) ==> i <= i2 && (i2 == i ==> j2 <= j),
{
    proof {
        reveal_strlit("https://");
        reveal_strlit(".trycloudflare.com");
    }
    let head = ascii_bytes("https://");
    let tail = ascii_bytes(".trycloudflare.com");
    let n = line.len();
    let mut i: usize = 0;
    while i < n
        invariant
            n == line@.len(),
            i <= n,
            head@ == scheme(),
            tail@ == domain_suffix(),
            head@.len() == 8,
            tail@.len() == 18,
            forall|i2: int, j2: int| 0 <= i2 < i ==> !url_at(line@, i2, j2),
        decreases n - i,
    {
        if bytes_at(line, i, head) {
            let mut e: usize = i + 8;
            while e < n && is_host_byte(line[e])
                invariant
                    n == line@.len(),
                    i + 8 <= e <= n,
                    forall|k: int| i + 8 <= k < e ==> #[trigger] host_byte(line@[k]),
                decreases n - e,
            {
                e += 1;
            }
            let mut j: usize = e;
            while j - i >= 27
                invariant
                    n == line@.len(),
                    i + 8 <= j + 8,
                    i <= j,
                    i + 8 <= e <= n,
                    j <= e,
                    e < n ==> !host_byte(line@[e as int]),
                    head@ == scheme(),
                    tail@ == domain_suffix(),
                    tail@.len() == 18,
                    line@.subrange(i as int, i + 8) == scheme(),
                    forall|k: int| i + 8 <= k < e ==> #[trigger] host_byte(line@[k]),
                    forall|i2: int, j2: int| 0 <= i2 < i ==> !url_at(line@, i2, j2),
                    forall|j2: int| j < j2 <= e ==> !url_at(line@, i as int, j2),
                decreases j,
            {
                if bytes_at(line, j - 18, tail) {
                    assert(url_at(line@, i as int, j as int));
                    let mut v: Vec<u8> = Vec::new();
                    let mut k: usize = i;
                    while k < j
                        invariant
                            i <= k <= j <= n,
                            n == line@.len(),
                            v@ == line@.subrange(i as int, k as int),
                        decreases j - k,
                    {
                        v.push(line[k]);
                        k += 1;
                        assert(v@ =~= line@.subrange(i as int, k as int));
                    }
                    assert forall|i2: int, j2: int| url_at(line@, i2, j2) implies i <= i2 && (i2
                        == i ==> j2 <= j) by {
                        if i2 == i && j2 > e {
                            assert(host_byte(line@[e as int]));
                        }
                    }
                    return Some(v);
                }
                j -= 1;
            }
            assert(j < i + 27);
            assert forall|j2: int| !url_at(line@, i as int, j2) by {
                if j2 > e && url_at(line@, i as int, j2) {
                    assert(host_byte(line@[e as int]));
                }
            }
        }
        i += 1;
    }
    None
}

} // verus!
