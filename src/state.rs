//! Settings and the error that the shell sees.

use vstd::prelude::*;

verus! {

/// The application the presence server shows the activity for.
#[derive(Debug, Clone, Copy, PartialEq, Eq, Structural)]
pub struct Config {
    pub client_id: u64,
}

/// The value of the decimal digits `s`, most significant first.
pub open spec fn decimal_value(s: Seq<char>) -> nat
    decreases s.len(),
{
    if s.len() == 0 {
        0
    } else {
        decimal_value(s.drop_last()) * 10 + (s.last() as nat - 48) as nat
    }
}

/// Whether every character of `s` is an ASCII digit.
pub open spec fn all_digits(s: Seq<char>) -> bool {
    forall|i: int| 0 <= i < s.len() ==> '0' <= #[trigger] s[i] <= '9'
}

impl Config {
    /// Reads a client id written in decimal: `None` unless `text` is one or
    /// more ASCII digits whose value fits in a `u64`.
    pub fn parse(text: &str) -> (r: Option<Config>)
        ensures
            r is Some <==> text@.len() > 0 && all_digits(text@) && decimal_value(text@) <= u64::MAX,
            r matches Some(c) ==> c.client_id == decimal_value(text@),
    {
        let n = text.unicode_len();
        if n == 0 {
            return None;
        }
        let mut v: u64 = 0;
        let mut i: usize = 0;
        while i < n
            invariant
                n == text@.len(),
                i <= n,
                all_digits(text@.subrange(0, i as int)),
                v == decimal_value(text@.subrange(0, i as int)),
            decreases n - i,
        {
            let c = text.get_char(i);
            assert(text@.subrange(0, i + 1).drop_last() =~= text@.subrange(0, i as int));
            if c < '0' || c > '9' {
                assert(!all_digits(text@)) by {
                    assert(text@[i as int] == c);
                }
                return None;
            }
            let d = (c as u32 - 48) as u64;
            if v > (u64::MAX - d) / 10 {
                assert(v * 10 + d > u64::MAX) by (nonlinear_arith)
                    requires
                        v > (u64::MAX - d) / 10,
                        d <= 9,
                ;
                proof {
                    if all_digits(text@) {
                        assert(text@[i as int] == c);
                        lemma_prefix_grows(text@, i as int + 1);
                    }
                }
                return None;
            }
            v = v * 10 + d;
            i += 1;
        }
        assert(text@.subrange(0, n as int) =~= text@);
        Some(Config { client_id: v })
    }
}

/// The value of a digit string is at least the value of each of its prefixes.
proof fn lemma_prefix_grows(s: Seq<char>, k: int)
    requires
        0 <= k <= s.len(),
        all_digits(s),
    ensures
        decimal_value(s) >= decimal_value(s.subrange(0, k)),
    decreases s.len() - k,
{
    if k < s.len() {
        lemma_prefix_grows(s, k + 1);
        assert(s.subrange(0, k + 1).drop_last() =~= s.subrange(0, k));
        assert('0' <= s[k] <= '9');
    } else {
        assert(s.subrange(0, k) =~= s);
    }
}

/// The error that the shell sees: an opaque message.
#[derive(Debug, Clone)]
pub struct AppError {
    pub message: String,
}

impl AppError {
    pub fn new(message: String) -> (r: AppError)
        ensures
            r.message == message,
    {
        AppError { message }
    }

    /// The message that the user is shown.
    pub fn message(&self) -> (r: &String)
        ensures
            r == &self.message,
    {
        &self.message
    }
}

} // verus!
