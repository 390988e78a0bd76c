//! Where each slot's socket lives.

use vstd::prelude::*;

verus! {

/// The decimal digits of `n`, most significant first.
pub open spec fn digits(n: nat) -> Seq<char>
    decreases n,
{
    if n < 10 {
        seq![digit(n)]
    } else {
        digits(n / 10) + seq![digit(n % 10)]
    }
}

pub open spec fn digit(d: nat) -> char {
    "0123456789"@[d as int]
}

fn push_digits(s: &mut String, n: u8)
    ensures
        final(s)@ == old(s)@ + digits(n as nat),
    decreases n,
{
    if n >= 10 {
        push_digits(s, n / 10);
    }
    proof {
        reveal_strlit("0123456789");
    }
    let d = n % 10;
    let c = if d == 0 {
        "0"
    } else if d == 1 {
        "1"
    } else if d == 2 {
        "2"
    } else if d == 3 {
        "3"
    } else if d == 4 {
        "4"
    } else if d == 5 {
        "5"
    } else if d == 6 {
        "6"
    } else if d == 7 {
        "7"
    } else if d == 8 {
        "8"
    } else {
        "9"
    };
    proof {
        reveal_strlit("0");
        reveal_strlit("1");
        reveal_strlit("2");
        reveal_strlit("3");
        reveal_strlit("4");
        reveal_strlit("5");
        reveal_strlit("6");
        reveal_strlit("7");
        reveal_strlit("8");
        reveal_strlit("9");
    }
    s.append(c);
    assert(s@ =~= old(s)@ + digits(n as nat));
}

/// `\\?\pipe\discord-ipc-<id>`
pub open spec fn pipe_name(id: u8) -> Seq<char> {
    "\\\\?\\pipe\\discord-ipc-"@ + digits(id as nat)
}

/// The Windows named pipe of slot `id`.
pub fn get_pipe_name(id: u8) -> (r: String)
    ensures
        r@ == pipe_name(id),
{
    let mut r = String::from_str("\\\\?\\pipe\\discord-ipc-");
    push_digits(&mut r, id);
    r
}

/// The first of the runtime directory variables that is set, or `/tmp`.
pub open spec fn runtime_dir(
    xdg_runtime_dir: Option<Seq<char>>,
    tmpdir: Option<Seq<char>>,
    tmp: Option<Seq<char>>,
    temp: Option<Seq<char>>,
) -> Seq<char> {
    match (xdg_runtime_dir, tmpdir, tmp, temp) {
        (Some(d), _, _, _) => d,
        (None, Some(d), _, _) => d,
        (None, None, Some(d), _) => d,
        (None, None, None, Some(d)) => d,
        (None, None, None, None) => "/tmp"@,
    }
}

pub open spec fn opt_view(o: Option<String>) -> Option<Seq<char>> {
    match o {
        Some(s) => Some(s@),
        None => None,
    }
}

/// The Unix socket of slot `id`: `<dir>/discord-ipc-<id>`, where `dir` is the
/// first that is set of `XDG_RUNTIME_DIR`, `TMPDIR`, `TMP` and `TEMP`, as
/// given, or `/tmp`.
pub fn get_pipe(
    id: u8,
    xdg_runtime_dir: Option<String>,
    tmpdir: Option<String>,
    tmp: Option<String>,
    temp: Option<String>,
) -> (r: String)
    ensures
        r@ == runtime_dir(opt_view(xdg_runtime_dir), opt_view(tmpdir), opt_view(tmp), opt_view(temp))
            + "/discord-ipc-"@ + digits(id as nat),
{
    let mut r = match (xdg_runtime_dir, tmpdir, tmp, temp) {
        (Some(d), _, _, _) => d,
        (None, Some(d), _, _) => d,
        (None, None, Some(d), _) => d,
        (None, None, None, Some(d)) => d,
        (None, None, None, None) => String::from_str("/tmp"),
    };
    r.append("/discord-ipc-");
    push_digits(&mut r, id);
    r
}

} // verus!
