//! JSON text as it crosses the wire: acceptance of a body by serde_json, and
//! the fixed protocol messages that this library writes itself.

use vstd::prelude::*;
use vstd::string::StringSliceAdditionalSpecFns;

verus! {

#[verifier::external_type_specification]
#[verifier::external_body]
pub struct ExJsonValue(serde_json::Value);

#[verifier::external_type_specification]
#[verifier::external_body]
pub struct ExJsonError(serde_json::Error);

/// Whether serde_json accepts `b` as one JSON text (surrounding whitespace
/// allowed). The answer depends on the bytes alone.
pub uninterp spec fn is_json_text(b: Seq<u8>) -> bool;

/// Relies on `serde_json::from_slice` into a `Value`: it succeeds exactly on
/// the byte strings that hold one JSON text.
#[verifier::external_body]
fn parse_value(b: &[u8]) -> (r: Result<serde_json::Value, serde_json::Error>)
    ensures
        r.is_ok() == is_json_text(b@),
{
    serde_json::from_slice(b)
}

/// Tells whether `b` holds one JSON text.
pub fn is_json(b: &[u8]) -> (r: bool)
    ensures
        r == is_json_text(b@),
{
    match parse_value(b) {
        Ok(_) => true,
        Err(_) => false,
    }
}


/// The bytes of an ASCII string.
pub open spec fn ascii(s: Seq<char>) -> Seq<u8> {
    Seq::new(s.len(), |i: int| s[i] as u8)
}

/// Appends the bytes of the ASCII string `s`.
pub fn push_ascii(dst: &mut Vec<u8>, s: &str)
    requires
        s.is_ascii(),
    ensures
        final(dst)@ == old(dst)@ + ascii(s@),
{
    broadcast use vstd::string::is_ascii_spec_bytes;

    let b = s.as_bytes();
    let ghost start = dst@;
    let mut i: usize = 0;
    while i < b.len()
        invariant
            b@ == s.spec_bytes(),
            b@ =~= ascii(s@),
            i <= b@.len(),
            dst@ =~= start + b@.subrange(0, i as int),
        decreases b@.len() - i,
    {
        dst.push(b[i]);
        i += 1;
    }
    assert(b@.subrange(0, i as int) =~= b@);
}

/// The decimal digits of `n`, most significant first.
pub open spec fn decimal(n: nat) -> Seq<u8>
    decreases n,
{
    if n < 10 {
        seq![(48 + n) as u8]
    } else {
        decimal(n / 10) + seq![(48 + n % 10) as u8]
    }
}

/// Appends the decimal digits of `n`.
pub fn push_decimal(dst: &mut Vec<u8>, n: u64)
    ensures
        final(dst)@ == old(dst)@ + decimal(n as nat),
    decreases n,
{
    if n >= 10 {
        push_decimal(dst, n / 10);
    }
    let d = (n % 10) as u8;
    dst.push(48 + d);
    assert(dst@ =~= old(dst)@ + decimal(n as nat));
}

/// The text of `s` as a JSON string, quotes and escapes included, as serde_json
/// writes it. It depends on the characters alone.
pub uninterp spec fn json_string(s: Seq<char>) -> Seq<u8>;

/// Relies on `serde_json::to_vec` on a `str`: the bytes of the string as a
/// JSON string literal. Writing a string into a `Vec<u8>` cannot fail: the
/// serializer fails only where its writer does, and a `Vec<u8>` never does.
#[verifier::external_body]
fn string_to_json(s: &str) -> (r: Result<Vec<u8>, serde_json::Error>)
    ensures
        r is Ok,
        r matches Ok(v) ==> v@ == json_string(s@),
{
    serde_json::to_vec(s)
}

/// The commands this client sends to the presence server.
#[derive(Debug, Clone, Copy, PartialEq, Eq, Structural)]
pub enum Cmd {
    Authorize,
    Authenticate,
    SetActivity,
}

impl Cmd {
    /// The command's name on the wire.
    pub open spec fn name(self) -> Seq<u8> {
        match self {
            Cmd::Authorize => ascii("AUTHORIZE"@),
            Cmd::Authenticate => ascii("AUTHENTICATE"@),
            Cmd::SetActivity => ascii("SET_ACTIVITY"@),
        }
    }

    fn push_name(&self, dst: &mut Vec<u8>)
        ensures
            final(dst)@ == old(dst)@ + self.name(),
    {
        match self {
            Cmd::Authorize => {
                proof {
                    reveal_strlit("AUTHORIZE");
                }
                push_ascii(dst, "AUTHORIZE");
            },
            Cmd::Authenticate => {
                proof {
                    reveal_strlit("AUTHENTICATE");
                }
                push_ascii(dst, "AUTHENTICATE");
            },
            Cmd::SetActivity => {
                proof {
                    reveal_strlit("SET_ACTIVITY");
                }
                push_ascii(dst, "SET_ACTIVITY");
            },
        }
    }
}

/// `{"v":1,"client_id":"<client_id>"}`
pub open spec fn handshake_text(client_id: u64) -> Seq<u8> {
    ascii("{\"v\":1,\"client_id\":\""@) + decimal(client_id as nat) + ascii("\"}"@)
}

/// The body of the handshake packet that opens a connection.
pub fn handshake_body(client_id: u64) -> (r: Vec<u8>)
    ensures
        r@ == handshake_text(client_id),
{
    let mut r: Vec<u8> = Vec::new();
    proof {
        reveal_strlit("{\"v\":1,\"client_id\":\"");
        reveal_strlit("\"}");
    }
    push_ascii(&mut r, "{\"v\":1,\"client_id\":\"");
    push_decimal(&mut r, client_id);
    push_ascii(&mut r, "\"}");
    r
}

/// `{"nonce":"<nonce>","args":<args>,"cmd":"<cmd>"}`
pub open spec fn command_text(nonce: Seq<u8>, args: Seq<u8>, cmd: Cmd) -> Seq<u8> {
    ascii("{\"nonce\":\""@) + nonce + ascii("\",\"args\":"@) + args + ascii(",\"cmd\":\""@)
        + cmd.name() + ascii("\"}"@)
}

/// The body of a command: the nonce that its response will carry back, the
/// arguments (a JSON text), and the command's name.
pub fn command_body(nonce: &Vec<u8>, args: &Vec<u8>, cmd: Cmd) -> (r: Vec<u8>)
    ensures
        r@ == command_text(nonce@, args@, cmd),
{
    let mut r: Vec<u8> = Vec::new();
    proof {
        reveal_strlit("{\"nonce\":\"");
        reveal_strlit("\",\"args\":");
        reveal_strlit(",\"cmd\":\"");
        reveal_strlit("\"}");
    }
    push_ascii(&mut r, "{\"nonce\":\"");
    r.extend_from_slice(nonce.as_slice());
    push_ascii(&mut r, "\",\"args\":");
    r.extend_from_slice(args.as_slice());
    push_ascii(&mut r, ",\"cmd\":\"");
    cmd.push_name(&mut r);
    push_ascii(&mut r, "\"}");
    assert(r@ =~= command_text(nonce@, args@, cmd));
    r
}

/// `{"pid":<pid>,"activity":<activity>}`
pub open spec fn set_activity_text(pid: u32, activity: Seq<u8>) -> Seq<u8> {
    ascii("{\"pid\":"@) + decimal(pid as nat) + ascii(",\"activity\":"@) + activity + ascii("}"@)
}

/// The arguments of `SET_ACTIVITY` that show `activity` (a JSON text) for
/// process `pid`.
pub fn set_activity_args(pid: u32, activity: &Vec<u8>) -> (r: Vec<u8>)
    ensures
        r@ == set_activity_text(pid, activity@),
{
    let mut r: Vec<u8> = Vec::new();
    proof {
        reveal_strlit("{\"pid\":");
        reveal_strlit(",\"activity\":");
        reveal_strlit("}");
    }
    push_ascii(&mut r, "{\"pid\":");
    push_decimal(&mut r, pid as u64);
    push_ascii(&mut r, ",\"activity\":");
    r.extend_from_slice(activity.as_slice());
    push_ascii(&mut r, "}");
    assert(r@ =~= set_activity_text(pid, activity@));
    r
}

/// `{"pid":<pid>}`
pub open spec fn clear_activity_text(pid: u32) -> Seq<u8> {
    ascii("{\"pid\":"@) + decimal(pid as nat) + ascii("}"@)
}

/// The arguments of `SET_ACTIVITY` that clear the activity of process `pid`.
pub fn clear_activity_args(pid: u32) -> (r: Vec<u8>)
    ensures
        r@ == clear_activity_text(pid),
{
    let mut r: Vec<u8> = Vec::new();
    proof {
        reveal_strlit("{\"pid\":");
        reveal_strlit("}");
    }
    push_ascii(&mut r, "{\"pid\":");
    push_decimal(&mut r, pid as u64);
    push_ascii(&mut r, "}");
    r
}

/// `{"client_id":"<client_id>","scopes":["rpc","rpc.activities.write"]}`
pub open spec fn authorize_text(client_id: u64) -> Seq<u8> {
    ascii("{\"client_id\":\""@) + decimal(client_id as nat) + ascii(
        "\",\"scopes\":[\"rpc\",\"rpc.activities.write\"]}"@,
    )
}

/// The arguments of `AUTHORIZE`: the client and the scopes it asks for.
pub fn authorize_args(client_id: u64) -> (r: Vec<u8>)
    ensures
        r@ == authorize_text(client_id),
{
    let mut r: Vec<u8> = Vec::new();
    proof {
        reveal_strlit("{\"client_id\":\"");
        reveal_strlit("\",\"scopes\":[\"rpc\",\"rpc.activities.write\"]}");
    }
    push_ascii(&mut r, "{\"client_id\":\"");
    push_decimal(&mut r, client_id);
    push_ascii(&mut r, "\",\"scopes\":[\"rpc\",\"rpc.activities.write\"]}");
    r
}

/// `{"access_token":<token as a JSON string>}`
pub open spec fn authenticate_text(access_token: Seq<char>) -> Seq<u8> {
    ascii("{\"access_token\":"@) + json_string(access_token) + ascii("}"@)
}

/// The arguments of `AUTHENTICATE`: the access token as a JSON string.
pub fn authenticate_args(access_token: &str) -> (r: Vec<u8>)
    ensures
        r@ == authenticate_text(access_token@),
{
    let quoted = match string_to_json(access_token) {
        Ok(q) => q,
        Err(_) => Vec::new(),
    };
    let mut r: Vec<u8> = Vec::new();
    proof {
        reveal_strlit("{\"access_token\":");
        reveal_strlit("}");
    }
    push_ascii(&mut r, "{\"access_token\":");
    r.extend_from_slice(quoted.as_slice());
    push_ascii(&mut r, "}");
    assert(r@ =~= authenticate_text(access_token@));
    r
}

/// The alphabet of the sortable identifiers used as nonces.
pub open spec fn crockford() -> Seq<u8> {
    ascii("0123456789ABCDEFGHJKMNPQRSTVWXYZ"@)
}

/// The 26 characters that spell the 128-bit identifier `n`, five bits each,
/// most significant first.
pub open spec fn nonce_text(n: u128) -> Seq<u8> {
    Seq::new(26, |i: int| crockford()[((n >> ((5 * (25 - i)) as u128)) & 31) as int])
}

/// Relies on `ulid::Ulid::new`: a fresh identifier from the clock and a random
/// source. Nothing is known of its value.
#[verifier::external_body]
pub(crate) fn fresh_nonce() -> (r: u128) {
    ulid::Ulid::new().0
}

/// Relies on `ulid::Ulid::to_string`: the identifier in Crockford base 32,
/// 26 characters, five bits each from the most significant end.
#[verifier::external_body]
pub(crate) fn nonce_bytes(n: u128) -> (r: Vec<u8>)
    ensures
        r@ == nonce_text(n),
{
    ulid::Ulid(n).to_string().into_bytes()
}

} // verus!
