//! Artwork addressed by its BLAKE3 digest, and the register that the local
//! HTTP side-channel serves it from.

use vstd::prelude::*;

verus! {

/// The BLAKE3 digest of `b`, 32 bytes.
pub uninterp spec fn blake3_digest(b: Seq<u8>) -> Seq<u8>;

/// Relies on `blake3::hash`: the 32-byte BLAKE3 digest of the input.
#[verifier::external_body]
pub(crate) fn digest(b: &[u8]) -> (r: [u8; 32])
    ensures
        r@ == blake3_digest(b@),
{
    *blake3::hash(b).as_bytes()
}

/// The lower-case hexadecimal digit for `v < 16`.
pub open spec fn hex_digit(v: int) -> char {
    "0123456789abcdef"@[v]
}

/// `b` in lower-case hexadecimal, two digits per byte, high nibble first.
pub open spec fn hex_text(b: Seq<u8>) -> Seq<char> {
    Seq::new(2 * b.len(), |i: int| if i % 2 == 0 {
        hex_digit(b[i / 2] as int / 16)
    } else {
        hex_digit(b[i / 2] as int % 16)
    })
}

/// Relies on `blake3::Hash::to_hex`: each byte as two lower-case hexadecimal
/// digits, high nibble first.
#[verifier::external_body]
pub(crate) fn digest_hex(d: &[u8; 32]) -> (r: String)
    ensures
        r@ == hex_text(d@),
{
    blake3::Hash::from_bytes(*d).to_hex().to_string()
}

/// The value of the hexadecimal digit `c`, either case.
pub open spec fn hex_value(c: u8) -> Option<int> {
    if 48 <= c <= 57 {
        Some(c - 48)
    } else if 97 <= c <= 102 {
        Some(c - 97 + 10)
    } else if 65 <= c <= 70 {
        Some(c - 65 + 10)
    } else {
        None
    }
}

/// Whether `t` spells a digest: 64 hexadecimal digits of either case.
pub open spec fn is_digest_text(t: Seq<u8>) -> bool {
    t.len() == 64 && forall|i: int| 0 <= i < 64 ==> (#[trigger] hex_value(t[i])) is Some
}

/// The digest that the 64 hexadecimal digits `t` spell.
pub open spec fn digest_of_text(t: Seq<u8>) -> Seq<u8> {
    Seq::new(32, |i: int| (16 * hex_value(t[2 * i])->Some_0 + hex_value(t[2 * i + 1])->Some_0) as u8)
}

/// Relies on `blake3::Hash::from_hex`: it accepts exactly 64 hexadecimal
/// digits of either case, two per byte, high nibble first.
#[verifier::external_body]
pub(crate) fn parse_digest(t: &[u8]) -> (r: Option<[u8; 32]>)
    ensures
        r is Some <==> is_digest_text(t@),
        r matches Some(d) ==> d@ == digest_of_text(t@),
{
    blake3::Hash::from_hex(t).ok().map(|h| *h.as_bytes())
}

/// The hexadecimal digest of `bytes`, as a `NowPlaying` carries it.
pub fn artwork_hash(bytes: &[u8]) -> (r: String)
    ensures
        r@ == hex_text(blake3_digest(bytes@)),
{
    let d = digest(bytes);
    digest_hex(&d)
}

/// One piece of artwork: its bytes, MIME type and digest.
#[derive(Debug, Clone)]
pub struct Artwork {
    pub bytes: Vec<u8>,
    pub mime: String,
    pub hash: [u8; 32],
}

/// The answer to a request for artwork.
#[derive(Debug)]
pub enum ArtworkResponse {
    /// 200 with this content type and body.
    Found { mime: String, bytes: Vec<u8> },
    /// 404.
    NotFound,
}

/// The register holding the artwork currently on show, if any.
#[derive(Debug)]
pub struct ArtworkStore {
    pub current: Option<Artwork>,
}

impl ArtworkStore {
    pub fn new() -> (r: ArtworkStore)
        ensures
            r.current is None,
    {
        ArtworkStore { current: None }
    }

    /// Replaces the artwork on show; its digest is computed from `bytes`.
    pub fn set_artwork(&mut self, mime: String, bytes: Vec<u8>)
        ensures
            final(self).current matches Some(a) && a.mime == mime && a.bytes == bytes && a.hash@
                == blake3_digest(bytes@),
    {
        let hash = digest(bytes.as_slice());
        self.current = Some(Artwork { bytes, mime, hash });
    }

    /// Answers `GET /<path>`: the artwork on show where `path` spells its
    /// digest in hexadecimal, of either case; otherwise not found.
    pub fn handle_request(&self, path: &[u8]) -> (r: ArtworkResponse)
        ensures
            match self.current {
                Some(a) => if is_digest_text(path@) && digest_of_text(path@) == a.hash@ {
                    r matches ArtworkResponse::Found { mime, bytes } && mime@ == a.mime@ && bytes@
                        == a.bytes@
                } else {
                    r is NotFound
                },
                None => r is NotFound,
            },
    {
        let a = match &self.current {
            Some(a) => a,
            None => return ArtworkResponse::NotFound,
        };
        let wanted = match parse_digest(path) {
            Some(d) => d,
            None => return ArtworkResponse::NotFound,
        };
        let mut i: usize = 0;
        while i < 32
            invariant
                i <= 32,
                self.current == Some(*a),
                is_digest_text(path@),
                wanted@ == digest_of_text(path@),
                forall|j: int| 0 <= j < i ==> wanted@[j] == a.hash@[j],
            decreases 32 - i,
        {
            if wanted[i] != a.hash[i] {
                assert(wanted@[i as int] != a.hash@[i as int]);
                return ArtworkResponse::NotFound;
            }
            i += 1;
        }
        assert(wanted@ =~= a.hash@);
        let mut bytes: Vec<u8> = Vec::new();
        bytes.extend_from_slice(a.bytes.as_slice());
        assert(bytes@ =~= a.bytes@);
        ArtworkResponse::Found { mime: a.mime.clone(), bytes }
    }
}

} // verus!
