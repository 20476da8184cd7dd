//! Stable identifiers for news records, so that a record seen again on a later
//! fetch maps onto the row stored before.
use vstd::prelude::*;
use vstd::utf8::encode_utf8;
use crate::text::{chars_of, hex_of, hex_prefix, push_char, string_of};

verus! {

/// What a feed says of a record's identity: its value, and whether the feed
/// marks it as a permanent link.
#[derive(Debug, Clone)]
pub struct Guid {
    pub value: String,
    pub permalink: bool,
}

impl Guid {
    /// A field-by-field copy.
    pub fn duplicate(&self) -> (r: Guid)
        ensures
            r == *self,
    {
        Guid { value: self.value.clone(), permalink: self.permalink }
    }
}

/// Guids longer than this are not reused as they stand.
pub const GUID_MAX_CHARS: usize = 16;

/// Bytes of the digest kept in a hash token (two hex digits each).
pub const HASH_TOKEN_BYTES: usize = 8;

/// The SHA-256 digest of the bytes.
pub uninterp spec fn sha256_of(data: Seq<u8>) -> Seq<u8>;

/// The result of Unicode lower-case mapping of the characters.
pub uninterp spec fn lower_of(s: Seq<char>) -> Seq<char>;

/// Whether the character has the Unicode Alphabetic or Numeric property.
pub uninterp spec fn unicode_alphanumeric(c: char) -> bool;

/// Relies on sha2's `Sha256::digest`: the 32-byte digest of the input.
#[verifier::external_body]
fn sha256(data: &[u8]) -> (r: Vec<u8>)
    ensures
        r@ == sha256_of(data@),
        r@.len() == 32,
{
    <sha2::Sha256 as sha2::Digest>::digest(data).to_vec()
}

/// An ASCII character in lower case: `A` to `Z` mapped to `a` to `z`.
pub open spec fn ascii_lower(c: char) -> char {
    if 'A' <= c <= 'Z' { ((c as u32) + 32) as char } else { c }
}

/// Every character is ASCII.
pub open spec fn all_ascii(s: Seq<char>) -> bool {
    forall|i: int| 0 <= i < s.len() ==> (#[trigger] s[i] as u32) < 128
}

/// Relies on `str::to_lowercase`: the lower-case mapping of every character,
/// which on ASCII maps `A` to `Z` onto `a` to `z` and keeps the rest.
#[verifier::external_body]
pub(crate) fn lowercase(s: &str) -> (r: String)
    ensures
        r@ == lower_of(s@),
        all_ascii(s@) ==> r@ == s@.map_values(|c: char| ascii_lower(c)),
{
    s.to_lowercase()
}

/// Relies on `char::is_alphanumeric`, which on ASCII holds of letters and
/// digits alone.
#[verifier::external_body]
fn is_alphanumeric(c: char) -> (r: bool)
    ensures
        r == unicode_alphanumeric(c),
        (c as u32) < 128 ==> (r <==> ('a' <= c <= 'z' || 'A' <= c <= 'Z' || '0' <= c <= '9')),
{
    c.is_alphanumeric()
}

/// The source name as an id prefix: lower case, spaces turned into hyphens.
pub open spec fn slug_of(source: Seq<char>) -> Seq<char> {
    lower_of(source).map_values(|c: char| if c == ' ' { '-' } else { c })
}

/// A character that a guid token may keep: a letter or digit, `-` or `_`.
/// On ASCII the letters and digits are `a` to `z`, `A` to `Z` and `0` to `9`.
pub open spec fn guid_char(c: char) -> bool {
    if (c as u32) < 128 {
        ('a' <= c <= 'z' || 'A' <= c <= 'Z' || '0' <= c <= '9') || c == '-' || c == '_'
    } else {
        unicode_alphanumeric(c)
    }
}

/// The guid's characters that a token may keep, in order.
pub open spec fn guid_kept(g: Seq<char>) -> Seq<char>
    decreases g.len(),
{
    if g.len() == 0 {
        Seq::empty()
    } else if guid_char(g.last()) {
        guid_kept(g.drop_last()).push(g.last())
    } else {
        guid_kept(g.drop_last())
    }
}

/// At most the first `GUID_MAX_CHARS` characters.
pub open spec fn clip(s: Seq<char>) -> Seq<char> {
    if s.len() <= GUID_MAX_CHARS { s } else { s.subrange(0, GUID_MAX_CHARS as int) }
}

/// The sanitized guid: kept characters, clipped.
pub open spec fn sanitized_guid(g: Seq<char>) -> Seq<char> {
    clip(guid_kept(g))
}

/// The first 16 hex digits of the SHA-256 of the URL's UTF-8 bytes.
pub open spec fn url_hash(url: Seq<char>) -> Seq<char> {
    hex_of(sha256_of(encode_utf8(url)).subrange(0, HASH_TOKEN_BYTES as int))
}

/// `hash-` and the URL's hash.
pub open spec fn hash_token(url: Seq<char>) -> Seq<char> {
    seq!['h', 'a', 's', 'h', '-'] + url_hash(url)
}

/// The token after the slug: a sanitized guid where the guid can be trusted,
/// a hash of the URL otherwise.
pub open spec fn id_token(guid: Option<Guid>, url: Seq<char>) -> Seq<char> {
    match guid {
        None => hash_token(url),
        Some(g) => {
            if g.permalink || g.value@.len() > GUID_MAX_CHARS {
                hash_token(url)
            } else if sanitized_guid(g.value@).len() == 0 {
                hash_token(url)
            } else {
                seq!['g', 'u', 'i', 'd', '-'] + sanitized_guid(g.value@)
            }
        },
    }
}

/// The stable id: `{slug}-{token}`.
pub open spec fn stable_id(source: Seq<char>, guid: Option<Guid>, url: Seq<char>) -> Seq<char> {
    slug_of(source) + seq!['-'] + id_token(guid, url)
}

/// The source name as an id prefix.
pub fn slugify(source: &str) -> (r: String)
    ensures
        r@ == slug_of(source@),
{
    let lower = lowercase(source);
    let cs = chars_of(lower.as_str());
    let mut out: Vec<char> = Vec::new();
    let mut i: usize = 0;
    while i < cs.len()
        invariant
            cs@ == lower_of(source@),
            i <= cs@.len(),
            out@ == cs@.subrange(0, i as int).map_values(|c: char| if c == ' ' { '-' } else { c }),
        decreases cs@.len() - i,
    {
        let c = cs[i];
        if c == ' ' {
            out.push('-');
        } else {
            out.push(c);
        }
        assert(cs@.subrange(0, i + 1) =~= cs@.subrange(0, i as int).push(c));
        i = i + 1;
    }
    assert(cs@.subrange(0, cs@.len() as int) =~= cs@);
    string_of(&out)
}

/// The guid with only letters, digits, `-` and `_` kept, clipped to
/// `GUID_MAX_CHARS` characters.
pub fn sanitize_guid(value: &str) -> (r: String)
    ensures
        r@ == sanitized_guid(value@),
{
    let cs = chars_of(value);
    let mut out: Vec<char> = Vec::new();
    let mut i: usize = 0;
    while i < cs.len()
        invariant
            cs@ == value@,
            i <= cs@.len(),
            out@ == clip(guid_kept(cs@.subrange(0, i as int))),
        decreases cs@.len() - i,
    {
        let c = cs[i];
        let prefix = Ghost(cs@.subrange(0, i as int));
        assert(cs@.subrange(0, i + 1).drop_last() =~= prefix@);
        let keep = is_alphanumeric(c) || c == '-' || c == '_';
        if keep && out.len() < GUID_MAX_CHARS {
            out.push(c);
        }
        proof {
            let next = cs@.subrange(0, i + 1);
            if keep {
                assert(guid_kept(next) == guid_kept(prefix@).push(c));
                if guid_kept(prefix@).len() >= GUID_MAX_CHARS {
                    assert(clip(guid_kept(next)) =~= clip(guid_kept(prefix@)));
                }
            } else {
                assert(guid_kept(next) == guid_kept(prefix@));
            }
        }
        i = i + 1;
    }
    assert(cs@.subrange(0, cs@.len() as int) =~= cs@);
    string_of(&out)
}

/// The first 16 hex digits of the SHA-256 of the URL.
pub fn url_to_hash(url: &str) -> (r: String)
    ensures
        r@ == url_hash(url@),
        r@.len() == 16,
{
    let digest = sha256(url.as_bytes());
    let hex = hex_prefix(&digest, HASH_TOKEN_BYTES);
    proof {
        lemma_hex_len(digest@.subrange(0, HASH_TOKEN_BYTES as int));
    }
    hex
}

proof fn lemma_hex_len(b: Seq<u8>)
    ensures
        hex_of(b).len() == 2 * b.len(),
    decreases b.len(),
{
    if b.len() > 0 {
        lemma_hex_len(b.drop_last());
    }
}

/// `hash-` and the URL's hash.
fn hash_token_of(url: &str) -> (r: String)
    ensures
        r@ == hash_token(url@),
{
    let hex = url_to_hash(url);
    let mut s = String::new();
    push_char(&mut s, 'h');
    push_char(&mut s, 'a');
    push_char(&mut s, 's');
    push_char(&mut s, 'h');
    push_char(&mut s, '-');
    s.append(hex.as_str());
    assert(s@ =~= hash_token(url@));
    s
}

/// The token after the slug.
fn token(guid: &Option<Guid>, url: &str) -> (r: String)
    ensures
        r@ == id_token(*guid, url@),
{
    match guid {
        None => hash_token_of(url),
        Some(g) => {
            if g.permalink || g.value.unicode_len() > GUID_MAX_CHARS {
                hash_token_of(url)
            } else {
                let kept = sanitize_guid(g.value.as_str());
                if kept.unicode_len() == 0 {
                    hash_token_of(url)
                } else {
                    let mut s = String::new();
                    push_char(&mut s, 'g');
                    push_char(&mut s, 'u');
                    push_char(&mut s, 'i');
                    push_char(&mut s, 'd');
                    push_char(&mut s, '-');
                    s.append(kept.as_str());
                    assert(s@ =~= id_token(*guid, url@));
                    s
                }
            }
        },
    }
}

/// The stable id of a record from its source name, its guid if the feed gave
/// one, and its URL.
pub fn generate_stable_id(source_name: &str, guid: Option<Guid>, url: &str) -> (r: String)
    ensures
        r@ == stable_id(source_name@, guid, url@),
{
    let mut s = slugify(source_name);
    push_char(&mut s, '-');
    let t = token(&guid, url);
    s.append(t.as_str());
    s
}

/// Ids depend on the source name, guid and URL alone: equal inputs give
/// equal ids.
pub proof fn stable_id_deterministic(
    s1: Seq<char>, g1: Option<Guid>, u1: Seq<char>,
    s2: Seq<char>, g2: Option<Guid>, u2: Seq<char>,
)
    requires
        s1 == s2,
        u1 == u2,
        g1 is None <==> g2 is None,
        g1 is Some ==> g1->0.value@ == g2->0.value@ && g1->0.permalink == g2->0.permalink,
    ensures
        stable_id(s1, g1, u1) == stable_id(s2, g2, u2),
{
}

/// Ids of two sources whose slugs differ at a position that both have never
/// coincide, whatever the guids and URLs.
pub proof fn stable_id_prefix_disjoint(
    s1: Seq<char>, g1: Option<Guid>, u1: Seq<char>,
    s2: Seq<char>, g2: Option<Guid>, u2: Seq<char>,
    i: int,
)
    requires
        0 <= i < slug_of(s1).len(),
        i < slug_of(s2).len(),
        slug_of(s1)[i] != slug_of(s2)[i],
    ensures
        stable_id(s1, g1, u1) != stable_id(s2, g2, u2),
{
    assert(stable_id(s1, g1, u1)[i] == slug_of(s1)[i]);
    assert(stable_id(s2, g2, u2)[i] == slug_of(s2)[i]);
}

} // verus!
