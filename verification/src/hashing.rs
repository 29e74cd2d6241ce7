//! Content hashes of manifests, for telling whether the remote one changed.
//!
//! Two manifests count as the same when their digests are equal. The digest
//! is SHA-256, written as 64 lower-case hexadecimal digits.

use sha2::{Digest, Sha256};
use vstd::prelude::*;

verus! {

/// The SHA-256 digest of `data`.
pub uninterp spec fn sha256(data: Seq<u8>) -> Seq<u8>;

/// Computes SHA-256 with `sha2`'s `Digest::digest` for `Sha256`.
///
/// Trusted: the result is the digest of exactly the bytes given, and, as the
/// output type of `Sha256` fixes, it is 32 bytes long.
#[verifier::external_body]
fn sha256_digest(data: &[u8]) -> (digest: Vec<u8>)
    ensures
        digest@ == sha256(data@),
        digest@.len() == 32,
{
    Sha256::digest(data).to_vec()
}

/// The hexadecimal digit for `n` (0 to 15), in lower case.
pub open spec fn hex_digit(n: int) -> char {
    if n == 0 {
        '0'
    } else if n == 1 {
        '1'
    } else if n == 2 {
        '2'
    } else if n == 3 {
        '3'
    } else if n == 4 {
        '4'
    } else if n == 5 {
        '5'
    } else if n == 6 {
        '6'
    } else if n == 7 {
        '7'
    } else if n == 8 {
        '8'
    } else if n == 9 {
        '9'
    } else if n == 10 {
        'a'
    } else if n == 11 {
        'b'
    } else if n == 12 {
        'c'
    } else if n == 13 {
        'd'
    } else if n == 14 {
        'e'
    } else {
        'f'
    }
}

/// The two hexadecimal digits of one byte, high digit first.
pub open spec fn hex_byte(byte: u8) -> Seq<char> {
    seq![hex_digit(byte as int / 16), hex_digit(byte as int % 16)]
}

/// Every byte written as two lower-case hexadecimal digits.
pub open spec fn hex_string(bytes: Seq<u8>) -> Seq<char>
    decreases bytes.len(),
{
    if bytes.len() == 0 {
        Seq::empty()
    } else {
        hex_string(bytes.drop_last()) + hex_byte(bytes.last())
    }
}

/// The digest by which manifests are compared: SHA-256 in hexadecimal.
pub open spec fn torrent_hash(data: Seq<u8>) -> Seq<char> {
    hex_string(sha256(data))
}

/// Hexadecimal text is twice as long as the bytes it stands for.
pub proof fn lemma_hex_string_len(bytes: Seq<u8>)
    ensures
        hex_string(bytes).len() == 2 * bytes.len(),
    decreases bytes.len(),
{
    if bytes.len() > 0 {
        lemma_hex_string_len(bytes.drop_last());
    }
}

/// Different bytes never give the same hexadecimal text.
pub proof fn lemma_hex_string_injective(a: Seq<u8>, b: Seq<u8>)
    requires
        hex_string(a) == hex_string(b),
    ensures
        a == b,
    decreases a.len(),
{
    lemma_hex_string_len(a);
    lemma_hex_string_len(b);
    if a.len() > 0 {
        lemma_hex_string_len(a.drop_last());
        lemma_hex_string_len(b.drop_last());
        let text = hex_string(a);
        let n = text.len() as int;
        assert(hex_byte(a.last()) == text.subrange(n - 2, n));
        assert(hex_byte(b.last()) == text.subrange(n - 2, n));
        assert(hex_string(a.drop_last()) == text.subrange(0, n - 2));
        assert(hex_string(b.drop_last()) == text.subrange(0, n - 2));
        assert(hex_byte(a.last())[0] == hex_byte(b.last())[0]);
        assert(hex_byte(a.last())[1] == hex_byte(b.last())[1]);
        assert(a.last() == b.last());
        lemma_hex_string_injective(a.drop_last(), b.drop_last());
        assert(a == a.drop_last().push(a.last()));
        assert(b == b.drop_last().push(b.last()));
    } else {
        assert(a =~= b);
    }
}

/// The same bytes always have the same hash.
pub proof fn lemma_same_bytes_same_hash(a: Seq<u8>, b: Seq<u8>)
    requires
        a == b,
    ensures
        torrent_hash(a) == torrent_hash(b),
{
}

/// Two byte sequences have the same hash exactly if their SHA-256 digests
/// agree: writing the digest as text loses nothing.
pub proof fn lemma_torrent_hash_is_the_digest(a: Seq<u8>, b: Seq<u8>)
    ensures
        torrent_hash(a) == torrent_hash(b) <==> sha256(a) == sha256(b),
{
    if torrent_hash(a) == torrent_hash(b) {
        lemma_hex_string_injective(sha256(a), sha256(b));
    }
}

fn hex_digit_str(n: u8) -> (s: &'static str)
    requires
        n < 16,
    ensures
        s@ == seq![hex_digit(n as int)],
{
    proof {
        reveal_strlit("0");
        reveal_strlit("1");
        reveal_strlit("2");
        reveal_strlit("3");
        reveal_strlit("4");
        reveal_strlit("5");
        reveal_strlit("6");
        reveal_strlit("7");
        reveal_strlit("8");
        reveal_strlit("9");
        reveal_strlit("a");
        reveal_strlit("b");
        reveal_strlit("c");
        reveal_strlit("d");
        reveal_strlit("e");
        reveal_strlit("f");
    }
    if n == 0 {
        "0"
    } else if n == 1 {
        "1"
    } else if n == 2 {
        "2"
    } else if n == 3 {
        "3"
    } else if n == 4 {
        "4"
    } else if n == 5 {
        "5"
    } else if n == 6 {
        "6"
    } else if n == 7 {
        "7"
    } else if n == 8 {
        "8"
    } else if n == 9 {
        "9"
    } else if n == 10 {
        "a"
    } else if n == 11 {
        "b"
    } else if n == 12 {
        "c"
    } else if n == 13 {
        "d"
    } else if n == 14 {
        "e"
    } else {
        "f"
    }
}

/// Writes bytes as lower-case hexadecimal text.
pub fn to_hex(bytes: &[u8]) -> (text: String)
    ensures
        text@ == hex_string(bytes@),
{
    let mut text = String::new();
    let mut i: usize = 0;
    while i < bytes.len()
        invariant
            i <= bytes.len(),
            text@ == hex_string(bytes@.take(i as int)),
        decreases bytes.len() - i,
    {
        let byte = bytes[i];
        proof {
            let after = bytes@.take(i + 1);
            assert(after.drop_last() == bytes@.take(i as int));
            assert(after.last() == byte);
        }
        text.append(hex_digit_str(byte / 16));
        text.append(hex_digit_str(byte % 16));
        i = i + 1;
    }
    proof {
        assert(bytes@.take(bytes.len() as int) == bytes@);
    }
    text
}

/// The hash of a manifest: its SHA-256 digest as 64 hexadecimal digits.
///
/// Equal bytes always give equal hashes, since the hash is a function of the
/// bytes alone.
pub fn calculate_torrent_hash(data: &[u8]) -> (hash: String)
    ensures
        hash@ == torrent_hash(data@),
        hash@.len() == 64,
{
    let digest = sha256_digest(data);
    proof {
        lemma_hex_string_len(digest@);
    }
    to_hex(digest.as_slice())
}

/// What reading the cached copy of the last applied manifest gave.
#[derive(Debug, Clone)]
pub enum CachedManifest {
    /// There is no cached copy yet.
    Absent,
    /// The bytes of the cached copy.
    Bytes(Vec<u8>),
    /// The copy exists and could not be read, with the reason.
    Failed(String),
}

/// The mathematical value of a [`CachedManifest`].
pub enum CachedManifestView {
    Absent,
    Bytes(Seq<u8>),
    Failed(Seq<char>),
}

impl View for CachedManifest {
    type V = CachedManifestView;

    open spec fn view(&self) -> CachedManifestView {
        match self {
            CachedManifest::Absent => CachedManifestView::Absent,
            CachedManifest::Bytes(bytes) => CachedManifestView::Bytes(bytes@),
            CachedManifest::Failed(reason) => CachedManifestView::Failed(reason@),
        }
    }
}

/// The hash of the cached manifest: none where there is no cached copy, the
/// reason where reading it failed.
pub open spec fn local_torrent_hash(cached: CachedManifestView) -> Result<Option<Seq<char>>, Seq<char>> {
    match cached {
        CachedManifestView::Absent => Ok(None),
        CachedManifestView::Bytes(bytes) => Ok(Some(torrent_hash(bytes))),
        CachedManifestView::Failed(reason) => Err(reason),
    }
}

/// Computes the hash of the cached manifest from what reading it gave.
pub fn get_local_torrent_hash(cached: &CachedManifest) -> (result: Result<Option<String>, String>)
    ensures
        match local_torrent_hash(cached@) {
            Ok(hash) => result matches Ok(found) && found.deep_view() == hash,
            Err(reason) => result matches Err(e) && e@ == reason,
        },
{
    match cached {
        CachedManifest::Absent => Ok(None),
        CachedManifest::Bytes(bytes) => Ok(Some(calculate_torrent_hash(bytes.as_slice()))),
        CachedManifest::Failed(reason) => Err(reason.clone()),
    }
}

/// A copy of a byte vector.
pub fn copy_bytes(bytes: &Vec<u8>) -> (copy: Vec<u8>)
    ensures
        copy@ == bytes@,
{
    let copy = bytes.clone();
    proof {
        assert(copy@ =~= bytes@);
    }
    copy
}

/// Whether a freshly fetched manifest differs from the one applied last:
/// there is no cached copy, or its hash is another.
pub open spec fn manifest_changed(remote: Seq<u8>, local_hash: Option<Seq<char>>) -> bool {
    match local_hash {
        Some(hash) => torrent_hash(remote) != hash,
        None => true,
    }
}

/// Decides whether the remote manifest is an update over the cached one.
pub fn remote_differs(remote: &[u8], local_hash: &Option<String>) -> (changed: bool)
    ensures
        changed == manifest_changed(remote@, local_hash.deep_view()),
{
    match local_hash {
        Some(hash) => {
            let remote_hash = calculate_torrent_hash(remote);
            !(remote_hash == *hash)
        },
        None => true,
    }
}

} // verus!
