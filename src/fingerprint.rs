use vstd::prelude::*;
use vstd::utf8::encode_utf8;

verus! {

/// Number of hex digits of the content digest that a fingerprint keeps.
pub const HASH_LENGTH: usize = 10;

/// The SHA-256 digest of `content`.
pub uninterp spec fn sha256_digest(content: Seq<u8>) -> Seq<u8>;

/// Relies on sha2's `Sha256::digest`: 32 bytes, depending on the content alone.
#[verifier::external_body]
fn sha256(content: &[u8]) -> (r: Vec<u8>)
    ensures
        r@ == sha256_digest(content@),
        r@.len() == 32,
{
    <sha2::Sha256 as sha2::Digest>::digest(content).to_vec()
}

/// The file stem of a path as `std::path::Path` defines it.
pub uninterp spec fn path_file_stem(path: Seq<char>) -> Option<Seq<char>>;

/// The extension of a path as `std::path::Path` defines it.
pub uninterp spec fn path_extension(path: Seq<char>) -> Option<Seq<char>>;

/// A path with its last component replaced as `Path::with_file_name` does.
pub uninterp spec fn path_with_file_name(path: Seq<char>, name: Seq<char>) -> Seq<char>;

/// Relies on std's `Path::file_stem`, which depends on the path text alone.
#[verifier::external_body]
fn file_stem(path: &str) -> (r: Option<String>)
    ensures
        match r {
            Some(s) => path_file_stem(path@) == Some(s@),
            None => path_file_stem(path@) is None,
        },
{
    std::path::Path::new(path).file_stem().map(|s| s.to_string_lossy().into_owned())
}

/// Relies on std's `Path::extension`, which depends on the path text alone.
#[verifier::external_body]
fn extension(path: &str) -> (r: Option<String>)
    ensures
        match r {
            Some(s) => path_extension(path@) == Some(s@),
            None => path_extension(path@) is None,
        },
{
    std::path::Path::new(path).extension().map(|s| s.to_string_lossy().into_owned())
}

/// Relies on std's `Path::with_file_name`, which depends on its arguments alone.
#[verifier::external_body]
fn with_file_name(path: &str, name: &str) -> (r: String)
    ensures
        r@ == path_with_file_name(path@, name@),
{
    std::path::Path::new(path).with_file_name(name).to_string_lossy().into_owned()
}

pub open spec fn hex_char(n: u8) -> char {
    if n < 10 {
        (('0' as u8) + n) as char
    } else {
        (('a' as u8) + n - 10) as char
    }
}

/// Lower-case hex digits of `bytes`, two per byte, high nibble first.
pub open spec fn lower_hex(bytes: Seq<u8>) -> Seq<char>
    decreases bytes.len(),
{
    if bytes.len() == 0 {
        seq![]
    } else {
        lower_hex(bytes.drop_last()) + seq![
            hex_char(bytes.last() / 16),
            hex_char(bytes.last() % 16),
        ]
    }
}

fn hex_digit(n: u8) -> (r: &'static str)
    requires
        n < 16,
    ensures
        r@ == seq![hex_char(n)],
{
    match n {
        0 => { proof { reveal_strlit("0"); } "0" },
        1 => { proof { reveal_strlit("1"); } "1" },
        2 => { proof { reveal_strlit("2"); } "2" },
        3 => { proof { reveal_strlit("3"); } "3" },
        4 => { proof { reveal_strlit("4"); } "4" },
        5 => { proof { reveal_strlit("5"); } "5" },
        6 => { proof { reveal_strlit("6"); } "6" },
        7 => { proof { reveal_strlit("7"); } "7" },
        8 => { proof { reveal_strlit("8"); } "8" },
        9 => { proof { reveal_strlit("9"); } "9" },
        10 => { proof { reveal_strlit("a"); } "a" },
        11 => { proof { reveal_strlit("b"); } "b" },
        12 => { proof { reveal_strlit("c"); } "c" },
        13 => { proof { reveal_strlit("d"); } "d" },
        14 => { proof { reveal_strlit("e"); } "e" },
        _ => { proof { reveal_strlit("f"); } "f" },
    }
}

/// The first `length` lower-case hex digits of the SHA-256 digest of `content`.
pub fn calculate_hash(content: &str, length: usize) -> (r: String)
    requires
        length <= 64,
    ensures
        r@ == lower_hex(sha256_digest(encode_utf8(content@))).subrange(0, length as int),
{
    let digest = sha256(content.as_bytes());
    let ghost d = digest@;
    let mut hex = String::new();
    let mut i: usize = 0;
    while i < digest.len()
        invariant
            d == digest@,
            d.len() == 32,
            i <= d.len(),
            hex@ == lower_hex(d.subrange(0, i as int)),
        decreases d.len() - i,
    {
        let b = digest[i];
        assert(d.subrange(0, i + 1).drop_last() =~= d.subrange(0, i as int));
        hex.append(hex_digit(b / 16));
        hex.append(hex_digit(b % 16));
        i = i + 1;
    }
    assert(d.subrange(0, 32) =~= d);
    proof {
        lemma_lower_hex_len(d);
    }
    hex.as_str().substring_char(0, length).to_owned()
}

proof fn lemma_lower_hex_len(bytes: Seq<u8>)
    ensures
        lower_hex(bytes).len() == 2 * bytes.len(),
    decreases bytes.len(),
{
    if bytes.len() > 0 {
        lemma_lower_hex_len(bytes.drop_last());
    }
}

/// The file name of a fingerprinted copy: `stem.hash.extension`, leaving out
/// what the file name lacks.
pub open spec fn fingerprinted_name(
    stem: Option<Seq<char>>,
    extension: Option<Seq<char>>,
    hash: Seq<char>,
) -> Seq<char> {
    let base = match stem {
        Some(s) => s + seq!['.'] + hash,
        None => hash,
    };
    match extension {
        Some(e) => base + seq!['.'] + e,
        None => base,
    }
}

/// Builds `stem.hash.extension` from the parts of a file name.
pub fn fingerprinted_file_name(stem: Option<&str>, extension: Option<&str>, hash: &str) -> (r:
    String)
    ensures
        r@ == fingerprinted_name(
            match stem {
                Some(s) => Some(s@),
                None => None,
            },
            match extension {
                Some(e) => Some(e@),
                None => None,
            },
            hash@,
        ),
{
    proof {
        reveal_strlit(".");
    }
    let mut name = String::new();
    if let Some(s) = stem {
        name.append(s);
        name.append(".");
    }
    name.append(hash);
    if let Some(e) = extension {
        name.append(".");
        name.append(e);
    }
    name
}

/// The path of the fingerprinted copy of the file at `path`: `hash` goes
/// between the file's stem and its extension.
pub fn append_hash_to_path(path: &str, hash: &str) -> (r: String)
    ensures
        r@ == path_with_file_name(
            path@,
            fingerprinted_name(path_file_stem(path@), path_extension(path@), hash@),
        ),
{
    let stem = file_stem(path);
    let ext = extension(path);
    let stem_ref = match &stem {
        Some(s) => Some(s.as_str()),
        None => None,
    };
    let ext_ref = match &ext {
        Some(e) => Some(e.as_str()),
        None => None,
    };
    let name = fingerprinted_file_name(stem_ref, ext_ref, hash);
    with_file_name(path, name.as_str())
}

} // verus!
