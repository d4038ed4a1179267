use vstd::prelude::*;
use vstd::utf8::encode_utf8;

verus! {

/// Longest label a domain name may hold.
pub const LABEL_MAX_LENGTH: usize = 63;

pub open spec fn is_ascii_alnum(b: u8) -> bool {
    (48 <= b && b <= 57) || (65 <= b && b <= 90) || (97 <= b && b <= 122)
}

pub const DOT: u8 = 46;

pub const AT: u8 = 64;

pub const HYPHEN: u8 = 45;

/// The punctuation allowed before the `@`: ``.!#$%&'*+/=?^_`{|}~-``.
pub open spec fn is_local_symbol(b: u8) -> bool {
    match b {
        33 | 35 | 36 | 37 | 38 | 39 | 42 | 43 | 45 | 46 | 47 | 61 | 63 | 94 | 95 | 96 | 123 | 124
        | 125 | 126 => true,
        _ => false,
    }
}

/// A byte that may stand in the part of an address before the `@`.
pub open spec fn is_local_part_byte(b: u8) -> bool {
    is_ascii_alnum(b) || is_local_symbol(b)
}

pub open spec fn is_domain_byte(b: u8) -> bool {
    is_ascii_alnum(b) || b == HYPHEN || b == DOT
}

/// Length of the run of non-dot bytes that ends just before position `n`.
pub open spec fn label_run(d: Seq<u8>, n: int) -> nat
    decreases n,
{
    if n <= 0 {
        0
    } else if d[n - 1] == DOT {
        0
    } else {
        label_run(d, n - 1) + 1
    }
}

/// A domain: dot-separated labels, each of 1 to 63 letters, digits and
/// hyphens, starting and ending with a letter or digit.
pub open spec fn is_domain(d: Seq<u8>) -> bool {
    &&& d.len() > 0
    &&& forall|k: int| 0 <= k < d.len() ==> is_domain_byte(#[trigger] d[k])
    &&& is_ascii_alnum(d[0])
    &&& is_ascii_alnum(d[d.len() - 1])
    &&& forall|k: int|
        0 < k < d.len() - 1 && #[trigger] d[k] == DOT ==> is_ascii_alnum(d[k - 1])
            && is_ascii_alnum(d[k + 1])
    &&& forall|n: int| 0 <= n <= d.len() ==> #[trigger] label_run(d, n) <= LABEL_MAX_LENGTH
}

/// The address `s` splits at an `@` into a non-empty local part and a domain.
pub open spec fn is_email_at(s: Seq<u8>, i: int) -> bool {
    &&& 0 < i < s.len()
    &&& s[i] == AT
    &&& forall|k: int| 0 <= k < i ==> is_local_part_byte(#[trigger] s[k])
    &&& is_domain(s.subrange(i + 1, s.len() as int))
}

/// The valid e-mail address grammar of the HTML standard, over UTF-8 bytes.
pub open spec fn is_email_bytes(s: Seq<u8>) -> bool {
    exists|i: int| is_email_at(s, i)
}

pub open spec fn valid_email(s: Seq<char>) -> bool {
    is_email_bytes(encode_utf8(s))
}

fn is_alnum_byte(b: u8) -> (r: bool)
    ensures
        r == is_ascii_alnum(b),
{
    (48 <= b && b <= 57) || (65 <= b && b <= 90) || (97 <= b && b <= 122)
}

fn is_local_byte(b: u8) -> (r: bool)
    ensures
        r == is_local_part_byte(b),
{
    is_alnum_byte(b) || is_symbol_byte(b)
}

fn is_symbol_byte(b: u8) -> (r: bool)
    ensures
        r == is_local_symbol(b),
{
    match b {
        33 | 35 | 36 | 37 | 38 | 39 | 42 | 43 | 45 | 46 | 47 | 61 | 63 | 94 | 95 | 96 | 123 | 124
        | 125 | 126 => true,
        _ => false,
    }
}

/// Whether the bytes of `b` from `start` on form a domain.
fn is_domain_from(b: &[u8], start: usize) -> (r: bool)
    requires
        start <= b@.len(),
    ensures
        r == is_domain(b@.subrange(start as int, b@.len() as int)),
{
    let ghost d = b@.subrange(start as int, b@.len() as int);
    let n = b.len() - start;
    if n == 0 || !is_alnum_byte(b[start]) || !is_alnum_byte(b[b.len() - 1]) {
        return false;
    }
    let len = b.len();
    let mut j: usize = 0;
    let mut run: usize = 0;
    while j < n
        invariant
            d == b@.subrange(start as int, b@.len() as int),
            n == d.len(),
            n > 0,
            is_ascii_alnum(d[0]),
            is_ascii_alnum(d[n - 1]),
            start + n == len,
            len == b@.len(),
            j <= n,
            run == label_run(d, j as int),
            forall|k: int| 0 <= k < j ==> is_domain_byte(#[trigger] d[k]),
            forall|k: int|
                0 < k < j && k < n - 1 && #[trigger] d[k] == DOT ==> is_ascii_alnum(d[k - 1])
                    && is_ascii_alnum(d[k + 1]),
            forall|m: int| 0 <= m <= j ==> #[trigger] label_run(d, m) <= LABEL_MAX_LENGTH,
        decreases n - j,
    {
        let c = b[start + j];
        assert(c == d[j as int]);
        if !(is_alnum_byte(c) || c == HYPHEN || c == DOT) {
            return false;
        }
        if c == DOT {
            if j > 0 && j + 1 < n {
                let before = b[start + j - 1];
                let after = b[start + j + 1];
                assert(before == d[j - 1]);
                assert(after == d[j + 1]);
                if !is_alnum_byte(before) || !is_alnum_byte(after) {
                    return false;
                }
            }
            run = 0;
        } else {
            if run >= LABEL_MAX_LENGTH {
                assert(label_run(d, j + 1) > LABEL_MAX_LENGTH);
                return false;
            }
            run = run + 1;
        }
        j = j + 1;
        assert(label_run(d, j as int) <= LABEL_MAX_LENGTH);
    }
    true
}

/// Whether `email` is a valid e-mail address as the HTML standard defines one.
pub fn is_valid_email(email: &str) -> (r: bool)
    ensures
        r == valid_email(email@),
{
    let b = email.as_bytes();
    let ghost s = b@;
    assert(s == encode_utf8(email@));
    let mut i: usize = 0;
    while i < b.len() && is_local_byte(b[i])
        invariant
            s == b@,
            i <= s.len(),
            forall|k: int| 0 <= k < i ==> is_local_part_byte(#[trigger] s[k]),
        decreases s.len() - i,
    {
        i = i + 1;
    }
    if i == 0 || i >= b.len() || b[i] != AT {
        assert forall|j: int| !is_email_at(s, j) by {
            if is_email_at(s, j) {
                if j < i {
                    assert(is_local_part_byte(s[j]));
                } else if j > i {
                    assert(is_local_part_byte(s[i as int]));
                }
            }
        }
        return false;
    }
    let r = is_domain_from(b, i + 1);
    if !r {
        assert forall|j: int| !is_email_at(s, j) by {
            if is_email_at(s, j) {
                if j < i {
                    assert(is_local_part_byte(s[j]));
                } else if j > i {
                    assert(is_local_part_byte(s[i as int]));
                }
            }
        }
    } else {
        assert(is_email_at(s, i as int));
    }
    r
}

} // verus!
