//! Character-level helpers shared by the command policy and the parsers.
use vstd::prelude::*;
use vstd::string::*;

verus! {

/// `p` occurs in `s` starting at index `k`.
pub open spec fn occurs_at(p: Seq<char>, s: Seq<char>, k: int) -> bool {
    0 <= k && k + p.len() <= s.len() && s.subrange(k, k + p.len()) == p
}

/// `p` occurs somewhere in `s` (substring match).
pub open spec fn is_infix(p: Seq<char>, s: Seq<char>) -> bool {
    exists|k: int| #[trigger] occurs_at(p, s, k)
}

/// What `str::to_lowercase` returns for the given characters.
pub uninterp spec fn lower_of(s: Seq<char>) -> Seq<char>;

/// What `str::trim` returns for the given characters.
pub uninterp spec fn trim_of(s: Seq<char>) -> Seq<char>;

/// A printable ASCII character other than space: never whitespace, and its
/// own lower case unless it is an upper-case letter.
pub open spec fn is_visible_ascii(c: char) -> bool {
    '!' <= c && c <= '~'
}

/// An ASCII character that lower-casing leaves as it is.
pub open spec fn is_ascii_non_upper(c: char) -> bool {
    c <= '\x7f' && !('A' <= c && c <= 'Z')
}

/// Relies on `str::to_lowercase`: the result depends on the characters alone;
/// the empty string stays empty, and ASCII text without upper-case letters
/// is unchanged.
#[verifier::external_body]
pub(crate) fn lowercase(s: &str) -> (r: String)
    ensures
        r@ == lower_of(s@),
        s@.len() == 0 ==> r@.len() == 0,
        (forall|i: int| 0 <= i < s@.len() ==> is_ascii_non_upper(#[trigger] s@[i])) ==> r@ == s@,
{
    s.to_lowercase()
}

/// Relies on `str::trim`: the result depends on the characters alone; it is
/// a contiguous part of the input, and the input itself when its first and
/// last characters are not whitespace.
#[verifier::external_body]
pub(crate) fn trim(s: &str) -> (r: &str)
    ensures
        r@ == trim_of(s@),
        is_infix(r@, s@),
        s@.len() > 0 && is_visible_ascii(s@[0]) && is_visible_ascii(s@.last()) ==> r@ == s@,
{
    s.trim()
}

/// The characters of `s`, in order.
pub fn chars_of(s: &str) -> (r: Vec<char>)
    ensures
        r@ == s@,
{
    let n = s.unicode_len();
    let mut r: Vec<char> = Vec::new();
    let mut i: usize = 0;
    while i < n
        invariant
            n == s@.len(),
            0 <= i <= n,
            r@ == s@.subrange(0, i as int),
        decreases n - i,
    {
        let c = s.get_char(i);
        r.push(c);
        i += 1;
        assert(r@ =~= s@.subrange(0, i as int));
    }
    assert(r@ =~= s@);
    r
}

/// Whether `p` occurs in `h` at index `k`.
pub fn matches_at(h: &Vec<char>, p: &Vec<char>, k: usize) -> (r: bool)
    ensures
        r == occurs_at(p@, h@, k as int),
{
    if k > h.len() || p.len() > h.len() - k {
        return false;
    }
    let mut j: usize = 0;
    while j < p.len()
        invariant
            k + p@.len() <= h@.len(),
            h@.len() <= usize::MAX,
            0 <= j <= p@.len(),
            forall|t: int| 0 <= t < j ==> h@[k + t] == p@[t],
        decreases p@.len() - j,
    {
        if h[k + j] != p[j] {
            assert(h@.subrange(k as int, k + p@.len())[j as int] != p@[j as int]);
            return false;
        }
        j += 1;
    }
    assert(h@.subrange(k as int, k + p@.len()) =~= p@);
    true
}

/// Whether `p` occurs anywhere in `h`.
pub fn contains_seq(h: &Vec<char>, p: &Vec<char>) -> (r: bool)
    ensures
        r == is_infix(p@, h@),
{
    if p.len() > h.len() {
        return false;
    }
    let last = h.len() - p.len();
    let mut k: usize = 0;
    while k < last
        invariant
            last == h@.len() - p@.len(),
            0 <= k <= last,
            forall|t: int| 0 <= t < k ==> !occurs_at(p@, h@, t),
        decreases last - k,
    {
        if matches_at(h, p, k) {
            return true;
        }
        k += 1;
    }
    matches_at(h, p, last)
}

/// Whether `h` starts with `p`.
pub fn starts_with_seq(h: &Vec<char>, p: &Vec<char>) -> (r: bool)
    ensures
        r == p@.is_prefix_of(h@),
{
    let r = matches_at(h, p, 0);
    assert(r == p@.is_prefix_of(h@)) by {
        if p@.len() <= h@.len() {
            assert(h@.subrange(0, p@.len() as int) == p@ <==> p@ =~= h@.subrange(0, p@.len() as int));
        }
    }
    r
}

/// Whether two strings hold the same characters.
pub fn str_eq(a: &str, b: &str) -> (r: bool)
    ensures
        r == (a@ == b@),
{
    let x = chars_of(a);
    let y = chars_of(b);
    if x.len() != y.len() {
        return false;
    }
    let mut i: usize = 0;
    while i < x.len()
        invariant
            x@ == a@,
            y@ == b@,
            x@.len() == y@.len(),
            0 <= i <= x@.len(),
            forall|t: int| 0 <= t < i ==> x@[t] == y@[t],
        decreases x@.len() - i,
    {
        if x[i] != y[i] {
            assert(x@[i as int] != y@[i as int]);
            return false;
        }
        i += 1;
    }
    assert(x@ =~= y@);
    true
}

/// The decimal digit for `d` (below ten).
pub open spec fn digit_char(d: int) -> char {
    seq!['0', '1', '2', '3', '4', '5', '6', '7', '8', '9'][d]
}

/// The decimal representation of `n`, without sign or leading zeros.
pub open spec fn decimal_of(n: nat) -> Seq<char>
    decreases n,
{
    if n < 10 {
        seq![digit_char(n as int)]
    } else {
        decimal_of(n / 10) + seq![digit_char((n % 10) as int)]
    }
}

fn digit_str(d: u64) -> (r: &'static str)
    requires
        d < 10,
    ensures
        r@ == seq![digit_char(d as int)],
{
    match d {
        0 => {
            proof {
                reveal_strlit("0");
            }
            "0"
        },
        1 => {
            proof {
                reveal_strlit("1");
            }
            "1"
        },
        2 => {
            proof {
                reveal_strlit("2");
            }
            "2"
        },
        3 => {
            proof {
                reveal_strlit("3");
            }
            "3"
        },
        4 => {
            proof {
                reveal_strlit("4");
            }
            "4"
        },
        5 => {
            proof {
                reveal_strlit("5");
            }
            "5"
        },
        6 => {
            proof {
                reveal_strlit("6");
            }
            "6"
        },
        7 => {
            proof {
                reveal_strlit("7");
            }
            "7"
        },
        8 => {
            proof {
                reveal_strlit("8");
            }
            "8"
        },
        _ => {
            proof {
                reveal_strlit("9");
            }
            "9"
        },
    }
}

/// The decimal representation of `n`.
pub fn decimal(n: u64) -> (r: String)
    ensures
        r@ == decimal_of(n as nat),
    decreases n,
{
    let d = digit_str(n % 10);
    if n < 10 {
        String::from_str(d)
    } else {
        let mut r = decimal(n / 10);
        r.append(d);
        r
    }
}

} // verus!
