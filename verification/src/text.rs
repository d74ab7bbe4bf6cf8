//! Character-level text helpers shared by the configuration validator and
//! the host probe: whitespace tests, line and substring search, bounded
//! decimal parsing, and decimal formatting.

use vstd::prelude::*;
use vstd::string::*;

verus! {

/// Whitespace as the validator and the probe understand it.
pub open spec fn is_space(c: char) -> bool {
    c == ' ' || c == '\t' || c == '\n' || c == '\r'
}

pub open spec fn is_digit(c: char) -> bool {
    48 <= c as int && c as int <= 57
}

pub open spec fn digit_val(c: char) -> int {
    c as int - 48
}

/// True when every character of `s` is whitespace (so also for the empty string).
pub open spec fn spec_blank(s: Seq<char>) -> bool {
    forall|i: int| 0 <= i < s.len() ==> is_space(s[i])
}

/// Whether the string is empty or holds only whitespace.
pub fn is_blank(s: &str) -> (r: bool)
    ensures
        r == spec_blank(s@),
{
    let n: usize = s.unicode_len();
    let mut i: usize = 0;
    while i < n
        invariant
            n == s@.len(),
            0 <= i <= n,
            forall|j: int| 0 <= j < i ==> is_space(s@[j]),
        decreases n - i,
    {
        let c = s.get_char(i);
        if !(c == ' ' || c == '\t' || c == '\n' || c == '\r') {
            return false;
        }
        i = i + 1;
    }
    true
}

/// True when `p` occurs in `s` starting at index `i`.
pub open spec fn match_at(s: Seq<char>, p: Seq<char>, i: int) -> bool {
    0 <= i && i + p.len() <= s.len() && (forall|k: int| 0 <= k < p.len() ==> s[i + k] == p[k])
}

/// True when index `i` begins a line of `s`.
pub open spec fn line_start(s: Seq<char>, i: int) -> bool {
    i == 0 || s[i - 1] == '\n'
}

/// The first index at or after `i` that begins a line starting with `p`.
pub open spec fn find_line_from(s: Seq<char>, p: Seq<char>, i: int) -> Option<int>
    decreases s.len() - i,
{
    if 0 <= i && i + p.len() <= s.len() && p.len() >= 1 {
        if line_start(s, i) && match_at(s, p, i) {
            Option::Some(i)
        } else {
            find_line_from(s, p, i + 1)
        }
    } else {
        Option::None
    }
}

/// The first index at or after `i` where `p` occurs, anywhere in a line.
pub open spec fn find_sub_from(s: Seq<char>, p: Seq<char>, i: int) -> Option<int>
    decreases s.len() - i,
{
    if 0 <= i && i + p.len() <= s.len() && p.len() >= 1 {
        if match_at(s, p, i) {
            Option::Some(i)
        } else {
            find_sub_from(s, p, i + 1)
        }
    } else {
        Option::None
    }
}

/// The index of the next newline at or after `i`, or the length of `s`.
pub open spec fn line_end_from(s: Seq<char>, i: int) -> int
    decreases s.len() - i,
{
    if 0 <= i && i < s.len() {
        if s[i] == '\n' {
            i
        } else {
            line_end_from(s, i + 1)
        }
    } else {
        i
    }
}

/// The first index of `c` in `s[i..end)`, if any.
pub open spec fn find_char_from(s: Seq<char>, c: char, i: int, end: int) -> Option<int>
    decreases end - i,
{
    if 0 <= i && i < end && end <= s.len() {
        if s[i] == c {
            Option::Some(i)
        } else {
            find_char_from(s, c, i + 1, end)
        }
    } else {
        Option::None
    }
}

/// The first index in `[i, end)` that does not hold whitespace.
pub open spec fn skip_spaces(s: Seq<char>, i: int, end: int) -> int
    decreases end - i,
{
    if 0 <= i && i < end && end <= s.len() && is_space(s[i]) {
        skip_spaces(s, i + 1, end)
    } else {
        i
    }
}

/// The end of `[start, j)` once trailing whitespace is dropped.
pub open spec fn trim_end_from(s: Seq<char>, start: int, j: int) -> int
    decreases j - start,
{
    if 0 <= start && start < j && j <= s.len() && is_space(s[j - 1]) {
        trim_end_from(s, start, j - 1)
    } else {
        j
    }
}

/// The end of the digit run beginning at `i`.
pub open spec fn digits_end(s: Seq<char>, i: int) -> int
    decreases s.len() - i,
{
    if 0 <= i && i < s.len() && is_digit(s[i]) {
        digits_end(s, i + 1)
    } else {
        i
    }
}

/// Folds the digits of `s[i..end)` into `acc` as a decimal number;
/// `None` once the value no longer fits in a `u64`.
pub open spec fn parse_u64_from(s: Seq<char>, i: int, end: int, acc: Option<u64>) -> Option<u64>
    decreases end - i,
{
    if i < end {
        let next = match acc {
            Option::None => Option::<u64>::None,
            Option::Some(v) => {
                let d = digit_val(s[i]);
                if v > (u64::MAX - d) / 10 {
                    Option::None
                } else {
                    Option::Some((10 * v + d) as u64)
                }
            },
        };
        parse_u64_from(s, i + 1, end, next)
    } else {
        acc
    }
}

/// Whether `p` occurs in `s` at index `i`.
pub fn str_match_at(s: &str, p: &str, i: usize) -> (r: bool)
    requires
        i + p@.len() <= s@.len(),
        s@.len() <= usize::MAX,
    ensures
        r == match_at(s@, p@, i as int),
{
    let plen: usize = p.unicode_len();
    let mut k: usize = 0;
    while k < plen
        invariant
            plen == p@.len(),
            i + plen <= s@.len(),
            s@.len() <= usize::MAX,
            0 <= k <= plen,
            forall|j: int| 0 <= j < k ==> s@[i + j] == p@[j],
        decreases plen - k,
    {
        if s.get_char(i + k) != p.get_char(k) {
            return false;
        }
        k = k + 1;
    }
    true
}

/// Finds the first line of `s` that begins with `p`.
pub fn find_prefixed_line(s: &str, p: &str) -> (r: Option<usize>)
    requires
        p@.len() >= 1,
    ensures
        (match r {
            Option::Some(i) => find_line_from(s@, p@, 0) == Option::Some(i as int)
                && i + p@.len() <= s@.len() && line_start(s@, i as int) && match_at(s@, p@, i as int),
            Option::None => find_line_from(s@, p@, 0) is None,
        }),
{
    let n: usize = s.unicode_len();
    let plen: usize = p.unicode_len();
    if plen > n {
        return None;
    }
    let mut i: usize = 0;
    let mut at_ls: bool = true;
    while i <= n - plen
        invariant
            n == s@.len(),
            plen == p@.len(),
            1 <= plen <= n,
            0 <= i <= n - plen + 1,
            at_ls == line_start(s@, i as int),
            find_line_from(s@, p@, 0) == find_line_from(s@, p@, i as int),
        decreases n - i,
    {
        if at_ls && str_match_at(s, p, i) {
            assert(find_line_from(s@, p@, i as int) == Option::Some(i as int));
            return Some(i);
        }
        assert(find_line_from(s@, p@, i as int) == find_line_from(s@, p@, i + 1));
        at_ls = s.get_char(i) == '\n';
        i = i + 1;
    }
    assert(find_line_from(s@, p@, i as int) is None);
    None
}

/// Finds the first occurrence of `p` anywhere in `s`.
pub fn find_substring(s: &str, p: &str) -> (r: Option<usize>)
    requires
        p@.len() >= 1,
    ensures
        (match r {
            Option::Some(i) => find_sub_from(s@, p@, 0) == Option::Some(i as int)
                && i + p@.len() <= s@.len() && match_at(s@, p@, i as int),
            Option::None => find_sub_from(s@, p@, 0) is None,
        }),
{
    let n: usize = s.unicode_len();
    let plen: usize = p.unicode_len();
    if plen > n {
        return None;
    }
    let mut i: usize = 0;
    while i <= n - plen
        invariant
            n == s@.len(),
            plen == p@.len(),
            1 <= plen <= n,
            0 <= i <= n - plen + 1,
            find_sub_from(s@, p@, 0) == find_sub_from(s@, p@, i as int),
        decreases n - i,
    {
        if str_match_at(s, p, i) {
            assert(find_sub_from(s@, p@, i as int) == Option::Some(i as int));
            return Some(i);
        }
        assert(find_sub_from(s@, p@, i as int) == find_sub_from(s@, p@, i + 1));
        i = i + 1;
    }
    assert(find_sub_from(s@, p@, i as int) is None);
    None
}

/// Finds the end of the line that holds index `from`.
pub fn find_line_end(s: &str, from: usize) -> (r: usize)
    requires
        from <= s@.len(),
    ensures
        r as int == line_end_from(s@, from as int),
        from <= r <= s@.len(),
{
    let n: usize = s.unicode_len();
    let mut i: usize = from;
    while i < n
        invariant
            n == s@.len(),
            from <= i <= n,
            line_end_from(s@, from as int) == line_end_from(s@, i as int),
        decreases n - i,
    {
        if s.get_char(i) == '\n' {
            return i;
        }
        i = i + 1;
    }
    i
}

/// Finds the first occurrence of `c` in `s[from..to)`.
pub fn find_char_in(s: &str, c: char, from: usize, to: usize) -> (r: Option<usize>)
    requires
        from <= to <= s@.len(),
    ensures
        (match r {
            Option::Some(i) => find_char_from(s@, c, from as int, to as int) == Option::Some(i as int)
                && from <= i < to,
            Option::None => find_char_from(s@, c, from as int, to as int) is None,
        }),
{
    let mut i: usize = from;
    while i < to
        invariant
            from <= i <= to <= s@.len(),
            find_char_from(s@, c, from as int, to as int) == find_char_from(s@, c, i as int, to as int),
        decreases to - i,
    {
        if s.get_char(i) == c {
            return Some(i);
        }
        i = i + 1;
    }
    None
}

/// Skips whitespace forward from `from`, staying below `to`.
pub fn skip_spaces_fwd(s: &str, from: usize, to: usize) -> (r: usize)
    requires
        from <= to <= s@.len(),
    ensures
        r as int == skip_spaces(s@, from as int, to as int),
        from <= r <= to,
{
    let mut i: usize = from;
    while i < to
        invariant
            from <= i <= to <= s@.len(),
            skip_spaces(s@, from as int, to as int) == skip_spaces(s@, i as int, to as int),
        decreases to - i,
    {
        let c = s.get_char(i);
        if !(c == ' ' || c == '\t' || c == '\n' || c == '\r') {
            return i;
        }
        i = i + 1;
    }
    i
}

/// Drops trailing whitespace from the range `[start, j)`.
pub fn trim_end_at(s: &str, start: usize, j: usize) -> (r: usize)
    requires
        start <= j <= s@.len(),
    ensures
        r as int == trim_end_from(s@, start as int, j as int),
        start <= r <= j,
{
    let mut k: usize = j;
    while k > start
        invariant
            start <= k <= j <= s@.len(),
            trim_end_from(s@, start as int, j as int) == trim_end_from(s@, start as int, k as int),
        decreases k,
    {
        let c = s.get_char(k - 1);
        if !(c == ' ' || c == '\t' || c == '\n' || c == '\r') {
            return k;
        }
        k = k - 1;
    }
    k
}

/// Scans to the end of the digit run that starts at `from`.
pub fn digits_end_fwd(s: &str, from: usize) -> (r: usize)
    requires
        from <= s@.len(),
    ensures
        r as int == digits_end(s@, from as int),
        from <= r <= s@.len(),
        forall|j: int| from <= j < r ==> is_digit(s@[j]),
{
    let n: usize = s.unicode_len();
    let mut i: usize = from;
    while i < n
        invariant
            n == s@.len(),
            from <= i <= n,
            digits_end(s@, from as int) == digits_end(s@, i as int),
            forall|j: int| from <= j < i ==> is_digit(s@[j]),
        decreases n - i,
    {
        let c = s.get_char(i);
        if !('0' <= c && c <= '9') {
            return i;
        }
        i = i + 1;
    }
    i
}

/// Reads the digit run `s[from..to)` as a decimal `u64`;
/// `None` when the value does not fit.
pub fn parse_u64_digits(s: &str, from: usize, to: usize) -> (r: Option<u64>)
    requires
        from <= to <= s@.len(),
        forall|j: int| from <= j < to ==> is_digit(s@[j]),
    ensures
        r == parse_u64_from(s@, from as int, to as int, Option::Some(0u64)),
{
    let mut acc: u64 = 0;
    let mut i: usize = from;
    while i < to
        invariant
            from <= i <= to <= s@.len(),
            forall|j: int| from <= j < to ==> is_digit(s@[j]),
            parse_u64_from(s@, from as int, to as int, Option::Some(0u64))
                == parse_u64_from(s@, i as int, to as int, Option::Some(acc)),
        decreases to - i,
    {
        let c = s.get_char(i);
        assert(is_digit(s@[i as int]));
        let d: u64 = (c as u32 - 48) as u64;
        assert(d == digit_val(s@[i as int]));
        if acc > (u64::MAX - d) / 10 {
            assert(parse_u64_from(s@, i as int, to as int, Option::Some(acc))
                == parse_u64_from(s@, i + 1, to as int, Option::<u64>::None));
            proof {
                lemma_parse_none(s@, i + 1, to as int);
            }
            return None;
        }
        acc = 10 * acc + d;
        i = i + 1;
    }
    Some(acc)
}

proof fn lemma_parse_none(s: Seq<char>, i: int, end: int)
    ensures
        parse_u64_from(s, i, end, Option::<u64>::None) is None,
    decreases end - i,
{
    if i < end {
        lemma_parse_none(s, i + 1, end);
    }
}

/// The characters of `s[i..j)` with every double quote removed.
pub open spec fn strip_quotes(s: Seq<char>, i: int, j: int) -> Seq<char>
    decreases j - i,
{
    if i < j {
        let pre = strip_quotes(s, i, j - 1);
        if s[j - 1] == '"' {
            pre
        } else {
            pre.push(s[j - 1])
        }
    } else {
        Seq::<char>::empty()
    }
}

/// Copies `s[from..to)` into a new string, leaving out double quotes.
pub fn strip_quotes_in(s: &str, from: usize, to: usize) -> (r: String)
    requires
        from <= to <= s@.len(),
    ensures
        r@ == strip_quotes(s@, from as int, to as int),
{
    let mut out = String::new();
    let mut i: usize = from;
    assert(out@ =~= strip_quotes(s@, from as int, from as int));
    while i < to
        invariant
            from <= i <= to <= s@.len(),
            out@ == strip_quotes(s@, from as int, i as int),
        decreases to - i,
    {
        let c = s.get_char(i);
        if c != '"' {
            push_char(&mut out, c);
        }
        i = i + 1;
        assert(out@ == strip_quotes(s@, from as int, i as int));
    }
    out
}

/// The decimal digits of `n`, most significant first, as ASCII bytes.
pub open spec fn dec_bytes(n: int) -> Seq<u8>
    decreases n,
{
    if n < 10 {
        seq![(48 + n) as u8]
    } else {
        dec_bytes(n / 10).push((48 + n % 10) as u8)
    }
}

/// The decimal digits of `n` as characters.
pub open spec fn dec_chars(n: int) -> Seq<char> {
    dec_bytes(n).map_values(|b: u8| b as char)
}

proof fn lemma_dec_bytes_ascii(n: int)
    requires
        0 <= n,
    ensures
        forall|i: int| 0 <= i < dec_bytes(n).len() ==> 48 <= #[trigger] dec_bytes(n)[i] <= 57,
    decreases n,
{
    if n < 10 {
        assert(dec_bytes(n) == seq![(48 + n) as u8]);
        assert(dec_bytes(n)[0] == (48 + n) as u8);
    } else {
        lemma_dec_bytes_ascii(n / 10);
        let pre = dec_bytes(n / 10);
        assert(dec_bytes(n) == pre.push((48 + n % 10) as u8));
        assert(forall|i: int| 0 <= i < pre.len() ==> #[trigger] dec_bytes(n)[i] == pre[i]);
        assert(dec_bytes(n)[pre.len() as int] == (48 + n % 10) as u8);
        assert(0 <= n % 10 < 10);
    }
}

/// Relies on `String::from_utf8`: bytes below 0x80 decode to the characters
/// with the same code points.
#[verifier::external_body]
pub(crate) fn ascii_to_string(v: Vec<u8>) -> (r: String)
    requires
        forall|i: int| 0 <= i < v@.len() ==> v@[i] < 128,
    ensures
        r@.len() == v@.len(),
        forall|i: int| 0 <= i < v@.len() ==> r@[i] == v@[i] as char,
{
    match String::from_utf8(v) {
        Ok(s) => s,
        Err(_) => String::new(),
    }
}

/// Relies on `String::push`: appends exactly the one given character.
#[verifier::external_body]
pub(crate) fn push_char(s: &mut String, c: char)
    ensures
        final(s)@ == old(s)@.push(c),
{
    s.push(c);
}

fn push_dec(n: u32, out: &mut Vec<u8>)
    ensures
        final(out)@ == old(out)@ + dec_bytes(n as int),
    decreases n,
{
    if n >= 10 {
        push_dec(n / 10, out);
    }
    out.push(48 + (n % 10) as u8);
    assert(out@ =~= old(out)@ + dec_bytes(n as int));
}

/// Formats `n` in decimal, as `u32::to_string` would.
pub fn u32_to_string(n: u32) -> (r: String)
    ensures
        r@ == dec_chars(n as int),
        r@.len() >= 1,
{
    let mut v: Vec<u8> = Vec::new();
    push_dec(n, &mut v);
    proof {
        lemma_dec_bytes_ascii(n as int);
    }
    let r = ascii_to_string(v);
    assert(r@ =~= dec_chars(n as int));
    r
}

} // verus!
