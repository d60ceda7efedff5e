//! Character-sequence helpers: whitespace, trimming, prefixes, decimal text.
use vstd::prelude::*;

verus! {

/// The characters with the Unicode `White_Space` property.
pub open spec fn is_ws(c: char) -> bool {
    let u = c as u32;
    (0x09 <= u <= 0x0d) || u == 0x20 || u == 0x85 || u == 0xa0 || u == 0x1680 || (0x2000 <= u
        <= 0x200a) || u == 0x2028 || u == 0x2029 || u == 0x202f || u == 0x205f || u == 0x3000
}

pub fn is_whitespace(c: char) -> (r: bool)
    ensures
        r == is_ws(c),
{
    let u = c as u32;
    (0x09 <= u && u <= 0x0d) || u == 0x20 || u == 0x85 || u == 0xa0 || u == 0x1680 || (0x2000
        <= u && u <= 0x200a) || u == 0x2028 || u == 0x2029 || u == 0x202f || u == 0x205f || u
        == 0x3000
}

/// `s` without its leading whitespace.
pub open spec fn trim_start(s: Seq<char>) -> Seq<char>
    decreases s.len(),
{
    if s.len() > 0 && is_ws(s[0]) {
        trim_start(s.drop_first())
    } else {
        s
    }
}

/// `s` without its trailing whitespace.
pub open spec fn trim_end(s: Seq<char>) -> Seq<char>
    decreases s.len(),
{
    if s.len() > 0 && is_ws(s.last()) {
        trim_end(s.drop_last())
    } else {
        s
    }
}

/// `s` without leading and trailing whitespace.
pub open spec fn trim(s: Seq<char>) -> Seq<char> {
    trim_end(trim_start(s))
}

/// Whether `s` begins with `p`.
pub open spec fn has_prefix(s: Seq<char>, p: Seq<char>) -> bool {
    p.len() <= s.len() && s.subrange(0, p.len() as int) == p
}

/// Whether `s` ends with `p`.
pub open spec fn has_suffix(s: Seq<char>, p: Seq<char>) -> bool {
    p.len() <= s.len() && s.subrange(s.len() - p.len(), s.len() as int) == p
}

/// Whether `s` holds a character that is not whitespace.
pub open spec fn has_visible(s: Seq<char>) -> bool {
    exists|i: int| 0 <= i < s.len() && !is_ws(#[trigger] s[i])
}

/// Copies `s[a..b]`.
pub fn copy_range(s: &[char], a: usize, b: usize) -> (r: Vec<char>)
    requires
        a <= b <= s@.len(),
    ensures
        r@ == s@.subrange(a as int, b as int),
{
    let mut r: Vec<char> = Vec::new();
    let mut i: usize = a;
    while i < b
        invariant
            a <= i <= b <= s@.len(),
            r@ == s@.subrange(a as int, i as int),
        decreases b - i,
    {
        r.push(s[i]);
        i = i + 1;
        assert(r@ =~= s@.subrange(a as int, i as int));
    }
    r
}

/// Index of the first character of `s[from..]` that is not whitespace, or
/// the length of `s`.
pub fn skip_ws(s: &[char], from: usize) -> (r: usize)
    requires
        from <= s@.len(),
    ensures
        from <= r <= s@.len(),
        trim_start(s@.subrange(from as int, s@.len() as int)) == s@.subrange(
            r as int,
            s@.len() as int,
        ),
        r < s@.len() ==> !is_ws(s@[r as int]),
        forall|k: int| from <= k < r ==> is_ws(#[trigger] s@[k]),
{
    let mut i = from;
    while i < s.len() && is_whitespace(s[i])
        invariant
            from <= i <= s@.len(),
            trim_start(s@.subrange(from as int, s@.len() as int)) == trim_start(
                s@.subrange(i as int, s@.len() as int),
            ),
            forall|k: int| from <= k < i ==> is_ws(#[trigger] s@[k]),
        decreases s@.len() - i,
    {
        assert(s@.subrange(i as int, s@.len() as int).drop_first() =~= s@.subrange(
            i + 1,
            s@.len() as int,
        ));
        i = i + 1;
    }
    i
}

/// End of `s[..to]` once its trailing whitespace is left out.
pub fn skip_ws_back(s: &[char], to: usize) -> (r: usize)
    requires
        to <= s@.len(),
    ensures
        r <= to,
        trim_end(s@.subrange(0, to as int)) == s@.subrange(0, r as int),
        r > 0 ==> !is_ws(s@[r - 1]),
        forall|k: int| r <= k < to ==> is_ws(#[trigger] s@[k]),
{
    let mut i = to;
    while i > 0 && is_whitespace(s[i - 1])
        invariant
            i <= to <= s@.len(),
            trim_end(s@.subrange(0, to as int)) == trim_end(s@.subrange(0, i as int)),
            forall|k: int| i <= k < to ==> is_ws(#[trigger] s@[k]),
        decreases i,
    {
        assert(s@.subrange(0, i as int).drop_last() =~= s@.subrange(0, i - 1));
        i = i - 1;
    }
    i
}

/// Copies `s` without leading and trailing whitespace.
pub fn trim_chars(s: &[char]) -> (r: Vec<char>)
    ensures
        r@ == trim(s@),
{
    let a = skip_ws(s, 0);
    assert(s@.subrange(0, s@.len() as int) =~= s@);
    let t = copy_range(s, a, s.len());
    let b = skip_ws_back(t.as_slice(), t.len());
    assert(t@.subrange(0, t@.len() as int) =~= t@);
    copy_range(t.as_slice(), 0, b)
}

/// Whether `s` begins with the characters of `p`.
pub fn starts_with(s: &[char], p: &str) -> (r: bool)
    ensures
        r == has_prefix(s@, p@),
{
    let n = p.unicode_len();
    if n > s.len() {
        return false;
    }
    let mut i: usize = 0;
    while i < n
        invariant
            n == p@.len(),
            n <= s@.len(),
            i <= n,
            forall|k: int| 0 <= k < i ==> s@[k] == p@[k],
        decreases n - i,
    {
        if s[i] != p.get_char(i) {
            assert(s@.subrange(0, n as int)[i as int] != p@[i as int]);
            return false;
        }
        i = i + 1;
    }
    assert(s@.subrange(0, n as int) =~= p@);
    true
}

/// Whether `s` ends with the characters of `p`.
pub fn ends_with(s: &[char], p: &str) -> (r: bool)
    ensures
        r == has_suffix(s@, p@),
{
    let n = p.unicode_len();
    if n > s.len() {
        return false;
    }
    let off = s.len() - n;
    let mut i: usize = 0;
    while i < n
        invariant
            n == p@.len(),
            n <= s@.len(),
            off + n == s@.len(),
            s@.len() <= usize::MAX,
            i <= n,
            forall|k: int| 0 <= k < i ==> s@[off + k] == p@[k],
        decreases n - i,
    {
        let j: usize = off + i;
        if s[j] != p.get_char(i) {
            assert(s@.subrange(off as int, s@.len() as int)[i as int] != p@[i as int]);
            return false;
        }
        i = i + 1;
    }
    assert(s@.subrange(off as int, s@.len() as int) =~= p@);
    true
}

/// Whether `s` holds exactly the characters of `p`.
pub fn equals(s: &[char], p: &str) -> (r: bool)
    ensures
        r == (s@ == p@),
{
    let b = starts_with(s, p);
    if b && s.len() == p.unicode_len() {
        assert(s@.subrange(0, p@.len() as int) =~= s@);
        true
    } else {
        proof {
            if s@ == p@ {
                assert(s@.subrange(0, p@.len() as int) =~= s@);
            }
        }
        false
    }
}

/// Position of the first `c` in `s[from..]`.
pub fn find_char(s: &[char], from: usize, c: char) -> (r: Option<usize>)
    requires
        from <= s@.len(),
    ensures
        r matches Some(i) ==> from <= i < s@.len() && s@[i as int] == c,
        forall|k: int|
            from <= k < (if let Some(i) = r {
                i as int
            } else {
                s@.len() as int
            }) ==> #[trigger] s@[k] != c,
{
    let mut i = from;
    while i < s.len()
        invariant
            from <= i <= s@.len(),
            forall|k: int| from <= k < i ==> #[trigger] s@[k] != c,
        decreases s@.len() - i,
    {
        if s[i] == c {
            return Some(i);
        }
        i = i + 1;
    }
    None
}

/// Whether `s` holds a character that is not whitespace.
pub fn any_visible(s: &[char]) -> (r: bool)
    ensures
        r == has_visible(s@),
{
    let mut i: usize = 0;
    while i < s.len()
        invariant
            i <= s@.len(),
            forall|k: int| 0 <= k < i ==> is_ws(#[trigger] s@[k]),
        decreases s@.len() - i,
    {
        if !is_whitespace(s[i]) {
            return true;
        }
        i = i + 1;
    }
    false
}

/// Decimal digits of `n`, most significant first, without sign or padding.
pub open spec fn decimal(n: nat) -> Seq<char>
    decreases n,
{
    if n < 10 {
        seq![digit_char(n)]
    } else {
        decimal(n / 10).push(digit_char(n % 10))
    }
}

pub open spec fn digit_char(d: nat) -> char {
    ((d + 48) as u32) as char
}

/// Relies on `u64`'s `Display`, through `ToString::to_string`: the decimal
/// digits of the number.
#[verifier::external_body]
pub fn decimal_text(n: u64) -> (r: String)
    ensures
        r@ == decimal(n as nat),
{
    n.to_string()
}

/// Relies on `str::chars`: the characters of the string, in order.
#[verifier::external_body]
pub fn chars_of(s: &str) -> (r: Vec<char>)
    ensures
        r@ == s@,
{
    s.chars().collect()
}

/// Relies on `String`'s `FromIterator<&char>`: the characters, in order.
#[verifier::external_body]
pub fn string_of(s: &[char]) -> (r: String)
    ensures
        r@ == s@,
{
    s.iter().collect()
}

/// Appends the characters of `p` to `v`.
pub fn push_str(v: &mut Vec<char>, p: &str)
    ensures
        final(v)@ == old(v)@ + p@,
{
    let n = p.unicode_len();
    let ghost v0 = v@;
    let mut i: usize = 0;
    while i < n
        invariant
            n == p@.len(),
            i <= n,
            v@ == v0 + p@.subrange(0, i as int),
        decreases n - i,
    {
        v.push(p.get_char(i));
        i = i + 1;
        assert(v@ =~= v0 + p@.subrange(0, i as int));
    }
    assert(p@.subrange(0, n as int) =~= p@);
}

/// Appends `p` to `v`.
pub fn push_chars(v: &mut Vec<char>, p: &[char])
    ensures
        final(v)@ == old(v)@ + p@,
{
    let ghost v0 = v@;
    let mut i: usize = 0;
    while i < p.len()
        invariant
            i <= p@.len(),
            v@ == v0 + p@.subrange(0, i as int),
        decreases p@.len() - i,
    {
        v.push(p[i]);
        i = i + 1;
        assert(v@ =~= v0 + p@.subrange(0, i as int));
    }
    assert(p@.subrange(0, p@.len() as int) =~= p@);
}

/// Position of the first `c` in `s`.
pub open spec fn index_of(s: Seq<char>, c: char) -> Option<int>
    decreases s.len(),
{
    if s.len() == 0 {
        None
    } else if s[0] == c {
        Some(0)
    } else {
        match index_of(s.drop_first(), c) {
            Some(i) => Some(i + 1),
            None => None,
        }
    }
}

pub proof fn lemma_index_of(s: Seq<char>, c: char, i: int)
    requires
        0 <= i <= s.len(),
        i < s.len() ==> s[i] == c,
        forall|k: int| 0 <= k < i ==> s[k] != c,
    ensures
        index_of(s, c) == (if i < s.len() {
            Some(i)
        } else {
            None::<int>
        }),
    decreases s.len(),
{
    if s.len() > 0 && i > 0 {
        assert(s[0] != c);
        assert forall|k: int| 0 <= k < i - 1 implies s.drop_first()[k] != c by {
            assert(s.drop_first()[k] == s[k + 1]);
        }
        lemma_index_of(s.drop_first(), c, i - 1);
    }
}

/// Position of the first occurrence of `p` in `s`.
pub open spec fn find_seq(s: Seq<char>, p: Seq<char>) -> Option<int>
    decreases s.len(),
{
    if s.len() < p.len() {
        None
    } else if s.subrange(0, p.len() as int) == p {
        Some(0)
    } else if s.len() == 0 {
        None
    } else {
        match find_seq(s.drop_first(), p) {
            Some(i) => Some(i + 1),
            None => None,
        }
    }
}

pub proof fn lemma_find_seq(s: Seq<char>, p: Seq<char>, i: int)
    requires
        0 <= i,
        i + p.len() <= s.len() + 1,
        i + p.len() <= s.len() ==> s.subrange(i, i + p.len()) == p,
        forall|k: int| 0 <= k < i && k + p.len() <= s.len() ==> #[trigger] s.subrange(k, k + p.len()) != p,
    ensures
        find_seq(s, p) == (if i + p.len() <= s.len() {
            Some(i)
        } else {
            None::<int>
        }),
    decreases s.len(),
{
    if s.len() < p.len() {
    } else if i == 0 {
    } else {
        assert(s.subrange(0int, 0int + p.len()) != p);
        assert(s.subrange(0int, 0int + p.len()) == s.subrange(0, p.len() as int));
        if s.len() > 0 {
            let t = s.drop_first();
            assert forall|k: int| 0 <= k < i - 1 && k + p.len() <= t.len() implies #[trigger] t.subrange(
                k,
                k + p.len(),
            ) != p by {
                assert(t.subrange(k, k + p.len()) =~= s.subrange(k + 1, k + 1 + p.len()));
            }
            if i + p.len() <= s.len() {
                assert(t.subrange(i - 1, i - 1 + p.len()) =~= s.subrange(i, i + p.len()));
            }
            lemma_find_seq(t, p, i - 1);
        }
    }
}

/// Position of the first occurrence of `p` in `s`.
pub fn find_str(s: &[char], p: &str) -> (r: Option<usize>)
    ensures
        r matches Some(i) ==> i + p@.len() <= s@.len(),
        find_seq(s@, p@) == (match r {
            Some(i) => Some(i as int),
            None => None,
        }),
{
    let n = p.unicode_len();
    if n > s.len() {
        return None;
    }
    if n == 0 {
        assert(s@.subrange(0, 0) =~= p@);
        return Some(0);
    }
    let mut i: usize = 0;
    while i <= s.len() - n
        invariant
            n == p@.len(),
            1 <= n <= s@.len(),
            s@.len() <= usize::MAX,
            i + n <= s@.len() + 1,
            forall|k: int| 0 <= k < i && k + n <= s@.len() ==> #[trigger] s@.subrange(k, k + n) != p@,
        decreases s@.len() + 1 - i - n,
    {
        let t = copy_range(s, i, i + n);
        if equals(t.as_slice(), p) {
            proof {
                lemma_find_seq(s@, p@, i as int);
            }
            return Some(i);
        }
        i = i + 1;
    }
    proof {
        lemma_find_seq(s@, p@, i as int);
    }
    None
}

/// The pieces of `s` between `c` characters (as `str::split(c)`).
pub open spec fn split_on(s: Seq<char>, c: char) -> Seq<Seq<char>>
    decreases s.len(),
{
    match index_of(s, c) {
        None => seq![s],
        Some(i) => if 0 <= i < s.len() {
            seq![s.subrange(0, i)] + split_on(s.subrange(i + 1, s.len() as int), c)
        } else {
            seq![s]
        },
    }
}

/// The pieces of `s` between `'\n'` characters (as `str::split('\n')`).
pub open spec fn split_nl(s: Seq<char>) -> Seq<Seq<char>> {
    split_on(s, '\n')
}

/// Splits `s` at each `c`.
pub fn split_by(s: &[char], c: char) -> (r: Vec<Vec<char>>)
    ensures
        r@.map_values(|v: Vec<char>| v@) == split_on(s@, c),
{
    let mut r: Vec<Vec<char>> = Vec::new();
    let mut i: usize = 0;
    let len = s.len();
    assert(s@.subrange(0, s@.len() as int) =~= s@);
    assert(r@.map_values(|v: Vec<char>| v@) =~= Seq::<Seq<char>>::empty());
    loop
        invariant
            len == s@.len(),
            i <= s@.len(),
            r@.map_values(|v: Vec<char>| v@) + split_on(s@.subrange(i as int, s@.len() as int), c)
                == split_on(s@, c),
        decreases s@.len() - i,
    {
        let ghost rest = s@.subrange(i as int, s@.len() as int);
        match find_char(s, i, c) {
            Some(j) => {
                proof {
                    assert forall|k: int| 0 <= k < j - i implies rest[k] != c by {
                        assert(rest[k] == s@[i + k]);
                    }
                    lemma_index_of(rest, c, j - i);
                    assert(rest.subrange(0, j - i) =~= s@.subrange(i as int, j as int));
                    assert(rest.subrange(j - i + 1, rest.len() as int) =~= s@.subrange(
                        j + 1,
                        s@.len() as int,
                    ));
                }
                let piece = copy_range(s, i, j);
                let ghost old_r = r@;
                r.push(piece);
                proof {
                    assert(r@.map_values(|v: Vec<char>| v@) =~= old_r.map_values(
                        |v: Vec<char>| v@,
                    ).push(piece@));
                }
                i = j + 1;
            },
            None => {
                proof {
                    assert forall|k: int| 0 <= k < rest.len() implies rest[k] != c by {
                        assert(rest[k] == s@[i + k]);
                    }
                    lemma_index_of(rest, c, rest.len() as int);
                }
                let piece = copy_range(s, i, s.len());
                let ghost old_r = r@;
                r.push(piece);
                proof {
                    assert(r@.map_values(|v: Vec<char>| v@) =~= old_r.map_values(
                        |v: Vec<char>| v@,
                    ).push(piece@));
                }
                return r;
            },
        }
    }
}

/// Splits `s` at each `'\n'`.
pub fn split_lines(s: &[char]) -> (r: Vec<Vec<char>>)
    ensures
        r@.map_values(|v: Vec<char>| v@) == split_nl(s@),
{
    split_by(s, '\n')
}

/// `s` without its trailing `'%'` characters.
pub open spec fn strip_percent(s: Seq<char>) -> Seq<char>
    decreases s.len(),
{
    if s.len() > 0 && s.last() == '%' {
        strip_percent(s.drop_last())
    } else {
        s
    }
}

pub open spec fn is_digit(c: char) -> bool {
    '0' <= c <= '9'
}

/// The number that the decimal digits `s` write.
pub open spec fn digits_value(s: Seq<char>) -> nat
    decreases s.len(),
{
    if s.len() == 0 {
        0
    } else {
        digits_value(s.drop_last()) * 10 + (s.last() as nat - '0' as nat) as nat
    }
}

/// A percentage written as decimal digits followed by any number of `'%'`.
pub open spec fn percent_of(s: Seq<char>) -> Option<u32> {
    let d = strip_percent(s);
    if d.len() > 0 && (forall|i: int| 0 <= i < d.len() ==> is_digit(#[trigger] d[i]))
        && digits_value(d) <= u32::MAX {
        Some(digits_value(d) as u32)
    } else {
        None
    }
}

/// Reads a percentage written as decimal digits followed by any number of `'%'`.
pub fn parse_percent(s: &[char]) -> (r: Option<u32>)
    ensures
        r == percent_of(s@),
{
    let mut end = s.len();
    assert(s@.subrange(0, s@.len() as int) =~= s@);
    while end > 0 && s[end - 1] == '%'
        invariant
            end <= s@.len(),
            strip_percent(s@) == strip_percent(s@.subrange(0, end as int)),
        decreases end,
    {
        assert(s@.subrange(0, end as int).drop_last() =~= s@.subrange(0, end - 1));
        end = end - 1;
    }
    assert(s@.subrange(0, s@.len() as int) =~= s@);
    let ghost d = s@.subrange(0, end as int);
    assert(strip_percent(d) == d);
    if end == 0 {
        return None;
    }
    let mut v: u64 = 0;
    let mut i: usize = 0;
    while i < end
        invariant
            end <= s@.len(),
            d == s@.subrange(0, end as int),
            strip_percent(s@) == d,
            i <= end,
            v == digits_value(d.subrange(0, i as int)),
            v <= u32::MAX,
            forall|k: int| 0 <= k < i ==> is_digit(#[trigger] d[k]),
        decreases end - i,
    {
        let c = s[i];
        assert(d.subrange(0, i + 1).drop_last() =~= d.subrange(0, i as int));
        if !('0' <= c && c <= '9') {
            assert(!is_digit(d[i as int]));
            assert(strip_percent(s@) == d);
            assert(!(forall|k: int| 0 <= k < d.len() ==> is_digit(#[trigger] d[k])));
            return None;
        }
        v = v * 10 + (c as u64 - '0' as u64);
        i = i + 1;
        if v > u32::MAX as u64 {
            proof {
                lemma_digits_grow(d, i as int);
                assert(strip_percent(s@) == d);
            }
            return None;
        }
    }
    assert(d.subrange(0, end as int) =~= d);
    Some(v as u32)
}

proof fn lemma_digits_grow(d: Seq<char>, i: int)
    requires
        0 <= i <= d.len(),
    ensures
        digits_value(d) >= digits_value(d.subrange(0, i)),
    decreases d.len() - i,
{
    if i < d.len() {
        lemma_digits_grow(d, i + 1);
        assert(d.subrange(0, i + 1).drop_last() =~= d.subrange(0, i));
    } else {
        assert(d.subrange(0, i) =~= d);
    }
}

} // verus!
