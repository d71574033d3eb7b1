//! Small string utilities with exact specifications over `Seq<char>`.
use vstd::prelude::*;
use vstd::string::*;

verus! {

/// The characters of an optional string.
pub open spec fn opt_text(o: Option<String>) -> Option<Seq<char>> {
    match o {
        Some(s) => Some(s@),
        None => None,
    }
}

/// The characters of each string.
pub open spec fn strings_view(v: Seq<String>) -> Seq<Seq<char>> {
    v.map_values(|s: String| s@)
}

/// Appends `s` to `v`.
pub fn push_string(v: &mut Vec<String>, s: String)
    ensures
        strings_view(final(v)@) == strings_view(old(v)@).push(s@),
{
    let ghost before = v@;
    v.push(s);
    proof {
        assert(strings_view(v@) =~= strings_view(before).push(s@));
    }
}

/// The character of a decimal digit.
pub open spec fn digit_char(d: nat) -> char {
    if d == 0 {
        '0'
    } else if d == 1 {
        '1'
    } else if d == 2 {
        '2'
    } else if d == 3 {
        '3'
    } else if d == 4 {
        '4'
    } else if d == 5 {
        '5'
    } else if d == 6 {
        '6'
    } else if d == 7 {
        '7'
    } else if d == 8 {
        '8'
    } else {
        '9'
    }
}

/// The decimal rendering of a natural number, without sign or leading zeros.
pub open spec fn spec_decimal(n: nat) -> Seq<char>
    decreases n,
{
    if n < 10 {
        seq![digit_char(n)]
    } else {
        spec_decimal(n / 10).push(digit_char(n % 10))
    }
}

fn digit_str(d: u64) -> (r: &'static str)
    requires
        d < 10,
    ensures
        r@ == seq![digit_char(d as nat)],
{
    if d == 0 {
        proof {
            reveal_strlit("0");
        }
        "0"
    } else if d == 1 {
        proof {
            reveal_strlit("1");
        }
        "1"
    } else if d == 2 {
        proof {
            reveal_strlit("2");
        }
        "2"
    } else if d == 3 {
        proof {
            reveal_strlit("3");
        }
        "3"
    } else if d == 4 {
        proof {
            reveal_strlit("4");
        }
        "4"
    } else if d == 5 {
        proof {
            reveal_strlit("5");
        }
        "5"
    } else if d == 6 {
        proof {
            reveal_strlit("6");
        }
        "6"
    } else if d == 7 {
        proof {
            reveal_strlit("7");
        }
        "7"
    } else if d == 8 {
        proof {
            reveal_strlit("8");
        }
        "8"
    } else {
        proof {
            reveal_strlit("9");
        }
        "9"
    }
}

/// Renders `n` in decimal, as `n.to_string()` does.
pub fn decimal(n: u64) -> (r: String)
    ensures
        r@ == spec_decimal(n as nat),
    decreases n,
{
    if n < 10 {
        digit_str(n).to_owned()
    } else {
        let mut s = decimal(n / 10);
        s.append(digit_str(n % 10));
        s
    }
}

/// Whether two string slices hold the same characters.
pub fn str_eq(a: &str, b: &str) -> (r: bool)
    ensures
        r == (a@ == b@),
{
    let x = a.to_owned();
    let y = b.to_owned();
    x == y
}

/// Concatenates two string slices into a new `String`.
pub fn concat2(a: &str, b: &str) -> (r: String)
    ensures
        r@ == a@ + b@,
{
    let mut s = a.to_owned();
    s.append(b);
    s
}

/// Concatenates three string slices into a new `String`.
pub fn concat3(a: &str, b: &str, c: &str) -> (r: String)
    ensures
        r@ == a@ + b@ + c@,
{
    let mut s = a.to_owned();
    s.append(b);
    s.append(c);
    s
}

/// Number of leading occurrences of `c` in `s`.
pub open spec fn count_leading(s: Seq<char>, c: char) -> nat
    decreases s.len(),
{
    if s.len() > 0 && s[0] == c {
        1 + count_leading(s.drop_first(), c)
    } else {
        0
    }
}

/// Number of trailing occurrences of `c` in `s`.
pub open spec fn count_trailing(s: Seq<char>, c: char) -> nat
    decreases s.len(),
{
    if s.len() > 0 && s.last() == c {
        1 + count_trailing(s.drop_last(), c)
    } else {
        0
    }
}

/// `s` with every leading `c` removed (`str::trim_start_matches` for a char).
pub open spec fn spec_trim_start(s: Seq<char>, c: char) -> Seq<char> {
    s.subrange(count_leading(s, c) as int, s.len() as int)
}

/// `s` with every trailing `c` removed (`str::trim_end_matches` for a char).
pub open spec fn spec_trim_end(s: Seq<char>, c: char) -> Seq<char> {
    s.subrange(0, s.len() - count_trailing(s, c))
}

/// `s` with every leading and trailing `c` removed (`str::trim_matches` for a char).
pub open spec fn spec_trim(s: Seq<char>, c: char) -> Seq<char> {
    spec_trim_end(spec_trim_start(s, c), c)
}

proof fn lemma_count_leading_bound(s: Seq<char>, c: char)
    ensures
        count_leading(s, c) <= s.len(),
    decreases s.len(),
{
    if s.len() > 0 && s[0] == c {
        lemma_count_leading_bound(s.drop_first(), c);
    }
}

proof fn lemma_count_trailing_bound(s: Seq<char>, c: char)
    ensures
        count_trailing(s, c) <= s.len(),
    decreases s.len(),
{
    if s.len() > 0 && s.last() == c {
        lemma_count_trailing_bound(s.drop_last(), c);
    }
}

/// Position of the first character of `s` that is not `c` (or its length).
fn leading_end(s: &str, c: char) -> (k: usize)
    ensures
        k == count_leading(s@, c),
{
    let n = s.unicode_len();
    let mut i: usize = 0;
    proof {
        assert(s@.subrange(0, s@.len() as int) =~= s@);
    }
    while i < n
        invariant
            n == s@.len(),
            i <= n,
            count_leading(s@, c) == i + count_leading(s@.subrange(i as int, n as int), c),
        decreases n - i,
    {
        if s.get_char(i) != c {
            return i;
        }
        proof {
            let t = s@.subrange(i as int, n as int);
            assert(t.drop_first() =~= s@.subrange(i + 1, n as int));
        }
        i = i + 1;
    }
    i
}

/// Position just after the last character of `s[..hi]` that is not `c`.
fn trailing_start(s: &str, lo: usize, hi: usize, c: char) -> (k: usize)
    requires
        lo <= hi <= s@.len(),
    ensures
        lo <= k <= hi,
        hi - k == count_trailing(s@.subrange(lo as int, hi as int), c),
{
    let mut j: usize = hi;
    while j > lo
        invariant
            lo <= j <= hi <= s@.len(),
            count_trailing(s@.subrange(lo as int, hi as int), c) == (hi - j) + count_trailing(
                s@.subrange(lo as int, j as int),
                c,
            ),
        decreases j - lo,
    {
        if s.get_char(j - 1) != c {
            return j;
        }
        proof {
            let t = s@.subrange(lo as int, j as int);
            assert(t.drop_last() =~= s@.subrange(lo as int, j - 1));
        }
        j = j - 1;
    }
    j
}

/// `str::trim_start_matches` with a single character, as an owned `String`.
pub fn trim_start_char(s: &str, c: char) -> (r: String)
    ensures
        r@ == spec_trim_start(s@, c),
{
    let k = leading_end(s, c);
    proof {
        lemma_count_leading_bound(s@, c);
    }
    let n = s.unicode_len();
    s.substring_char(k, n).to_owned()
}

/// `str::trim_matches` with a single character, as an owned `String`.
pub fn trim_char(s: &str, c: char) -> (r: String)
    ensures
        r@ == spec_trim(s@, c),
{
    let k = leading_end(s, c);
    proof {
        lemma_count_leading_bound(s@, c);
    }
    let n = s.unicode_len();
    let e = trailing_start(s, k, n, c);
    proof {
        let t = spec_trim_start(s@, c);
        assert(t =~= s@.subrange(k as int, n as int));
        assert(s@.subrange(k as int, e as int) =~= t.subrange(0, t.len() - count_trailing(t, c)));
    }
    s.substring_char(k, e).to_owned()
}

/// Index of the first `c` in `s` at or after `k` (the length of `s` if none).
pub open spec fn next_index_of(s: Seq<char>, c: char, k: int) -> int
    decreases s.len() - k,
{
    if k >= s.len() {
        s.len() as int
    } else if s[k] == c {
        k
    } else {
        next_index_of(s, c, k + 1)
    }
}

/// The pieces of `s[k..]` between occurrences of `c` (`str::split` with a char).
pub open spec fn spec_split_from(s: Seq<char>, c: char, k: int) -> Seq<Seq<char>>
    recommends
        0 <= k <= s.len(),
    decreases s.len() - k, 1int,
{
    if k < 0 || k > s.len() {
        seq![]
    } else {
        let e = next_index_of(s, c, k);
        if e >= s.len() {
            seq![s.subrange(k, s.len() as int)]
        } else {
            proof {
                lemma_next_index_of_range(s, c, k);
            }
            seq![s.subrange(k, e)] + spec_split_from(s, c, e + 1)
        }
    }
}

/// The pieces of `s` between occurrences of `c`; `"a;b;"` gives `"a"`, `"b"`, `""`.
pub open spec fn spec_split(s: Seq<char>, c: char) -> Seq<Seq<char>> {
    spec_split_from(s, c, 0)
}

/// The next occurrence found from `k` lies between `k` and the end of `s`.
pub proof fn lemma_next_index_of_range(s: Seq<char>, c: char, k: int)
    requires
        0 <= k,
    ensures
        k <= next_index_of(s, c, k) <= s.len() || (k > s.len() && next_index_of(s, c, k) == s.len()),
    decreases s.len() - k,
{
    if k < s.len() && s[k] != c {
        lemma_next_index_of_range(s, c, k + 1);
    }
}

proof fn lemma_next_index_of_skip(s: Seq<char>, c: char, start: int, i: int)
    requires
        0 <= start <= i <= s.len(),
        forall|j: int| start <= j < i ==> s[j] != c,
    ensures
        next_index_of(s, c, start) == next_index_of(s, c, i),
    decreases i - start,
{
    if start < i {
        lemma_next_index_of_skip(s, c, start + 1, i);
    }
}

/// `s.split(c)` collected into owned strings.
pub fn split_char(s: &str, c: char) -> (r: Vec<String>)
    ensures
        r@.map_values(|p: String| p@) == spec_split(s@, c),
{
    let n = s.unicode_len();
    let mut pieces: Vec<String> = Vec::new();
    let mut start: usize = 0;
    let mut i: usize = 0;
    while i < n
        invariant
            n == s@.len(),
            start <= i <= n,
            forall|j: int| start <= j < i ==> s@[j] != c,
            pieces@.map_values(|p: String| p@) + spec_split_from(s@, c, start as int) == spec_split(
                s@,
                c,
            ),
        decreases n - i,
    {
        if s.get_char(i) == c {
            proof {
                lemma_next_index_of_skip(s@, c, start as int, i as int);
                assert(next_index_of(s@, c, i as int) == i);
            }
            let piece = s.substring_char(start, i).to_owned();
            let ghost before = pieces@;
            pieces.push(piece);
            proof {
                assert(pieces@.map_values(|p: String| p@) =~= before.map_values(|p: String| p@)
                    + seq![s@.subrange(start as int, i as int)]);
            }
            start = i + 1;
        }
        i = i + 1;
    }
    proof {
        lemma_next_index_of_skip(s@, c, start as int, n as int);
    }
    let last = s.substring_char(start, n).to_owned();
    let ghost before = pieces@;
    pieces.push(last);
    proof {
        assert(pieces@.map_values(|p: String| p@) =~= before.map_values(|p: String| p@) + seq![
            s@.subrange(start as int, n as int),
        ]);
    }
    pieces
}

/// The value of a decimal digit character.
pub open spec fn digit_val(c: char) -> int {
    c as int - '0' as int
}

/// Whether every character of `s` is an ASCII digit.
pub open spec fn all_digits(s: Seq<char>) -> bool {
    forall|i: int| 0 <= i < s.len() ==> '0' <= #[trigger] s[i] <= '9'
}

/// The number that the digits of `s` write in decimal.
pub open spec fn digits_value(s: Seq<char>) -> int
    decreases s.len(),
{
    if s.len() == 0 {
        0
    } else {
        digits_value(s.drop_last()) * 10 + digit_val(s.last())
    }
}

/// What `s.parse::<u32>()` accepts: an optional `+` then at least one ASCII digit, with a
/// value that fits in 32 bits.
pub open spec fn spec_parse_u32(s: Seq<char>) -> Option<u32> {
    let d = if s.len() > 0 && s[0] == '+' {
        s.subrange(1, s.len() as int)
    } else {
        s
    };
    if d.len() > 0 && all_digits(d) && digits_value(d) <= u32::MAX {
        Some(digits_value(d) as u32)
    } else {
        None
    }
}

/// Digits never write a negative number.
proof fn lemma_digits_value_nonneg(s: Seq<char>, j: int)
    requires
        all_digits(s),
        0 <= j <= s.len(),
    ensures
        0 <= digits_value(s.subrange(0, j)),
    decreases j,
{
    if j > 0 {
        lemma_digits_value_nonneg(s, j - 1);
        assert(s.subrange(0, j).drop_last() =~= s.subrange(0, j - 1));
        assert('0' <= s[j - 1] <= '9');
    }
}

/// The digits of a longer prefix never write a smaller number.
proof fn lemma_digits_value_prefix(s: Seq<char>, i: int, j: int)
    requires
        all_digits(s),
        0 <= i <= j <= s.len(),
    ensures
        digits_value(s.subrange(0, i)) <= digits_value(s.subrange(0, j)),
    decreases j - i,
{
    if i < j {
        lemma_digits_value_prefix(s, i, j - 1);
        lemma_digits_value_nonneg(s, j - 1);
        assert(s.subrange(0, j).drop_last() =~= s.subrange(0, j - 1));
        assert('0' <= s[j - 1] <= '9');
    }
}

/// Parses a decimal `u32` as `str::parse::<u32>` does.
pub fn parse_u32(s: &str) -> (r: Option<u32>)
    ensures
        r == spec_parse_u32(s@),
{
    let n = s.unicode_len();
    let mut start: usize = 0;
    if n > 0 && s.get_char(0) == '+' {
        start = 1;
    }
    let ghost d = s@.subrange(start as int, n as int);
    proof {
        assert(d =~= (if s@.len() > 0 && s@[0] == '+' {
            s@.subrange(1, s@.len() as int)
        } else {
            s@
        }));
    }
    if start >= n {
        return None;
    }
    let mut acc: u64 = 0;
    let mut i: usize = start;
    proof {
        assert(d.subrange(0, 0) =~= Seq::<char>::empty());
    }
    while i < n
        invariant
            n == s@.len(),
            start < n,
            start <= i <= n,
            d == s@.subrange(start as int, n as int),
            d == (if s@.len() > 0 && s@[0] == '+' {
                s@.subrange(1, s@.len() as int)
            } else {
                s@
            }),
            acc as int == digits_value(d.subrange(0, i - start)),
            acc <= u32::MAX,
            forall|k: int| 0 <= k < i - start ==> '0' <= #[trigger] d[k] <= '9',
        decreases n - i,
    {
        let c = s.get_char(i);
        proof {
            assert(d[i - start] == c);
        }
        if !('0' <= c && c <= '9') {
            proof {
                assert(!('0' <= d[i - start] <= '9'));
                assert(!all_digits(d));
            }
            return None;
        }
        let dv = (c as u32 - '0' as u32) as u64;
        proof {
            assert(d.subrange(0, i + 1 - start).drop_last() =~= d.subrange(0, i - start));
            assert(d.subrange(0, i + 1 - start).last() == c);
        }
        acc = acc * 10 + dv;
        if acc > u32::MAX as u64 {
            proof {
                if all_digits(d) {
                    lemma_digits_value_prefix(d, i + 1 - start, d.len() as int);
                    assert(d.subrange(0, d.len() as int) =~= d);
                }
            }
            return None;
        }
        i = i + 1;
    }
    proof {
        assert(d.subrange(0, n - start) =~= d);
    }
    Some(acc as u32)
}

} // verus!
