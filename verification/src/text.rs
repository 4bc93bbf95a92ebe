//! Character-level text toolkit: building strings, decimal/octal/hex
//! rendering, and the parsing primitives (lines, words, trimming, integers)
//! that the layer parsers are written with. Every function is stated over
//! `Seq<char>`.

use vstd::prelude::*;
use vstd::string::*;

verus! {

// ---------------------------------------------------------------------
// Building strings
// ---------------------------------------------------------------------

/// `String::push` from std: appends one character.
#[verifier::external_body]
pub(crate) fn push_char(s: &mut String, c: char)
    ensures
        final(s)@ == old(s)@.push(c),
{
    s.push(c);
}

/// An owned copy of a string slice.
pub fn lit(s: &str) -> (r: String)
    ensures
        r@ == s@,
{
    String::from_str(s)
}

/// Appends `t` to `s`.
pub fn append_str(s: &mut String, t: &str)
    ensures
        final(s)@ == old(s)@ + t@,
{
    s.append(t);
}

/// The characters of a string slice.
pub fn chars_of(s: &str) -> (r: Vec<char>)
    ensures
        r@ == s@,
{
    broadcast use vstd::string::group_string_axioms;
    let mut out: Vec<char> = Vec::new();
    for c in it: s.chars()
        invariant
            it.seq() == s@,
            out@ == it.seq().take(it.index() as int),
    {
        assert(it.seq().take(it.index() as int).push(c) =~= it.seq().take(it.index() + 1));
        out.push(c);
    }
    assert(out@ =~= s@);
    out
}

/// A string made of the given characters.
pub fn from_chars(v: &[char]) -> (r: String)
    ensures
        r@ == v@,
{
    let mut s = String::new();
    let mut i: usize = 0;
    while i < v.len()
        invariant
            i <= v@.len(),
            s@ == v@.take(i as int),
        decreases v@.len() - i,
    {
        push_char(&mut s, v[i]);
        assert(v@.take(i as int).push(v@[i as int]) =~= v@.take(i + 1));
        i += 1;
    }
    assert(v@.take(v@.len() as int) =~= v@);
    s
}

// ---------------------------------------------------------------------
// Numbers as text
// ---------------------------------------------------------------------

pub open spec fn digit_char(d: nat) -> char {
    if d < 10 {
        (48 + d) as char
    } else {
        (87 + d) as char
    }
}

/// Decimal rendering of a natural number, as `{}` prints it.
pub open spec fn dec(n: nat) -> Seq<char>
    decreases n,
{
    if n < 10 {
        seq![digit_char(n)]
    } else {
        dec(n / 10).push(digit_char(n % 10))
    }
}

/// Signed decimal rendering, as `{}` prints an `i64`.
pub open spec fn dec_int(n: int) -> Seq<char> {
    if n < 0 {
        seq!['-'] + dec((-n) as nat)
    } else {
        dec(n as nat)
    }
}

/// Exactly `width` lowercase hexadecimal digits of `n` (most significant first).
pub open spec fn hex_digits(n: nat, width: nat) -> Seq<char>
    decreases width,
{
    if width == 0 {
        seq![]
    } else {
        hex_digits(n / 16, (width - 1) as nat).push(digit_char(n % 16))
    }
}

/// Exactly `width` octal digits of `n`.
pub open spec fn oct_digits(n: nat, width: nat) -> Seq<char>
    decreases width,
{
    if width == 0 {
        seq![]
    } else {
        oct_digits(n / 8, (width - 1) as nat).push(digit_char(n % 8))
    }
}

fn digit(d: u64) -> (c: char)
    requires
        d < 16,
    ensures
        c == digit_char(d as nat),
{
    if d < 10 {
        ((48 + d) as u8) as char
    } else {
        ((87 + d) as u8) as char
    }
}

/// `{}` of a `u64`.
pub fn dec_u64(n: u64) -> (r: String)
    ensures
        r@ == dec(n as nat),
    decreases n,
{
    if n < 10 {
        let mut s = String::new();
        push_char(&mut s, digit(n));
        assert(s@ =~= seq![digit_char(n as nat)]);
        s
    } else {
        let mut s = dec_u64(n / 10);
        push_char(&mut s, digit(n % 10));
        s
    }
}

/// `{}` of an `i64`.
pub fn dec_i64(n: i64) -> (r: String)
    ensures
        r@ == dec_int(n as int),
{
    if n < 0 {
        let mut s = lit("-");
        let m: u64 = if n == i64::MIN {
            9223372036854775808u64
        } else {
            (-n) as u64
        };
        let d = dec_u64(m);
        append_str(&mut s, d.as_str());
        proof {
            reveal_strlit("-");
        }
        assert(s@ =~= seq!['-'] + dec((-n) as nat));
        s
    } else {
        dec_u64(n as u64)
    }
}

/// `width` zero-padded lowercase hex digits, as `{:0w$x}` prints a value below `16^w`.
pub fn hex_u64(n: u64, width: u64) -> (r: String)
    requires
        width <= 16,
    ensures
        r@ == hex_digits(n as nat, width as nat),
    decreases width,
{
    if width == 0 {
        String::new()
    } else {
        let mut s = hex_u64(n / 16, width - 1);
        push_char(&mut s, digit(n % 16));
        s
    }
}

/// `width` zero-padded octal digits.
pub fn oct_u64(n: u64, width: u64) -> (r: String)
    requires
        width <= 22,
    ensures
        r@ == oct_digits(n as nat, width as nat),
    decreases width,
{
    if width == 0 {
        String::new()
    } else {
        let mut s = oct_u64(n / 8, width - 1);
        push_char(&mut s, digit(n % 8));
        s
    }
}


// ---------------------------------------------------------------------
// Character classes
// ---------------------------------------------------------------------

/// `char::is_whitespace`: the Unicode `White_Space` property.
pub open spec fn is_ws(c: char) -> bool {
    let u = c as u32;
    ||| 9 <= u <= 13
    ||| u == 32
    ||| u == 0x85
    ||| u == 0xA0
    ||| u == 0x1680
    ||| 0x2000 <= u <= 0x200A
    ||| u == 0x2028
    ||| u == 0x2029
    ||| u == 0x202F
    ||| u == 0x205F
    ||| u == 0x3000
}

pub fn is_whitespace(c: char) -> (r: bool)
    ensures
        r == is_ws(c),
{
    let u = c as u32;
    (9 <= u && u <= 13) || u == 32 || u == 0x85 || u == 0xA0 || u == 0x1680 || (0x2000 <= u && u
        <= 0x200A) || u == 0x2028 || u == 0x2029 || u == 0x202F || u == 0x205F || u == 0x3000
}

pub open spec fn is_dec_digit(c: char) -> bool {
    48 <= c as u32 <= 57
}

pub open spec fn is_hex_digit(c: char) -> bool {
    ||| 48 <= c as u32 <= 57
    ||| 97 <= c as u32 <= 102
    ||| 65 <= c as u32 <= 70
}

pub open spec fn hex_value(c: char) -> nat {
    if 48 <= c as u32 <= 57 {
        (c as u32 - 48) as nat
    } else if 97 <= c as u32 <= 102 {
        (c as u32 - 87) as nat
    } else {
        (c as u32 - 55) as nat
    }
}

/// `char::is_ascii_alphanumeric`.
pub open spec fn is_ascii_alnum(c: char) -> bool {
    ||| 48 <= c as u32 <= 57
    ||| 65 <= c as u32 <= 90
    ||| 97 <= c as u32 <= 122
}

pub fn ascii_alnum(c: char) -> (r: bool)
    ensures
        r == is_ascii_alnum(c),
{
    let u = c as u32;
    (48 <= u && u <= 57) || (65 <= u && u <= 90) || (97 <= u && u <= 122)
}

/// `char::to_ascii_lowercase`.
pub open spec fn lower_char(c: char) -> char {
    if 65 <= c as u32 <= 90 {
        ((c as u32) + 32) as char
    } else {
        c
    }
}

pub open spec fn ascii_lower(s: Seq<char>) -> Seq<char> {
    s.map_values(|c: char| lower_char(c))
}

/// Lowercasing twice is lowercasing once.
pub proof fn lemma_ascii_lower_idempotent(s: Seq<char>)
    ensures
        ascii_lower(ascii_lower(s)) == ascii_lower(s),
{
    assert forall|i: int| 0 <= i < s.len() implies lower_char(lower_char(s[i])) == lower_char(s[i]) by {
        let u = s[i] as u32;
        if 65 <= u <= 90 {
            assert((((u + 32) as char) as u32) == u + 32);
        }
    }
    assert(ascii_lower(ascii_lower(s)) =~= ascii_lower(s));
}

/// `str::to_ascii_lowercase`.
pub fn to_ascii_lower(s: &str) -> (r: String)
    ensures
        r@ == ascii_lower(s@),
{
    let v = chars_of(s);
    let mut out: Vec<char> = Vec::new();
    let mut i: usize = 0;
    while i < v.len()
        invariant
            v@ == s@,
            i <= v@.len(),
            out@ =~= ascii_lower(v@.take(i as int)),
        decreases v@.len() - i,
    {
        let c = v[i];
        let u = c as u32;
        let l = if 65 <= u && u <= 90 {
            ((u + 32) as u8) as char
        } else {
            c
        };
        out.push(l);
        assert(ascii_lower(v@.take(i + 1)) =~= ascii_lower(v@.take(i as int)).push(lower_char(c)));
        i += 1;
    }
    assert(v@.take(v@.len() as int) =~= v@);
    from_chars(out.as_slice())
}

// ---------------------------------------------------------------------
// Splitting
// ---------------------------------------------------------------------

pub open spec fn strip_cr(line: Seq<char>) -> Seq<char> {
    if line.len() > 0 && line.last() == '\r' {
        line.drop_last()
    } else {
        line
    }
}

/// Lines of `s[i..]` when the line being read so far is `cur`: `str::lines`
/// splits at `\n`, drops one `\r` before it, and yields no empty last line.
pub open spec fn lines_from(s: Seq<char>, i: int, cur: Seq<char>) -> Seq<Seq<char>>
    decreases s.len() - i,
{
    if i >= s.len() || i < 0 {
        if cur.len() > 0 {
            seq![cur]
        } else {
            seq![]
        }
    } else if s[i] == '\n' {
        seq![strip_cr(cur)] + lines_from(s, i + 1, seq![])
    } else {
        lines_from(s, i + 1, cur.push(s[i]))
    }
}

/// `str::lines`.
pub open spec fn lines(s: Seq<char>) -> Seq<Seq<char>> {
    lines_from(s, 0, seq![])
}

fn strip_cr_vec(cur: Vec<char>) -> (r: Vec<char>)
    ensures
        r@ == strip_cr(cur@),
{
    let mut cur = cur;
    if cur.len() > 0 && cur[cur.len() - 1] == '\r' {
        cur.pop();
    }
    cur
}

/// The lines of `s`, each as its characters.
pub fn split_lines(s: &[char]) -> (r: Vec<Vec<char>>)
    ensures
        r@.map_values(|l: Vec<char>| l@) == lines(s@),
{
    let mut out: Vec<Vec<char>> = Vec::new();
    let mut cur: Vec<char> = Vec::new();
    let mut i: usize = 0;
    while i < s.len()
        invariant
            i <= s@.len(),
            lines(s@) == out@.map_values(|l: Vec<char>| l@) + lines_from(s@, i as int, cur@),
        decreases s@.len() - i,
    {
        let c = s[i];
        if c == '\n' {
            let line = strip_cr_vec(cur);
            let ghost before = out@.map_values(|l: Vec<char>| l@);
            out.push(line);
            assert(out@.map_values(|l: Vec<char>| l@) =~= before.push(strip_cr(cur@)));
            assert(before + (seq![strip_cr(cur@)] + lines_from(s@, i + 1, seq![])) =~= before.push(
                strip_cr(cur@),
            ) + lines_from(s@, i + 1, seq![]));
            cur = Vec::new();
            assert(cur@ =~= Seq::<char>::empty());
        } else {
            cur.push(c);
        }
        i += 1;
    }
    if cur.len() > 0 {
        let ghost before = out@.map_values(|l: Vec<char>| l@);
        let ghost last = cur@;
        out.push(cur);
        assert(out@.map_values(|l: Vec<char>| l@) =~= before + seq![last]);
    } else {
        assert(out@.map_values(|l: Vec<char>| l@) =~= out@.map_values(|l: Vec<char>| l@) + seq![]);
    }
    out
}

/// Whitespace-separated words of `s[i..]` when the word read so far is `cur`
/// (`str::split_whitespace`).
pub open spec fn words_from(s: Seq<char>, i: int, cur: Seq<char>) -> Seq<Seq<char>>
    decreases s.len() - i,
{
    if i >= s.len() || i < 0 {
        if cur.len() > 0 {
            seq![cur]
        } else {
            seq![]
        }
    } else if is_ws(s[i]) {
        (if cur.len() > 0 {
            seq![cur]
        } else {
            seq![]
        }) + words_from(s, i + 1, seq![])
    } else {
        words_from(s, i + 1, cur.push(s[i]))
    }
}

/// `str::split_whitespace`.
pub open spec fn words(s: Seq<char>) -> Seq<Seq<char>> {
    words_from(s, 0, seq![])
}

/// The whitespace-separated words of `s`.
pub fn split_words(s: &[char]) -> (r: Vec<Vec<char>>)
    ensures
        r@.map_values(|l: Vec<char>| l@) == words(s@),
{
    let mut out: Vec<Vec<char>> = Vec::new();
    let mut cur: Vec<char> = Vec::new();
    let mut i: usize = 0;
    while i < s.len()
        invariant
            i <= s@.len(),
            words(s@) == out@.map_values(|l: Vec<char>| l@) + words_from(s@, i as int, cur@),
        decreases s@.len() - i,
    {
        let c = s[i];
        if is_whitespace(c) {
            let ghost before = out@.map_values(|l: Vec<char>| l@);
            let ghost cv = cur@;
            if cur.len() > 0 {
                out.push(cur);
                assert(out@.map_values(|l: Vec<char>| l@) =~= before + seq![cv]);
            } else {
                assert(out@.map_values(|l: Vec<char>| l@) =~= before + seq![]);
            }
            assert(before + ((if cv.len() > 0 {
                seq![cv]
            } else {
                seq![]
            }) + words_from(s@, i + 1, seq![])) =~= (before + (if cv.len() > 0 {
                seq![cv]
            } else {
                seq![]
            })) + words_from(s@, i + 1, seq![]));
            cur = Vec::new();
            assert(cur@ =~= Seq::<char>::empty());
        } else {
            cur.push(c);
        }
        i += 1;
    }
    if cur.len() > 0 {
        let ghost before = out@.map_values(|l: Vec<char>| l@);
        let ghost last = cur@;
        out.push(cur);
        assert(out@.map_values(|l: Vec<char>| l@) =~= before + seq![last]);
    } else {
        assert(out@.map_values(|l: Vec<char>| l@) =~= out@.map_values(|l: Vec<char>| l@) + seq![]);
    }
    out
}

// ---------------------------------------------------------------------
// Trimming and prefixes
// ---------------------------------------------------------------------

pub open spec fn trim_start(s: Seq<char>) -> Seq<char>
    decreases s.len(),
{
    if s.len() > 0 && is_ws(s[0]) {
        trim_start(s.drop_first())
    } else {
        s
    }
}

pub open spec fn trim_end(s: Seq<char>) -> Seq<char>
    decreases s.len(),
{
    if s.len() > 0 && is_ws(s.last()) {
        trim_end(s.drop_last())
    } else {
        s
    }
}

/// `str::trim`.
pub open spec fn trim(s: Seq<char>) -> Seq<char> {
    trim_end(trim_start(s))
}

pub fn trim_chars(s: &[char]) -> (r: Vec<char>)
    ensures
        r@ == trim(s@),
{
    let n = s.len();
    let mut i: usize = 0;
    assert(s@.subrange(0, n as int) =~= s@);
    while i < n && is_whitespace(s[i])
        invariant
            n == s@.len(),
            i <= n,
            trim_start(s@) == trim_start(s@.subrange(i as int, n as int)),
        decreases n - i,
    {
        assert(s@.subrange(i as int, n as int).drop_first() =~= s@.subrange(i + 1, n as int));
        i += 1;
    }
    assert(trim_start(s@) == s@.subrange(i as int, n as int));
    let mut j: usize = n;
    while j > i && is_whitespace(s[j - 1])
        invariant
            n == s@.len(),
            i <= j <= n,
            trim(s@) == trim_end(s@.subrange(i as int, j as int)),
        decreases j - i,
    {
        assert(s@.subrange(i as int, j as int).drop_last() =~= s@.subrange(i as int, j - 1));
        j -= 1;
    }
    let mut out: Vec<char> = Vec::new();
    let mut k: usize = i;
    while k < j
        invariant
            i <= k <= j <= n,
            n == s@.len(),
            out@ =~= s@.subrange(i as int, k as int),
        decreases j - k,
    {
        out.push(s[k]);
        k += 1;
    }
    out
}

/// `str::strip_prefix`.
pub open spec fn strip_prefix(s: Seq<char>, p: Seq<char>) -> Option<Seq<char>> {
    if p.len() <= s.len() && s.take(p.len() as int) == p {
        Some(s.skip(p.len() as int))
    } else {
        None
    }
}

pub fn strip_prefix_chars(s: &[char], p: &[char]) -> (r: Option<Vec<char>>)
    ensures
        r matches Some(v) ==> strip_prefix(s@, p@) == Some(v@),
        r is None ==> strip_prefix(s@, p@) is None,
{
    if p.len() > s.len() {
        return None;
    }
    let mut i: usize = 0;
    while i < p.len()
        invariant
            p@.len() <= s@.len(),
            i <= p@.len(),
            forall|k: int| 0 <= k < i ==> s@[k] == p@[k],
        decreases p@.len() - i,
    {
        if s[i] != p[i] {
            assert(s@.take(p@.len() as int)[i as int] != p@[i as int]);
            return None;
        }
        i += 1;
    }
    assert(s@.take(p@.len() as int) =~= p@);
    let mut out: Vec<char> = Vec::new();
    let mut k: usize = p.len();
    while k < s.len()
        invariant
            p@.len() <= k <= s@.len(),
            out@ =~= s@.subrange(p@.len() as int, k as int),
        decreases s@.len() - k,
    {
        out.push(s[k]);
        k += 1;
    }
    Some(out)
}

// ---------------------------------------------------------------------
// Integers
// ---------------------------------------------------------------------

pub open spec fn digits_value(d: Seq<char>, radix: nat) -> nat
    decreases d.len(),
{
    if d.len() == 0 {
        0
    } else {
        digits_value(d.drop_last(), radix) * radix + hex_value(d.last())
    }
}

pub open spec fn is_radix_digit(c: char, radix: nat) -> bool {
    if radix == 16 {
        is_hex_digit(c)
    } else {
        is_dec_digit(c)
    }
}

pub open spec fn all_digits(d: Seq<char>, radix: nat) -> bool {
    forall|i: int| 0 <= i < d.len() ==> is_radix_digit(#[trigger] d[i], radix)
}

/// The digits after an optional leading `+`.
pub open spec fn unsigned_digits(s: Seq<char>) -> Seq<char> {
    if s.len() > 0 && s[0] == '+' {
        s.drop_first()
    } else {
        s
    }
}

/// `u64::from_str_radix(s, radix)` for radix 10 and 16, as a value below `max + 1`.
pub open spec fn parse_radix(s: Seq<char>, radix: nat, max: nat) -> Option<nat> {
    let d = unsigned_digits(s);
    if d.len() > 0 && all_digits(d, radix) && digits_value(d, radix) <= max {
        Some(digits_value(d, radix))
    } else {
        None
    }
}

proof fn lemma_digits_prefix_monotone(d: Seq<char>, radix: nat, k: int)
    requires
        0 <= k <= d.len(),
        radix >= 1,
    ensures
        digits_value(d.take(k), radix) <= digits_value(d, radix),
    decreases d.len() - k,
{
    if k < d.len() {
        lemma_digits_prefix_monotone(d, radix, k + 1);
        assert(d.take(k + 1).drop_last() =~= d.take(k));
        let v = digits_value(d.take(k), radix);
        assert(v * radix >= v) by (nonlinear_arith)
            requires
                radix >= 1,
        ;
    } else {
        assert(d.take(k) =~= d);
    }
}

fn char_value(c: char, radix: u64) -> (r: Option<u64>)
    requires
        radix == 10 || radix == 16,
    ensures
        r matches Some(v) ==> is_radix_digit(c, radix as nat) && v == hex_value(c) && v < radix,
        r is None ==> !is_radix_digit(c, radix as nat),
{
    let u = c as u32;
    if 48 <= u && u <= 57 {
        Some((u - 48) as u64)
    } else if radix == 16 && 97 <= u && u <= 102 {
        Some((u - 87) as u64)
    } else if radix == 16 && 65 <= u && u <= 70 {
        Some((u - 55) as u64)
    } else {
        None
    }
}

proof fn lemma_take_step(d: Seq<char>, k: int, radix: nat)
    requires
        0 <= k < d.len(),
    ensures
        digits_value(d.take(k + 1), radix) == digits_value(d.take(k), radix) * radix + hex_value(
            d[k],
        ),
        all_digits(d.take(k), radix) && is_radix_digit(d[k], radix) ==> all_digits(
            d.take(k + 1),
            radix,
        ),
{
    assert(d.take(k + 1).drop_last() =~= d.take(k));
    assert(d.take(k + 1).last() == d[k]);
    if all_digits(d.take(k), radix) && is_radix_digit(d[k], radix) {
        assert forall|i: int| 0 <= i < d.take(k + 1).len() implies is_radix_digit(
            #[trigger] d.take(k + 1)[i],
            radix,
        ) by {
            if i < k {
                assert(d.take(k + 1)[i] == d.take(k)[i]);
            }
        }
    }
}

/// Parses an unsigned integer in radix 10 or 16 whose value is at most `max`.
pub fn parse_unsigned(s: &[char], radix: u64, max: u64) -> (r: Option<u64>)
    requires
        radix == 10 || radix == 16,
    ensures
        r matches Some(v) ==> parse_radix(s@, radix as nat, max as nat) == Some(v as nat),
        r is None ==> parse_radix(s@, radix as nat, max as nat) is None,
{
    let start: usize = if s.len() > 0 && s[0] == '+' {
        1
    } else {
        0
    };
    let ghost d = unsigned_digits(s@);
    assert(d =~= s@.skip(start as int));
    if start >= s.len() {
        return None;
    }
    let mut v: u64 = 0;
    let mut i: usize = start;
    assert(d.take(0) =~= Seq::<char>::empty());
    while i < s.len()
        invariant
            radix == 10 || radix == 16,
            start <= i <= s@.len(),
            d == s@.skip(start as int),
            d == unsigned_digits(s@),
            d.len() == s@.len() - start,
            d.len() > 0,
            all_digits(d.take(i - start), radix as nat),
            v as nat == digits_value(d.take(i - start), radix as nat),
            v <= max,
        decreases s@.len() - i,
    {
        let ghost k: int = i - start;
        assert(d[k] == s@[i as int]);
        proof {
            lemma_take_step(d, k, radix as nat);
        }
        match char_value(s[i], radix) {
            None => {
                assert(!is_radix_digit(d[k], radix as nat));
                assert(!all_digits(d, radix as nat));
                return None;
            },
            Some(dv) => {
                assert((v as u128) * (radix as u128) <= 0xffff_ffff_ffff_ffffu128 * 16) by (
                nonlinear_arith)
                    requires
                        radix <= 16,
                ;
                let next: u128 = (v as u128) * (radix as u128) + (dv as u128);
                assert(next == digits_value(d.take(k + 1), radix as nat));
                if next > max as u128 {
                    proof {
                        if all_digits(d, radix as nat) {
                            lemma_digits_prefix_monotone(d, radix as nat, k + 1);
                        }
                    }
                    return None;
                }
                v = next as u64;
            },
        }
        i += 1;
    }
    assert(d.take(i - start) =~= d);
    Some(v)
}

// ---------------------------------------------------------------------
// Joining
// ---------------------------------------------------------------------

/// `[..].join(sep)`.
pub open spec fn join(parts: Seq<Seq<char>>, sep: Seq<char>) -> Seq<char>
    decreases parts.len(),
{
    if parts.len() == 0 {
        seq![]
    } else if parts.len() == 1 {
        parts[0]
    } else {
        join(parts.drop_last(), sep) + sep + parts.last()
    }
}

pub open spec fn views(v: Seq<String>) -> Seq<Seq<char>> {
    v.map_values(|s: String| s@)
}

pub fn join_strings(parts: &Vec<String>, sep: &str) -> (r: String)
    ensures
        r@ == join(views(parts@), sep@),
{
    let mut out = String::new();
    let mut i: usize = 0;
    while i < parts.len()
        invariant
            i <= parts@.len(),
            out@ == join(views(parts@.take(i as int)), sep@),
        decreases parts@.len() - i,
    {
        assert(views(parts@.take(i + 1)).drop_last() =~= views(parts@.take(i as int)));
        assert(views(parts@.take(i + 1)).last() == parts@[i as int]@);
        if i > 0 {
            append_str(&mut out, sep);
        } else {
            assert(views(parts@.take(1)).len() == 1);
        }
        append_str(&mut out, parts[i].as_str());
        i += 1;
    }
    assert(parts@.take(parts@.len() as int) =~= parts@);
    out
}

// ---------------------------------------------------------------------
// Searching
// ---------------------------------------------------------------------

/// Whether `t` occurs in `s` as a contiguous run.
pub open spec fn has_infix(s: Seq<char>, t: Seq<char>) -> bool {
    exists|i: int| 0 <= i && i + t.len() <= s.len() && #[trigger] s.subrange(i, i + t.len()) == t
}

/// `str::contains` with a string pattern.
pub fn contains_str(s: &str, t: &str) -> (r: bool)
    ensures
        r == has_infix(s@, t@),
{
    let sv = chars_of(s);
    let tv = chars_of(t);
    let n = sv.len();
    let m = tv.len();
    if m > n {
        return false;
    }
    let mut i: usize = 0;
    while i <= n - m
        invariant
            sv@ == s@,
            tv@ == t@,
            n == sv@.len(),
            m == tv@.len(),
            m <= n,
            i <= n - m + 1,
            forall|k: int| 0 <= k < i ==> #[trigger] s@.subrange(k, k + m) != t@,
        decreases n - i,
    {
        let mut j: usize = 0;
        let mut same = true;
        while j < m && same
            invariant
                sv@ == s@,
                tv@ == t@,
                n == sv@.len(),
                m == tv@.len(),
                i + m <= n,
                j <= m,
                same ==> forall|q: int| 0 <= q < j ==> sv@[i + q] == tv@[q],
                !same ==> j > 0 && sv@[i + j - 1] != tv@[j - 1],
            decreases m - j,
        {
            if sv[i + j] != tv[j] {
                same = false;
            }
            j += 1;
        }
        if same {
            assert(s@.subrange(i as int, i + m) =~= t@);
            return true;
        }
        assert(s@.subrange(i as int, i + m)[j - 1] != t@[j - 1]);
        i += 1;
    }
    proof {
        assert forall|k: int| 0 <= k && k + t@.len() <= s@.len() implies #[trigger] s@.subrange(
            k,
            k + t@.len(),
        ) != t@ by {
            assert(k < i);
        }
    }
    false
}

// ---------------------------------------------------------------------
// Layout
// ---------------------------------------------------------------------

/// `str::trim_end`, owned.
pub fn trim_end_str(s: &str) -> (r: String)
    ensures
        r@ == trim_end(s@),
{
    let v = chars_of(s);
    let n = v.len();
    let mut j: usize = n;
    assert(v@.subrange(0, n as int) =~= v@);
    while j > 0 && is_whitespace(v[j - 1])
        invariant
            n == v@.len(),
            v@ == s@,
            j <= n,
            trim_end(s@) == trim_end(v@.subrange(0, j as int)),
        decreases j,
    {
        assert(v@.subrange(0, j as int).drop_last() =~= v@.subrange(0, j - 1));
        j -= 1;
    }
    let mut out = String::new();
    let mut k: usize = 0;
    while k < j
        invariant
            k <= j <= n,
            n == v@.len(),
            out@ =~= v@.subrange(0, k as int),
        decreases j - k,
    {
        push_char(&mut out, v[k]);
        k += 1;
    }
    out
}

/// `s` padded with spaces on the right to `w` characters, as `{:<w$}` does.
pub open spec fn pad_right(s: Seq<char>, w: nat) -> Seq<char> {
    if s.len() >= w {
        s
    } else {
        s + Seq::new((w - s.len()) as nat, |i: int| ' ')
    }
}

pub fn pad_right_str(s: &str, w: usize) -> (r: String)
    ensures
        r@ == pad_right(s@, w as nat),
{
    let mut out = lit(s);
    let n = chars_of(s).len();
    if n >= w {
        return out;
    }
    let mut k: usize = n;
    assert(out@ =~= s@ + Seq::new(0, |i: int| ' '));
    while k < w
        invariant
            n == s@.len(),
            n <= k <= w,
            out@ =~= s@ + Seq::new((k - n) as nat, |i: int| ' '),
        decreases w - k,
    {
        push_char(&mut out, ' ');
        k += 1;
    }
    out
}

// ---------------------------------------------------------------------
// ASCII
// ---------------------------------------------------------------------

/// Every character is ASCII.
pub open spec fn is_ascii_text(s: Seq<char>) -> bool {
    forall|i: int| 0 <= i < s.len() ==> (#[trigger] s[i] as u32) < 128
}

pub proof fn lemma_ascii_concat(a: Seq<char>, b: Seq<char>)
    requires
        is_ascii_text(a),
        is_ascii_text(b),
    ensures
        is_ascii_text(a + b),
{
    assert forall|i: int| 0 <= i < (a + b).len() implies (#[trigger] (a + b)[i] as u32) < 128 by {
        if i < a.len() {
            assert((a + b)[i] == a[i]);
        } else {
            assert((a + b)[i] == b[i - a.len()]);
        }
    }
}

pub proof fn lemma_ascii_join(parts: Seq<Seq<char>>, sep: Seq<char>)
    requires
        forall|i: int| 0 <= i < parts.len() ==> is_ascii_text(#[trigger] parts[i]),
        is_ascii_text(sep),
    ensures
        is_ascii_text(join(parts, sep)),
    decreases parts.len(),
{
    if parts.len() > 1 {
        let init = parts.drop_last();
        assert forall|i: int| 0 <= i < init.len() implies is_ascii_text(#[trigger] init[i]) by {
            assert(init[i] == parts[i]);
        }
        lemma_ascii_join(init, sep);
        assert(is_ascii_text(parts[parts.len() - 1]));
        lemma_ascii_concat(join(init, sep), sep);
        lemma_ascii_concat(join(init, sep) + sep, parts.last());
    } else if parts.len() == 1 {
        assert(is_ascii_text(parts[0]));
    }
}

// ---------------------------------------------------------------------
// Escape-free text
// ---------------------------------------------------------------------

/// No character is the escape character that starts a terminal sequence.
pub open spec fn escape_free(s: Seq<char>) -> bool {
    forall|i: int| 0 <= i < s.len() ==> #[trigger] s[i] != '\x1b'
}

pub proof fn lemma_free_concat(a: Seq<char>, b: Seq<char>)
    requires
        escape_free(a),
        escape_free(b),
    ensures
        escape_free(a + b),
{
    assert forall|i: int| 0 <= i < (a + b).len() implies #[trigger] (a + b)[i] != '\x1b' by {
        if i < a.len() {
            assert((a + b)[i] == a[i]);
        } else {
            assert((a + b)[i] == b[i - a.len()]);
        }
    }
}

pub proof fn lemma_free_join(parts: Seq<Seq<char>>, sep: Seq<char>)
    requires
        forall|i: int| 0 <= i < parts.len() ==> escape_free(#[trigger] parts[i]),
        escape_free(sep),
    ensures
        escape_free(join(parts, sep)),
    decreases parts.len(),
{
    if parts.len() > 1 {
        let init = parts.drop_last();
        assert forall|i: int| 0 <= i < init.len() implies escape_free(#[trigger] init[i]) by {
            assert(init[i] == parts[i]);
        }
        lemma_free_join(init, sep);
        assert(escape_free(parts[parts.len() - 1]));
        lemma_free_concat(join(init, sep), sep);
        lemma_free_concat(join(init, sep) + sep, parts.last());
    } else if parts.len() == 1 {
        assert(escape_free(parts[0]));
    }
}

/// Trimming keeps a prefix, so it keeps text escape-free.
pub proof fn lemma_free_trim_end(s: Seq<char>)
    requires
        escape_free(s),
    ensures
        escape_free(trim_end(s)),
    decreases s.len(),
{
    if s.len() > 0 && is_ws(s.last()) {
        let init = s.drop_last();
        assert forall|i: int| 0 <= i < init.len() implies #[trigger] init[i] != '\x1b' by {
            assert(init[i] == s[i]);
        }
        lemma_free_trim_end(init);
    }
}

pub proof fn lemma_free_pad(s: Seq<char>, w: nat)
    requires
        escape_free(s),
    ensures
        escape_free(pad_right(s, w)),
{
    if s.len() < w {
        let sp = Seq::new((w - s.len()) as nat, |i: int| ' ');
        assert(escape_free(sp));
        lemma_free_concat(s, sp);
    }
}

} // verus!
