//! Character and string utilities the rest of the library builds on:
//! pushing characters, lexicographic order on strings, ASCII case folding,
//! substring search, and decimal printing and parsing of `i32` values.

use vstd::prelude::*;

verus! {

/// Relies on `String::push`, which the standard library documents as
/// appending the given character to the end of the string.
pub assume_specification[ String::push ](s: &mut String, c: char)
    ensures
        final(s)@ == old(s)@.push(c),
;

/// Relies on `String::pop`, which the standard library documents as
/// removing and returning the last character, or returning `None` from an
/// empty string.
pub assume_specification[ String::pop ](s: &mut String) -> (r: Option<char>)
    ensures
        old(s)@.len() == 0 ==> final(s)@ == old(s)@ && r is None,
        old(s)@.len() > 0 ==> final(s)@ == old(s)@.drop_last() && r == Option::Some(
            old(s)@.last(),
        ),
;

/// Builds a `String` out of a vector of characters.
pub fn string_of_chars(v: &Vec<char>) -> (r: String)
    ensures
        r@ == v@,
{
    let mut r = String::new();
    let mut i: usize = 0;
    while i < v.len()
        invariant
            i <= v.len(),
            r@ == v@.subrange(0, i as int),
        decreases v.len() - i,
    {
        r.push(v[i]);
        proof {
            assert(v@.subrange(0, i as int).push(v@[i as int]) =~= v@.subrange(0, i + 1));
        }
        i = i + 1;
    }
    proof {
        assert(v@.subrange(0, v@.len() as int) =~= v@);
    }
    r
}

/// Collects the characters of a string slice into a vector.
pub fn chars_of_str(s: &str) -> (r: Vec<char>)
    ensures
        r@ == s@,
{
    let n = s.unicode_len();
    let mut r: Vec<char> = Vec::new();
    let mut i: usize = 0;
    while i < n
        invariant
            i <= n,
            n == s@.len(),
            r@ == s@.subrange(0, i as int),
        decreases n - i,
    {
        r.push(s.get_char(i));
        proof {
            assert(s@.subrange(0, i as int).push(s@[i as int]) =~= s@.subrange(0, i + 1));
        }
        i = i + 1;
    }
    proof {
        assert(s@.subrange(0, s@.len() as int) =~= s@);
    }
    r
}

// ---------------------------------------------------------------------------
// Lexicographic order on character sequences
// ---------------------------------------------------------------------------

/// Strict lexicographic order by code point, the order `String` comparison
/// and a `BTreeSet<String>` iteration follow.
pub open spec fn lex_lt(a: Seq<char>, b: Seq<char>) -> bool
    decreases a.len(),
{
    if b.len() == 0 {
        false
    } else if a.len() == 0 {
        true
    } else if a[0] != b[0] {
        (a[0] as u32) < (b[0] as u32)
    } else {
        lex_lt(a.drop_first(), b.drop_first())
    }
}

pub proof fn lemma_lex_irreflexive(a: Seq<char>)
    ensures
        !lex_lt(a, a),
    decreases a.len(),
{
    if a.len() > 0 {
        lemma_lex_irreflexive(a.drop_first());
    }
}

/// Any two sequences are ordered one way or the other, or are equal.
pub proof fn lemma_lex_connex(a: Seq<char>, b: Seq<char>)
    ensures
        lex_lt(a, b) || lex_lt(b, a) || a == b,
    decreases a.len(),
{
    if a.len() == 0 && b.len() == 0 {
        assert(a =~= b);
    } else if a.len() > 0 && b.len() > 0 && a[0] == b[0] {
        lemma_lex_connex(a.drop_first(), b.drop_first());
        if a.drop_first() == b.drop_first() {
            assert(a.drop_first().len() == a.len() - 1);
            assert(b.drop_first().len() == b.len() - 1);
            assert(a.len() == b.len());
            assert forall|i: int| 0 <= i < a.len() implies a[i] == b[i] by {
                if i >= 1 {
                    assert(a[i] == a.drop_first()[i - 1]);
                    assert(b[i] == b.drop_first()[i - 1]);
                }
            }
            assert(a =~= b);
        }
    } else if a.len() > 0 && b.len() > 0 {
        assert((a[0] as u32) != (b[0] as u32)) by {
            vstd::utf8::char_u32_cast(a[0], a[0] as u32);
            vstd::utf8::char_u32_cast(b[0], b[0] as u32);
        }
    }
}

pub proof fn lemma_lex_transitive(a: Seq<char>, b: Seq<char>, c: Seq<char>)
    requires
        lex_lt(a, b),
        lex_lt(b, c),
    ensures
        lex_lt(a, c),
    decreases a.len() + b.len() + c.len(),
{
    if a.len() == 0 {
    } else if a[0] == b[0] && b[0] == c[0] {
        lemma_lex_transitive(a.drop_first(), b.drop_first(), c.drop_first());
    }
}

/// Compares two string slices in lexicographic order.
pub fn str_lt(a: &str, b: &str) -> (r: bool)
    ensures
        r == lex_lt(a@, b@),
{
    let la = a.unicode_len();
    let lb = b.unicode_len();
    let mut i: usize = 0;
    proof {
        assert(a@.skip(0) =~= a@);
        assert(b@.skip(0) =~= b@);
    }
    while i < la && i < lb
        invariant
            i <= la,
            i <= lb,
            la == a@.len(),
            lb == b@.len(),
            lex_lt(a@, b@) == lex_lt(a@.skip(i as int), b@.skip(i as int)),
        decreases la - i,
    {
        let ca = a.get_char(i);
        let cb = b.get_char(i);
        if ca != cb {
            return (ca as u32) < (cb as u32);
        }
        proof {
            assert(a@.skip(i as int).drop_first() =~= a@.skip(i + 1));
            assert(b@.skip(i as int).drop_first() =~= b@.skip(i + 1));
        }
        i = i + 1;
    }
    proof {
        if i == lb {
            assert(b@.skip(i as int).len() == 0);
        } else {
            assert(a@.skip(i as int).len() == 0);
            assert(b@.skip(i as int).len() > 0);
        }
    }
    la < lb
}

/// Equality of two string slices.
pub fn str_eq(a: &str, b: &str) -> (r: bool)
    ensures
        r == (a@ == b@),
{
    let la = a.unicode_len();
    let lb = b.unicode_len();
    if la != lb {
        proof {
            assert(a@ != b@);
        }
        return false;
    }
    let mut i: usize = 0;
    while i < la
        invariant
            i <= la,
            la == a@.len(),
            la == b@.len(),
            forall|j: int| 0 <= j < i ==> a@[j] == b@[j],
        decreases la - i,
    {
        if a.get_char(i) != b.get_char(i) {
            proof {
                assert(a@ != b@);
            }
            return false;
        }
        i = i + 1;
    }
    proof {
        assert(a@ =~= b@);
    }
    true
}

// ---------------------------------------------------------------------------
// ASCII case folding
// ---------------------------------------------------------------------------

/// Maps an ASCII capital letter to its small form and leaves every other
/// character as it is.
pub open spec fn lower_char(c: char) -> char {
    if 'A' <= c && c <= 'Z' {
        (((c as u8) + 32) as char)
    } else {
        c
    }
}

/// The sequence with every ASCII capital letter folded to its small form.
pub open spec fn to_lower(s: Seq<char>) -> Seq<char> {
    s.map_values(|c: char| lower_char(c))
}

/// Folds the ASCII capital letters of a string to their small forms.
pub fn lowercase_ascii(s: &str) -> (r: Vec<char>)
    ensures
        r@ == to_lower(s@),
{
    let n = s.unicode_len();
    let mut r: Vec<char> = Vec::new();
    let mut i: usize = 0;
    while i < n
        invariant
            i <= n,
            n == s@.len(),
            r@ == to_lower(s@.subrange(0, i as int)),
        decreases n - i,
    {
        let c = s.get_char(i);
        let lc = if 'A' <= c && c <= 'Z' {
            ((c as u8) + 32) as char
        } else {
            c
        };
        r.push(lc);
        proof {
            assert(r@ =~= to_lower(s@.subrange(0, i + 1)));
        }
        i = i + 1;
    }
    proof {
        assert(s@.subrange(0, s@.len() as int) =~= s@);
    }
    r
}

// ---------------------------------------------------------------------------
// Substring search
// ---------------------------------------------------------------------------

/// Whether `needle` occurs contiguously inside `hay`.
pub open spec fn contains_seq(hay: Seq<char>, needle: Seq<char>) -> bool {
    exists|i: int|
        0 <= i <= hay.len() - needle.len() && #[trigger] hay.subrange(i, i + needle.len() as int)
            == needle
}

/// Searches `hay` for a contiguous occurrence of `needle`.
pub fn contains_chars(hay: &Vec<char>, needle: &Vec<char>) -> (r: bool)
    ensures
        r == contains_seq(hay@, needle@),
{
    if needle.len() > hay.len() {
        return false;
    }
    let mut i: usize = 0;
    while i <= hay.len() - needle.len()
        invariant
            needle.len() <= hay.len(),
            i <= hay.len() - needle.len() + 1,
            forall|k: int|
                0 <= k < i ==> #[trigger] hay@.subrange(k, k + needle@.len() as int) != needle@,
        decreases hay.len() - needle.len() + 1 - i,
    {
        let mut j: usize = 0;
        while j < needle.len() && hay[i + j] == needle[j]
            invariant
                j <= needle.len(),
                i + needle.len() <= hay.len(),
                forall|m: int| 0 <= m < j ==> hay@[i + m] == needle@[m],
            decreases needle.len() - j,
        {
            j = j + 1;
        }
        if j == needle.len() {
            proof {
                assert(hay@.subrange(i as int, i + needle@.len() as int) =~= needle@);
            }
            return true;
        }
        proof {
            assert(hay@.subrange(i as int, i + needle@.len() as int)[j as int] != needle@[j as int]);
        }
        i = i + 1;
    }
    false
}

// ---------------------------------------------------------------------------
// Joining, hyphen stripping, whitespace
// ---------------------------------------------------------------------------

/// The elements of `s` joined with a comma between neighbours.
pub open spec fn join_commas(s: Seq<Seq<char>>) -> Seq<char>
    decreases s.len(),
{
    if s.len() == 0 {
        Seq::empty()
    } else if s.len() == 1 {
        s[0]
    } else {
        s[0] + seq![','] + join_commas(s.drop_first())
    }
}

pub proof fn lemma_join_push(s: Seq<Seq<char>>, x: Seq<char>)
    ensures
        join_commas(s.push(x)) == if s.len() == 0 {
            x
        } else {
            join_commas(s) + seq![','] + x
        },
    decreases s.len(),
{
    if s.len() == 0 {
        assert(s.push(x)[0] == x);
        assert(join_commas(s.push(x)) == x);
    } else {
        assert(s.push(x).drop_first() =~= s.drop_first().push(x));
        lemma_join_push(s.drop_first(), x);
        if s.len() == 1 {
            assert(s.drop_first().len() == 0);
            assert(join_commas(s) == s[0]);
        } else {
            assert(join_commas(s) == s[0] + seq![','] + join_commas(s.drop_first()));
            assert(s[0] + seq![','] + (join_commas(s.drop_first()) + seq![','] + x) =~= (s[0]
                + seq![','] + join_commas(s.drop_first())) + seq![','] + x);
        }
    }
}

/// Joins a vector of strings with commas.
pub fn join_with_commas(v: &Vec<String>) -> (r: String)
    ensures
        r@ == join_commas(v@.map_values(|s: String| s@)),
{
    let ghost ids = v@.map_values(|s: String| s@);
    let mut r = String::new();
    let mut i: usize = 0;
    proof {
        assert(ids.subrange(0, 0) =~= Seq::<Seq<char>>::empty());
    }
    while i < v.len()
        invariant
            i <= v.len(),
            ids == v@.map_values(|s: String| s@),
            ids.len() == v@.len(),
            r@ == join_commas(ids.subrange(0, i as int)),
        decreases v.len() - i,
    {
        if i > 0 {
            r.push(',');
        }
        r.append(v[i].as_str());
        proof {
            assert(ids.subrange(0, i as int).push(ids[i as int]) =~= ids.subrange(0, i + 1));
            lemma_join_push(ids.subrange(0, i as int), ids[i as int]);
        }
        i = i + 1;
    }
    proof {
        assert(ids.subrange(0, ids.len() as int) =~= ids);
    }
    r
}

/// The sequence with every hyphen removed.
pub open spec fn strip_hyphens(s: Seq<char>) -> Seq<char> {
    s.filter(|c: char| c != '-')
}

/// Removes every hyphen from a string.
pub fn remove_hyphens(s: &str) -> (r: String)
    ensures
        r@ == strip_hyphens(s@),
{
    let n = s.unicode_len();
    let mut r = String::new();
    let mut i: usize = 0;
    proof {
        reveal_with_fuel(Seq::<_>::filter, 2);
        assert(s@.subrange(0, 0) =~= Seq::<char>::empty());
    }
    while i < n
        invariant
            i <= n,
            n == s@.len(),
            r@ == strip_hyphens(s@.subrange(0, i as int)),
        decreases n - i,
    {
        let c = s.get_char(i);
        if c != '-' {
            r.push(c);
        }
        proof {
            reveal_with_fuel(Seq::<_>::filter, 2);
            let pre = s@.subrange(0, i as int);
            let now = s@.subrange(0, i + 1);
            assert(now.drop_last() =~= pre);
            assert(now.last() == s@[i as int]);
        }
        i = i + 1;
    }
    proof {
        assert(s@.subrange(0, s@.len() as int) =~= s@);
    }
    r
}

/// ASCII whitespace, the characters `str::trim` removes from ASCII text.
pub open spec fn is_space(c: char) -> bool {
    c == ' ' || c == '\t' || c == '\n' || c == '\r'
}

/// Whether the sequence holds nothing but whitespace, so that trimming it
/// would leave it empty.
pub open spec fn all_whitespace(s: Seq<char>) -> bool {
    forall|i: int| 0 <= i < s.len() ==> is_space(#[trigger] s[i])
}

/// Whether the string trims to nothing.
pub fn is_blank(s: &str) -> (r: bool)
    ensures
        r == all_whitespace(s@),
{
    let n = s.unicode_len();
    let mut i: usize = 0;
    while i < n
        invariant
            i <= n,
            n == s@.len(),
            forall|j: int| 0 <= j < i ==> is_space(#[trigger] s@[j]),
        decreases n - i,
    {
        let c = s.get_char(i);
        if !(c == ' ' || c == '\t' || c == '\n' || c == '\r') {
            return false;
        }
        i = i + 1;
    }
    true
}

/// A control character: the class Rust's `char::is_control` recognises.
pub open spec fn is_control_char(c: char) -> bool {
    (c as u32) < 0x20 || (0x7f <= (c as u32) && (c as u32) < 0xa0)
}

/// Whether the character is a control character.
pub fn char_is_control(c: char) -> (r: bool)
    ensures
        r == is_control_char(c),
{
    let v = c as u32;
    v < 0x20 || (0x7f <= v && v < 0xa0)
}

// ---------------------------------------------------------------------------
// Decimal numbers
// ---------------------------------------------------------------------------

/// The digit character for a value below ten.
pub open spec fn digit_char(d: int) -> char {
    ((d + 48) as u8) as char
}

/// The numeric value of a digit character.
pub open spec fn digit_val(c: char) -> int {
    (c as u32) - 48
}

/// Whether the character is an ASCII digit.
pub open spec fn is_digit(c: char) -> bool {
    48 <= (c as u32) && (c as u32) <= 57
}

/// Whether the sequence is made of ASCII digits only.
pub open spec fn all_digits(s: Seq<char>) -> bool {
    forall|i: int| 0 <= i < s.len() ==> is_digit(#[trigger] s[i])
}

/// The decimal digits of a non-negative number, most significant first.
pub open spec fn dec_digits(n: int) -> Seq<char>
    decreases n,
{
    if n < 10 {
        seq![digit_char(if n < 0 { 0 } else { n })]
    } else {
        dec_digits(n / 10) + seq![digit_char(n % 10)]
    }
}

/// The decimal rendering of a signed number.
pub open spec fn dec_str(n: int) -> Seq<char> {
    if n < 0 {
        seq!['-'] + dec_digits(-n)
    } else {
        dec_digits(n)
    }
}

/// The value of a digit sequence read in decimal.
pub open spec fn dec_val(s: Seq<char>) -> int
    decreases s.len(),
{
    if s.len() == 0 {
        0
    } else {
        dec_val(s.drop_last()) * 10 + digit_val(s.last())
    }
}

/// What `i32::from_str` makes of a sequence of characters: an optional
/// sign, one or more digits, nothing else, and a value in range.
pub open spec fn parse_i32_spec(s: Seq<char>) -> Option<i32> {
    let signed = s.len() > 0 && (s[0] == '-' || s[0] == '+');
    let neg = s.len() > 0 && s[0] == '-';
    let digits = if signed {
        s.drop_first()
    } else {
        s
    };
    if digits.len() == 0 || !all_digits(digits) {
        Option::None
    } else {
        let v = if neg {
            -dec_val(digits)
        } else {
            dec_val(digits)
        };
        if i32::MIN <= v <= i32::MAX {
            Option::Some(v as i32)
        } else {
            Option::None
        }
    }
}

pub proof fn lemma_dec_val_nonneg(s: Seq<char>)
    requires
        all_digits(s),
    ensures
        dec_val(s) >= 0,
    decreases s.len(),
{
    if s.len() > 0 {
        assert(all_digits(s.drop_last())) by {
            assert(forall|i: int| 0 <= i < s.len() - 1 ==> s.drop_last()[i] == #[trigger] s[i]);
        }
        lemma_dec_val_nonneg(s.drop_last());
        assert(is_digit(s.last()));
    }
}

/// Reading more digits never shrinks the value.
pub proof fn lemma_dec_val_prefix_le(s: Seq<char>, i: int)
    requires
        all_digits(s),
        0 <= i <= s.len(),
    ensures
        dec_val(s.subrange(0, i)) <= dec_val(s),
    decreases s.len() - i,
{
    if i == s.len() {
        assert(s.subrange(0, i) =~= s);
    } else {
        lemma_dec_val_prefix_le(s, i + 1);
        let p = s.subrange(0, i);
        let q = s.subrange(0, i + 1);
        assert(q.drop_last() =~= p);
        assert(all_digits(p) && all_digits(q)) by {
            assert(forall|j: int| 0 <= j < i + 1 ==> q[j] == #[trigger] s[j]);
            assert(forall|j: int| 0 <= j < i ==> p[j] == #[trigger] s[j]);
        }
        lemma_dec_val_nonneg(p);
        assert(is_digit(q.last()));
        assert(dec_val(q) == dec_val(p) * 10 + digit_val(q.last()));
    }
}

/// The decimal digits of a non-negative number are digits, spell its
/// value, and there is at least one of them.
pub proof fn lemma_dec_digits_props(m: int)
    requires
        m >= 0,
    ensures
        all_digits(dec_digits(m)),
        dec_val(dec_digits(m)) == m,
        dec_digits(m).len() >= 1,
    decreases m,
{
    if m < 10 {
        let s = seq![digit_char(m)];
        assert(dec_digits(m) == s);
        assert(is_digit(digit_char(m)));
        assert(s.drop_last() =~= Seq::<char>::empty());
        assert(dec_val(s) == dec_val(s.drop_last()) * 10 + digit_val(s.last()));
        assert(digit_val(digit_char(m)) == m);
    } else {
        lemma_dec_digits_props(m / 10);
        let t = dec_digits(m / 10);
        let s = t + seq![digit_char(m % 10)];
        assert(dec_digits(m) == s);
        assert(s.drop_last() =~= t);
        assert(s.last() == digit_char(m % 10));
        assert(is_digit(digit_char(m % 10)));
        assert(digit_val(digit_char(m % 10)) == m % 10);
        assert(dec_val(s) == m) by {
            vstd::arithmetic::div_mod::lemma_fundamental_div_mod(m, 10);
        }
        assert forall|i: int| 0 <= i < s.len() implies is_digit(#[trigger] s[i]) by {
            if i < t.len() {
                assert(s[i] == t[i]);
            }
        }
    }
}

/// Printing a number and reading it back yields the number: the decimal
/// round trip.
pub proof fn lemma_dec_str_round_trip(n: int)
    requires
        -0x8000_0000 <= n <= 0x7fff_ffff,
    ensures
        parse_i32_spec(dec_str(n)) == Option::Some(n as i32),
        no_newline(dec_str(n)),
        dec_str(n).len() >= 1,
{
    if n >= 0 {
        let s = dec_digits(n);
        lemma_dec_digits_props(n);
        assert(is_digit(s[0]));
        assert(s[0] != '-' && s[0] != '+');
        assert(forall|i: int| 0 <= i < s.len() ==> #[trigger] s[i] != '\n');
    } else {
        let d = dec_digits(-n);
        lemma_dec_digits_props(-n);
        let s = seq!['-'] + d;
        assert(dec_str(n) == s);
        assert(s[0] == '-');
        assert(s.drop_first() =~= d);
        assert(dec_val(d) == -n);
        assert(forall|i: int| 0 <= i < s.len() ==> #[trigger] s[i] != '\n') by {
            assert(forall|i: int| 1 <= i < s.len() ==> #[trigger] s[i] == d[i - 1]);
        }
    }
}

/// No character of the sequence is a newline.
pub open spec fn no_newline(s: Seq<char>) -> bool {
    forall|i: int| 0 <= i < s.len() ==> #[trigger] s[i] != '\n'
}

/// Renders a signed number in decimal.
pub fn i32_to_string(n: i32) -> (r: String)
    ensures
        r@ == dec_str(n as int),
{
    let neg = n < 0;
    let mut m: u64 = if neg {
        (-(n as i64)) as u64
    } else {
        n as u64
    };
    let ghost m0 = m as int;
    let mut rev: Vec<char> = Vec::new();
    if m == 0 {
        rev.push('0');
        proof {
            assert(dec_digits(0) =~= seq!['0']);
            assert(rev@.reverse() =~= seq!['0']);
        }
    } else {
        while m > 0
            invariant
                m >= 0,
                m0 > 0,
                if m > 0 {
                    dec_digits(m0) == dec_digits(m as int) + rev@.reverse()
                } else {
                    dec_digits(m0) == rev@.reverse()
                },
            decreases m,
        {
            let d = ((m % 10) as u8 + 48) as char;
            let ghost old_rev = rev@;
            let ghost old_m = m as int;
            rev.push(d);
            proof {
                assert(rev@.reverse() =~= seq![d] + old_rev.reverse());
            }
            m = m / 10;
            proof {
                if m > 0 {
                    assert(old_m >= 10);
                    assert(dec_digits(old_m) == dec_digits(old_m / 10) + seq![digit_char(old_m
                        % 10)]);
                    assert(dec_digits(m as int) + rev@.reverse() =~= (dec_digits(old_m / 10)
                        + seq![digit_char(old_m % 10)]) + old_rev.reverse());
                } else {
                    assert(old_m < 10);
                    assert(dec_digits(old_m) == seq![digit_char(old_m)]);
                    assert(rev@.reverse() =~= dec_digits(old_m) + old_rev.reverse());
                }
            }
        }
    }
    let mut out: Vec<char> = Vec::new();
    if neg {
        out.push('-');
    }
    let mut i: usize = rev.len();
    while i > 0
        invariant
            i <= rev.len(),
            out@ == (if neg {
                seq!['-']
            } else {
                Seq::<char>::empty()
            }) + rev@.reverse().subrange(0, rev@.len() - i),
        decreases i,
    {
        i = i - 1;
        out.push(rev[i]);
        proof {
            let k = rev@.len() - i - 1;
            assert(rev@.reverse()[k] == rev@[i as int]);
            assert(rev@.reverse().subrange(0, k) .push(rev@.reverse()[k]) =~= rev@.reverse()
                .subrange(0, k + 1));
            assert(out@ =~= (if neg {
                seq!['-']
            } else {
                Seq::<char>::empty()
            }) + rev@.reverse().subrange(0, k + 1));
        }
    }
    proof {
        assert(rev@.reverse().subrange(0, rev@.len() as int) =~= rev@.reverse());
        if neg {
            assert(0 - (n as int) == m0);
            assert(out@ =~= seq!['-'] + dec_digits(m0));
        } else {
            assert(out@ =~= dec_digits(m0));
        }
    }
    string_of_chars(&out)
}

/// Parses a signed decimal number exactly as `i32::from_str` does.
#[verifier::loop_isolation(false)]
pub fn parse_i32(s: &str) -> (r: Option<i32>)
    ensures
        r == parse_i32_spec(s@),
{
    let n = s.unicode_len();
    if n == 0 {
        return Option::None;
    }
    let c0 = s.get_char(0);
    let signed = c0 == '-' || c0 == '+';
    let neg = c0 == '-';
    let start: usize = if signed {
        1
    } else {
        0
    };
    let ghost digits = if signed {
        s@.drop_first()
    } else {
        s@
    };
    proof {
        assert(digits =~= s@.subrange(start as int, n as int));
    }
    if start == n {
        return Option::None;
    }
    let mut acc: u64 = 0;
    let mut i: usize = start;
    proof {
        assert(digits.subrange(0, 0) =~= Seq::<char>::empty());
    }
    while i < n
        invariant
            start <= i <= n,
            n == s@.len(),
            digits == s@.subrange(start as int, n as int),
            digits.len() == n - start,
            all_digits(digits.subrange(0, i - start)),
            acc == dec_val(digits.subrange(0, i - start)),
            acc <= 0x8000_0000u64,
        decreases n - i,
    {
        let c = s.get_char(i);
        let v = c as u32;
        if !(48 <= v && v <= 57) {
            proof {
                assert(digits[i - start] == s@[i as int]);
                assert(!is_digit(digits[i - start]));
            }
            return Option::None;
        }
        let ghost k = i - start;
        let ghost pre = digits.subrange(0, k as int);
        acc = acc * 10 + ((v - 48) as u64);
        proof {
            let cur = digits.subrange(0, k + 1);
            assert(cur.drop_last() =~= pre);
            assert(cur.last() == s@[i as int]);
            assert(forall|j: int| 0 <= j < k + 1 ==> cur[j] == #[trigger] digits[j]);
        }
        i = i + 1;
        if acc > 0x8000_0000u64 {
            proof {
                let k1 = i - start;
                if all_digits(digits) {
                    lemma_dec_val_prefix_le(digits, k1 as int);
                    assert(dec_val(digits) >= acc);
                }
            }
            return Option::None;
        }
    }
    proof {
        assert(digits.subrange(0, (n - start) as int) =~= digits);
    }
    if neg {
        Option::Some((-(acc as i64)) as i32)
    } else {
        if acc > 0x7fff_ffffu64 {
            Option::None
        } else {
            Option::Some(acc as i32)
        }
    }
}

} // verus!
