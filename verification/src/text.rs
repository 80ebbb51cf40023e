//! Character-level helpers shared by the instruction codecs: hexadecimal
//! rendering and parsing, whitespace trimming, space-splitting and ASCII
//! upper-casing, each with its mathematical counterpart.

use vstd::prelude::*;

verus! {

/// The uppercase hexadecimal digit for a value below 16.
pub open spec fn spec_hex_digit(d: u16) -> char {
    if d == 0 {
        '0'
    } else if d == 1 {
        '1'
    } else if d == 2 {
        '2'
    } else if d == 3 {
        '3'
    } else if d == 4 {
        '4'
    } else if d == 5 {
        '5'
    } else if d == 6 {
        '6'
    } else if d == 7 {
        '7'
    } else if d == 8 {
        '8'
    } else if d == 9 {
        '9'
    } else if d == 10 {
        'A'
    } else if d == 11 {
        'B'
    } else if d == 12 {
        'C'
    } else if d == 13 {
        'D'
    } else if d == 14 {
        'E'
    } else {
        'F'
    }
}

/// The low 12 bits of `v`, as three uppercase hexadecimal digits.
pub open spec fn spec_hex3(v: u16) -> Seq<char> {
    seq![
        spec_hex_digit((v >> 8) & 0xF),
        spec_hex_digit((v >> 4) & 0xF),
        spec_hex_digit(v & 0xF),
    ]
}

/// All 16 bits of `v`, as four uppercase hexadecimal digits.
pub open spec fn spec_hex4(v: u16) -> Seq<char> {
    seq![
        spec_hex_digit((v >> 12) & 0xF),
        spec_hex_digit((v >> 8) & 0xF),
        spec_hex_digit((v >> 4) & 0xF),
        spec_hex_digit(v & 0xF),
    ]
}

/// The one-character string for a hexadecimal digit.
fn hex_digit_str(d: u16) -> (r: &'static str)
    requires
        d < 16,
    ensures
        r@ =~= seq![spec_hex_digit(d)],
{
    proof {
        reveal_strlit("0");
        reveal_strlit("1");
        reveal_strlit("2");
        reveal_strlit("3");
        reveal_strlit("4");
        reveal_strlit("5");
        reveal_strlit("6");
        reveal_strlit("7");
        reveal_strlit("8");
        reveal_strlit("9");
        reveal_strlit("A");
        reveal_strlit("B");
        reveal_strlit("C");
        reveal_strlit("D");
        reveal_strlit("E");
        reveal_strlit("F");
    }
    match d {
        0 => "0",
        1 => "1",
        2 => "2",
        3 => "3",
        4 => "4",
        5 => "5",
        6 => "6",
        7 => "7",
        8 => "8",
        9 => "9",
        10 => "A",
        11 => "B",
        12 => "C",
        13 => "D",
        14 => "E",
        _ => "F",
    }
}

/// Appends the three-digit hexadecimal form of the low 12 bits of `v`.
pub fn push_hex3(s: &mut String, v: u16)
    ensures
        final(s)@ == old(s)@ + spec_hex3(v),
{
    proof {
        assert((v >> 8) & 0xF < 16 && (v >> 4) & 0xF < 16 && v & 0xF < 16) by (bit_vector);
    }
    s.append(hex_digit_str((v >> 8) & 0xF));
    s.append(hex_digit_str((v >> 4) & 0xF));
    s.append(hex_digit_str(v & 0xF));
    assert(final(s)@ =~= old(s)@ + spec_hex3(v));
}

/// Appends the four-digit hexadecimal form of `v`.
pub fn push_hex4(s: &mut String, v: u16)
    ensures
        final(s)@ == old(s)@ + spec_hex4(v),
{
    proof {
        assert((v >> 12) & 0xF < 16 && (v >> 8) & 0xF < 16 && (v >> 4) & 0xF < 16 && v & 0xF < 16)
            by (bit_vector);
    }
    s.append(hex_digit_str((v >> 12) & 0xF));
    s.append(hex_digit_str((v >> 8) & 0xF));
    s.append(hex_digit_str((v >> 4) & 0xF));
    s.append(hex_digit_str(v & 0xF));
    assert(final(s)@ =~= old(s)@ + spec_hex4(v));
}

/// The characters of `s`, one by one.
pub fn str_chars(s: &str) -> (r: Vec<char>)
    ensures
        r@ == s@,
{
    let n = s.unicode_len();
    let mut r: Vec<char> = Vec::new();
    let mut i: usize = 0;
    while i < n
        invariant
            i <= n,
            n == s@.len(),
            r@ =~= s@.subrange(0, i as int),
        decreases n - i,
    {
        r.push(s.get_char(i));
        i = i + 1;
    }
    assert(r@ =~= s@);
    r
}

/// A copy of `v[a..b]`.
pub fn sub_vec(v: &Vec<char>, a: usize, b: usize) -> (r: Vec<char>)
    requires
        a <= b <= v@.len(),
    ensures
        r@ == v@.subrange(a as int, b as int),
{
    let mut r: Vec<char> = Vec::new();
    let mut i: usize = a;
    while i < b
        invariant
            a <= i <= b <= v@.len(),
            r@ =~= v@.subrange(a as int, i as int),
        decreases b - i,
    {
        r.push(v[i]);
        i = i + 1;
    }
    assert(r@ =~= v@.subrange(a as int, b as int));
    r
}

/// Whitespace as the assembler direction skips it.
pub open spec fn is_space_char(c: char) -> bool {
    c == ' ' || c == '\t' || c == '\n' || c == '\r'
}

fn space_char(c: char) -> (r: bool)
    ensures
        r == is_space_char(c),
{
    c == ' ' || c == '\t' || c == '\n' || c == '\r'
}

/// `s` without its leading whitespace.
pub open spec fn spec_trim_start(s: Seq<char>) -> Seq<char>
    decreases s.len(),
{
    if s.len() > 0 && is_space_char(s[0]) {
        spec_trim_start(s.drop_first())
    } else {
        s
    }
}

/// `s` without its trailing whitespace.
pub open spec fn spec_trim_end(s: Seq<char>) -> Seq<char>
    decreases s.len(),
{
    if s.len() > 0 && is_space_char(s.last()) {
        spec_trim_end(s.drop_last())
    } else {
        s
    }
}

/// `s` without leading and trailing whitespace.
pub open spec fn spec_trim(s: Seq<char>) -> Seq<char> {
    spec_trim_end(spec_trim_start(s))
}

proof fn lemma_trim_start_at(s: Seq<char>, k: int)
    requires
        0 <= k <= s.len(),
        forall|j: int| 0 <= j < k ==> is_space_char(s[j]),
        k < s.len() ==> !is_space_char(s[k]),
    ensures
        spec_trim_start(s) =~= s.subrange(k, s.len() as int),
    decreases k,
{
    if k == 0 {
        if s.len() > 0 && is_space_char(s[0]) {
            assert(false);
        }
        assert(spec_trim_start(s) =~= s.subrange(0, s.len() as int));
    } else {
        let t = s.drop_first();
        assert(forall|j: int| 0 <= j < k - 1 ==> is_space_char(#[trigger] t[j]));
        lemma_trim_start_at(t, k - 1);
        assert(t.subrange(k - 1, t.len() as int) =~= s.subrange(k, s.len() as int));
    }
}

proof fn lemma_trim_end_at(s: Seq<char>, k: int)
    requires
        0 <= k <= s.len(),
        forall|j: int| k <= j < s.len() ==> is_space_char(s[j]),
        k > 0 ==> !is_space_char(s[k - 1]),
    ensures
        spec_trim_end(s) =~= s.subrange(0, k),
    decreases s.len(),
{
    if k == s.len() {
        if s.len() > 0 && is_space_char(s.last()) {
            let t = s.drop_last();
            assert(forall|j: int| k - 1 <= j < t.len() ==> is_space_char(#[trigger] t[j]));
            lemma_trim_end_at(t, k - 1);
            assert(t.subrange(0, k - 1) =~= s.subrange(0, k - 1));
            assert(false);
        }
        assert(spec_trim_end(s) =~= s.subrange(0, k));
    } else {
        let t = s.drop_last();
        assert(forall|j: int| k <= j < t.len() ==> is_space_char(#[trigger] t[j]));
        lemma_trim_end_at(t, k);
        assert(t.subrange(0, k) =~= s.subrange(0, k));
    }
}

/// A copy of `v` without leading and trailing whitespace.
pub fn trim_chars(v: &Vec<char>) -> (r: Vec<char>)
    ensures
        r@ == spec_trim(v@),
{
    let n = v.len();
    let mut a: usize = 0;
    while a < n && space_char(v[a])
        invariant
            a <= n,
            n == v@.len(),
            forall|j: int| 0 <= j < a ==> is_space_char(v@[j]),
        decreases n - a,
    {
        a = a + 1;
    }
    proof {
        lemma_trim_start_at(v@, a as int);
    }
    let mut b: usize = n;
    while b > a && space_char(v[b - 1])
        invariant
            a <= b <= n,
            n == v@.len(),
            forall|j: int| b <= j < n ==> is_space_char(v@[j]),
        decreases b,
    {
        b = b - 1;
    }
    proof {
        let t = v@.subrange(a as int, n as int);
        assert(forall|j: int| b - a <= j < t.len() ==> is_space_char(#[trigger] t[j]));
        lemma_trim_end_at(t, b - a);
        assert(t.subrange(0, b - a) =~= v@.subrange(a as int, b as int));
    }
    sub_vec(v, a, b)
}

/// The index of the first space at or after `i`, or the length.
pub open spec fn spec_first_space_from(s: Seq<char>, i: int) -> int
    decreases s.len() - i,
{
    if i < 0 || i >= s.len() {
        s.len() as int
    } else if s[i] == ' ' {
        i
    } else {
        spec_first_space_from(s, i + 1)
    }
}

proof fn lemma_first_space_bounds(s: Seq<char>, i: int)
    requires
        0 <= i <= s.len(),
    ensures
        i <= spec_first_space_from(s, i) <= s.len(),
        spec_first_space_from(s, i) < s.len() ==> s[spec_first_space_from(s, i)] == ' ',
        forall|j: int| i <= j < spec_first_space_from(s, i) ==> s[j] != ' ',
    decreases s.len() - i,
{
    if i < s.len() && s[i] != ' ' {
        lemma_first_space_bounds(s, i + 1);
    }
}

/// `s` split on every single space, empty pieces kept.
pub open spec fn spec_split(s: Seq<char>) -> Seq<Seq<char>>
    decreases s.len(),
{
    let i = spec_first_space_from(s, 0);
    if i == s.len() {
        seq![s]
    } else if 0 <= i < s.len() {
        seq![s.subrange(0, i)] + spec_split(s.subrange(i + 1, s.len() as int))
    } else {
        seq![s]
    }
}

/// Splits on every single space, keeping empty pieces, as the assembler
/// direction expects its operand line to be tokenized.
pub fn split_spaces(v: &Vec<char>) -> (r: Vec<Vec<char>>)
    ensures
        r.deep_view() == spec_split(v@),
        r@.len() >= 1,
{
    let n = v.len();
    let mut r: Vec<Vec<char>> = Vec::new();
    let mut st: usize = 0;
    proof {
        assert(v@.subrange(0, n as int) =~= v@);
    }
    loop
        invariant_except_break
            spec_split(v@) =~~= r.deep_view() + spec_split(v@.subrange(st as int, n as int)),
        invariant
            st <= n,
            n == v@.len(),
        ensures
            r.deep_view() =~~= spec_split(v@),
            r@.len() >= 1,
        decreases n - st,
    {
        let ghost rest = v@.subrange(st as int, n as int);
        let mut k: usize = st;
        while k < n && v[k] != ' '
            invariant
                st <= k <= n,
                n == v@.len(),
                forall|j: int| st <= j < k ==> v@[j] != ' ',
            decreases n - k,
        {
            k = k + 1;
        }
        proof {
            lemma_first_space_bounds(rest, 0);
            assert forall|j: int| 0 <= j < k - st implies rest[j] != ' ' by {
                assert(rest[j] == v@[st + j]);
            }
            if k < n {
                assert(rest[k - st] == v@[k as int]);
            }
            let f = spec_first_space_from(rest, 0);
            if f < k - st {
                assert(rest[f] == ' ');
                assert(false);
            }
            if f > k - st {
                assert(k - st < rest.len());
                assert(rest[k - st] != ' ');
                assert(false);
            }
        }
        let tok = sub_vec(v, st, k);
        let ghost prev = r.deep_view();
        r.push(tok);
        proof {
            assert(r.deep_view() =~~= prev + seq![tok@]);
            assert(tok@ =~= rest.subrange(0, k - st));
        }
        if k == n {
            proof {
                assert(spec_split(rest) =~~= seq![rest.subrange(0, k - st)]);
                assert(r.deep_view() =~~= spec_split(v@));
            }
            break;
        }
        proof {
            assert(spec_split(rest) =~~= seq![rest.subrange(0, k - st)] + spec_split(
                rest.subrange(k - st + 1, rest.len() as int),
            ));
            assert(rest.subrange(k - st + 1, rest.len() as int) =~= v@.subrange(
                k as int + 1,
                n as int,
            ));
        }
        st = k + 1;
    }
    r
}

/// The uppercase form of an ASCII lowercase letter; any other character
/// is kept as it is.
pub open spec fn spec_upper_char(c: char) -> char {
    if 'a' <= c && c <= 'z' {
        ((c as u8) - 32) as char
    } else {
        c
    }
}

/// `s` with every ASCII lowercase letter upper-cased.
pub open spec fn spec_to_upper(s: Seq<char>) -> Seq<char> {
    s.map_values(|c: char| spec_upper_char(c))
}

fn upper_char(c: char) -> (r: char)
    ensures
        r == spec_upper_char(c),
{
    let u = c as u32;
    if 97 <= u && u <= 122 {
        ((u - 32) as u8) as char
    } else {
        c
    }
}

/// A copy of `v` with every ASCII lowercase letter upper-cased.
pub fn upper_chars(v: &Vec<char>) -> (r: Vec<char>)
    ensures
        r@ == spec_to_upper(v@),
{
    let n = v.len();
    let mut r: Vec<char> = Vec::new();
    let mut i: usize = 0;
    while i < n
        invariant
            i <= n,
            n == v@.len(),
            r@ =~= spec_to_upper(v@.subrange(0, i as int)),
        decreases n - i,
    {
        r.push(upper_char(v[i]));
        proof {
            assert(v@.subrange(0, i + 1).drop_last() =~= v@.subrange(0, i as int));
            assert(r@ =~= spec_to_upper(v@.subrange(0, i + 1)));
        }
        i = i + 1;
    }
    assert(v@.subrange(0, n as int) =~= v@);
    r
}

/// Whether the characters equal the view of `s`.
pub fn chars_eq_str(v: &Vec<char>, s: &str) -> (r: bool)
    ensures
        r == (v@ == s@),
{
    let n = s.unicode_len();
    if v.len() != n {
        proof {
            assert(v@ != s@);
        }
        return false;
    }
    let mut i: usize = 0;
    while i < n
        invariant
            i <= n,
            n == s@.len(),
            v@.len() == n,
            forall|j: int| 0 <= j < i ==> v@[j] == s@[j],
        decreases n - i,
    {
        if v[i] != s.get_char(i) {
            proof {
                assert(v@ != s@);
            }
            return false;
        }
        i = i + 1;
    }
    proof {
        assert(v@ =~= s@);
    }
    true
}

/// The value of a hexadecimal digit, where it is one.
pub open spec fn spec_hex_digit_val(c: char) -> Option<u16> {
    if '0' <= c && c <= '9' {
        Some((c as u16 - 48) as u16)
    } else if 'a' <= c && c <= 'f' {
        Some((c as u16 - 87) as u16)
    } else if 'A' <= c && c <= 'F' {
        Some((c as u16 - 55) as u16)
    } else {
        None
    }
}

/// Whether every character of `s` is a hexadecimal digit.
pub open spec fn spec_all_hex(s: Seq<char>) -> bool {
    forall|j: int| 0 <= j < s.len() ==> spec_hex_digit_val(s[j]) is Some
}

/// The value of a hexadecimal digit, zero where it is none.
pub open spec fn spec_hex_digit_val0(c: char) -> u16 {
    match spec_hex_digit_val(c) {
        Some(d) => d,
        None => 0u16,
    }
}

/// The number the hexadecimal digits of `s` spell, most significant first.
pub open spec fn spec_hex_val(s: Seq<char>) -> nat
    decreases s.len(),
{
    if s.len() == 0 {
        0
    } else {
        (spec_hex_val(s.drop_last()) * 16 + spec_hex_digit_val0(s.last())) as nat
    }
}

/// A hexadecimal literal's value: at least one digit, digits only, and a
/// value that fits in 16 bits.
pub open spec fn spec_parse_hex(s: Seq<char>) -> Option<u16> {
    if s.len() > 0 && spec_all_hex(s) && spec_hex_val(s) <= 0xFFFF {
        Some(spec_hex_val(s) as u16)
    } else {
        None
    }
}

fn hex_digit_val(c: char) -> (r: Option<u16>)
    ensures
        r == spec_hex_digit_val(c),
        r matches Some(d) ==> d < 16,
{
    let u = c as u32;
    if 48 <= u && u <= 57 {
        Some((u - 48) as u16)
    } else if 97 <= u && u <= 102 {
        Some((u - 87) as u16)
    } else if 65 <= u && u <= 70 {
        Some((u - 55) as u16)
    } else {
        None
    }
}

/// Reads `v` as an unsigned hexadecimal literal.
pub fn parse_hex(v: &Vec<char>) -> (r: Option<u16>)
    ensures
        r == spec_parse_hex(v@),
{
    let n = v.len();
    if n == 0 {
        return None;
    }
    let mut acc: u32 = 0;
    let mut over = false;
    let mut i: usize = 0;
    while i < n
        invariant
            i <= n,
            n == v@.len(),
            n > 0,
            forall|j: int| 0 <= j < i ==> spec_hex_digit_val(v@[j]) is Some,
            !over ==> acc == spec_hex_val(v@.subrange(0, i as int)) && acc <= 0xFFFF,
            over ==> spec_hex_val(v@.subrange(0, i as int)) > 0xFFFF,
        decreases n - i,
    {
        let ghost pre = v@.subrange(0, i as int);
        let ghost ext = v@.subrange(0, i + 1);
        proof {
            assert(ext.drop_last() =~= pre);
            assert(ext.last() == v@[i as int]);
        }
        let d = match hex_digit_val(v[i]) {
            Some(d) => d,
            None => {
                proof {
                    assert(!spec_all_hex(v@));
                }
                return None;
            },
        };
        if over {
            proof {
                assert(spec_hex_val(ext) == spec_hex_val(pre) * 16 + d);
                assert(spec_hex_val(pre) * 16 >= spec_hex_val(pre));
            }
        } else {
            let na = acc * 16 + d as u32;
            if na > 0xFFFF {
                over = true;
            } else {
                acc = na;
            }
        }
        i = i + 1;
    }
    proof {
        assert(v@.subrange(0, n as int) =~= v@);
    }
    if over {
        None
    } else {
        Some(acc as u16)
    }
}

/// A rendered hexadecimal digit reads back as its value, and is
/// neither whitespace nor a parenthesis.
pub proof fn lemma_hex_digit_round_trip(d: u16)
    requires
        d < 16,
    ensures
        spec_hex_digit_val(spec_hex_digit(d)) == Some(d),
        !is_space_char(spec_hex_digit(d)),
        spec_hex_digit(d) != '(',
        spec_hex_digit(d) != ')',
{
}

/// Three rendered hexadecimal digits read back as the rendered value.
pub proof fn lemma_hex3_round_trip(a: u16)
    requires
        a <= 0xFFF,
    ensures
        spec_parse_hex(spec_hex3(a)) == Some(a),
{
    assert((a >> 8) & 0xF < 16 && (a >> 4) & 0xF < 16 && a & 0xF < 16) by (bit_vector);
    let d2 = (a >> 8) & 0xF;
    let d1 = (a >> 4) & 0xF;
    let d0 = a & 0xF;
    lemma_hex_digit_round_trip(d2);
    lemma_hex_digit_round_trip(d1);
    lemma_hex_digit_round_trip(d0);
    let s = spec_hex3(a);
    let s2 = seq![spec_hex_digit(d2), spec_hex_digit(d1)];
    let s1 = seq![spec_hex_digit(d2)];
    assert(s.drop_last() =~= s2);
    assert(s2.drop_last() =~= s1);
    assert(s1.drop_last() =~= Seq::<char>::empty());
    assert(spec_hex_val(Seq::<char>::empty()) == 0);
    assert(spec_hex_val(s1) == d2);
    assert(spec_hex_val(s2) == d2 * 16 + d1);
    assert(spec_hex_val(s) == (d2 * 16 + d1) * 16 + d0);
    assert((((a >> 8) & 0xF) * 16 + ((a >> 4) & 0xF)) * 16 + (a & 0xF) == a) by (bit_vector)
        requires
            a <= 0xFFF,
    ;
    assert(spec_all_hex(s)) by {
        assert(forall|j: int| 0 <= j < 3 ==> spec_hex_digit_val(#[trigger] s[j]) is Some);
    }
}

proof fn lemma_first_space_from_is(s: Seq<char>, i: int, k: int)
    requires
        0 <= i <= k <= s.len(),
        forall|j: int| i <= j < k ==> s[j] != ' ',
        k < s.len() ==> s[k] == ' ',
    ensures
        spec_first_space_from(s, i) == k,
    decreases k - i,
{
    if i < k {
        lemma_first_space_from_is(s, i + 1, k);
    }
}

/// Where the first space of `s` stands, the split is name and rest.
pub proof fn lemma_first_space_is(s: Seq<char>, k: int)
    requires
        0 <= k <= s.len(),
        forall|j: int| 0 <= j < k ==> s[j] != ' ',
        k < s.len() ==> s[k] == ' ',
    ensures
        spec_first_space_from(s, 0) == k,
{
    lemma_first_space_from_is(s, 0, k);
}

} // verus!
