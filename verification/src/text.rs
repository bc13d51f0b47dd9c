//! Character and string helpers shared by the resolver, the interaction
//! engine and the profile adapter: case folding, substring search, trimming,
//! and decimal conversion, each with an exact specification.

use vstd::prelude::*;
use vstd::string::StrSliceExecFns;

verus! {

/// ASCII lower-casing of one character; every other character is unchanged.
pub open spec fn lower_char(c: char) -> char {
    match c {
        'A' => 'a',
        'B' => 'b',
        'C' => 'c',
        'D' => 'd',
        'E' => 'e',
        'F' => 'f',
        'G' => 'g',
        'H' => 'h',
        'I' => 'i',
        'J' => 'j',
        'K' => 'k',
        'L' => 'l',
        'M' => 'm',
        'N' => 'n',
        'O' => 'o',
        'P' => 'p',
        'Q' => 'q',
        'R' => 'r',
        'S' => 's',
        'T' => 't',
        'U' => 'u',
        'V' => 'v',
        'W' => 'w',
        'X' => 'x',
        'Y' => 'y',
        'Z' => 'z',
        _ => c,
    }
}

pub fn lower_char_exec(c: char) -> (r: char)
    ensures
        r == lower_char(c),
{
    match c {
        'A' => 'a',
        'B' => 'b',
        'C' => 'c',
        'D' => 'd',
        'E' => 'e',
        'F' => 'f',
        'G' => 'g',
        'H' => 'h',
        'I' => 'i',
        'J' => 'j',
        'K' => 'k',
        'L' => 'l',
        'M' => 'm',
        'N' => 'n',
        'O' => 'o',
        'P' => 'p',
        'Q' => 'q',
        'R' => 'r',
        'S' => 's',
        'T' => 't',
        'U' => 'u',
        'V' => 'v',
        'W' => 'w',
        'X' => 'x',
        'Y' => 'y',
        'Z' => 'z',
        _ => c,
    }
}

/// ASCII upper-casing of one character; every other character is
/// unchanged.
pub open spec fn upper_char(c: char) -> char {
    match c {
        'a' => 'A',
        'b' => 'B',
        'c' => 'C',
        'd' => 'D',
        'e' => 'E',
        'f' => 'F',
        'g' => 'G',
        'h' => 'H',
        'i' => 'I',
        'j' => 'J',
        'k' => 'K',
        'l' => 'L',
        'm' => 'M',
        'n' => 'N',
        'o' => 'O',
        'p' => 'P',
        'q' => 'Q',
        'r' => 'R',
        's' => 'S',
        't' => 'T',
        'u' => 'U',
        'v' => 'V',
        'w' => 'W',
        'x' => 'X',
        'y' => 'Y',
        'z' => 'Z',
        _ => c,
    }
}

pub fn upper_char_exec(c: char) -> (r: char)
    ensures
        r == upper_char(c),
{
    match c {
        'a' => 'A',
        'b' => 'B',
        'c' => 'C',
        'd' => 'D',
        'e' => 'E',
        'f' => 'F',
        'g' => 'G',
        'h' => 'H',
        'i' => 'I',
        'j' => 'J',
        'k' => 'K',
        'l' => 'L',
        'm' => 'M',
        'n' => 'N',
        'o' => 'O',
        'p' => 'P',
        'q' => 'Q',
        'r' => 'R',
        's' => 'S',
        't' => 'T',
        'u' => 'U',
        'v' => 'V',
        'w' => 'W',
        'x' => 'X',
        'y' => 'Y',
        'z' => 'Z',
        _ => c,
    }
}

/// ASCII lower-casing of a whole character sequence.
pub open spec fn lower(s: Seq<char>) -> Seq<char> {
    s.map_values(|c: char| lower_char(c))
}

/// The characters of `s`, as a vector.
pub fn chars_of(s: &str) -> (r: Vec<char>)
    ensures
        r@ == s@,
{
    let n: usize = s.unicode_len();
    let mut r: Vec<char> = Vec::new();
    let mut i: usize = 0;
    while i < n
        invariant
            n == s@.len(),
            i <= n,
            r@ == s@.subrange(0, i as int),
        decreases n - i,
    {
        r.push(s.get_char(i));
        i = i + 1;
        proof {
            assert(r@ =~= s@.subrange(0, i as int));
        }
    }
    proof {
        assert(r@ =~= s@);
    }
    r
}

/// Appends the characters of `s` to `out`.
pub fn push_str_chars(out: &mut Vec<char>, s: &str)
    ensures
        final(out)@ == old(out)@ + s@,
{
    let n: usize = s.unicode_len();
    let mut i: usize = 0;
    while i < n
        invariant
            n == s@.len(),
            i <= n,
            out@ == old(out)@ + s@.subrange(0, i as int),
        decreases n - i,
    {
        out.push(s.get_char(i));
        i = i + 1;
        proof {
            assert(out@ =~= old(out)@ + s@.subrange(0, i as int));
        }
    }
    proof {
        assert(out@ =~= old(out)@ + s@);
    }
}

/// Appends the characters of `v` to `out`.
pub fn push_all_chars(out: &mut Vec<char>, v: &Vec<char>)
    ensures
        final(out)@ == old(out)@ + v@,
{
    let mut i: usize = 0;
    while i < v.len()
        invariant
            i <= v@.len(),
            out@ == old(out)@ + v@.subrange(0, i as int),
        decreases v@.len() - i,
    {
        out.push(v[i]);
        i = i + 1;
        proof {
            assert(out@ =~= old(out)@ + v@.subrange(0, i as int));
        }
    }
    proof {
        assert(out@ =~= old(out)@ + v@);
    }
}

/// Relies on `String::push`: appends exactly the given character.
pub assume_specification[ String::push ](s: &mut String, c: char)
    ensures
        final(s)@ == old(s)@.push(c),
;

/// A `String` holding exactly the characters of `v`.
pub fn string_from_chars(v: &Vec<char>) -> (r: String)
    ensures
        r@ == v@,
{
    let mut r = String::new();
    let mut i: usize = 0;
    while i < v.len()
        invariant
            i <= v@.len(),
            r@ == v@.subrange(0, i as int),
        decreases v@.len() - i,
    {
        r.push(v[i]);
        i = i + 1;
        proof {
            assert(r@ =~= v@.subrange(0, i as int));
        }
    }
    proof {
        assert(r@ =~= v@);
    }
    r
}

/// The ASCII lower-casing of a character vector.
pub fn to_lower_vec(v: &Vec<char>) -> (r: Vec<char>)
    ensures
        r@ == lower(v@),
{
    let mut r: Vec<char> = Vec::new();
    let mut i: usize = 0;
    while i < v.len()
        invariant
            i <= v@.len(),
            r@ == lower(v@.subrange(0, i as int)),
        decreases v@.len() - i,
    {
        r.push(lower_char_exec(v[i]));
        i = i + 1;
        proof {
            assert(r@ =~= lower(v@.subrange(0, i as int)));
        }
    }
    proof {
        assert(v@.subrange(0, v@.len() as int) =~= v@);
    }
    r
}

/// The ASCII lower-casing of `s`, as a fresh string.
pub fn to_lowercase(s: &str) -> (r: String)
    ensures
        r@ == lower(s@),
{
    let n: usize = s.unicode_len();
    let mut v: Vec<char> = Vec::new();
    let mut i: usize = 0;
    while i < n
        invariant
            n == s@.len(),
            i <= n,
            v@ == lower(s@.subrange(0, i as int)),
        decreases n - i,
    {
        v.push(lower_char_exec(s.get_char(i)));
        i = i + 1;
        proof {
            assert(v@ =~= lower(s@.subrange(0, i as int)));
        }
    }
    proof {
        assert(v@ =~= lower(s@));
    }
    string_from_chars(&v)
}

/// Whether two strings hold the same characters.
pub fn str_eq(a: &str, b: &str) -> (r: bool)
    ensures
        r == (a@ == b@),
{
    let na: usize = a.unicode_len();
    let nb: usize = b.unicode_len();
    if na != nb {
        proof {
            assert(a@ != b@);
        }
        return false;
    }
    let mut i: usize = 0;
    while i < na
        invariant
            na == a@.len(),
            na == b@.len(),
            i <= na,
            forall|j: int| 0 <= j < i ==> a@[j] == b@[j],
        decreases na - i,
    {
        if a.get_char(i) != b.get_char(i) {
            proof {
                assert(a@[i as int] != b@[i as int]);
            }
            return false;
        }
        i = i + 1;
    }
    proof {
        assert(a@ =~= b@);
    }
    true
}

/// Whether `c` occurs in `s`.
pub open spec fn has_char(s: Seq<char>, c: char) -> bool {
    exists|i: int| 0 <= i < s.len() && s[i] == c
}

/// Whether `c` occurs in `v`.
pub fn chars_have(v: &Vec<char>, c: char) -> (r: bool)
    ensures
        r == has_char(v@, c),
{
    let mut i: usize = 0;
    while i < v.len()
        invariant
            i <= v@.len(),
            forall|j: int| 0 <= j < i ==> v@[j] != c,
        decreases v@.len() - i,
    {
        if v[i] == c {
            return true;
        }
        i = i + 1;
    }
    false
}

/// Whether two character vectors hold the same characters.
pub fn chars_eq(a: &Vec<char>, b: &Vec<char>) -> (r: bool)
    ensures
        r == (a@ == b@),
{
    if a.len() != b.len() {
        proof {
            assert(a@ != b@);
        }
        return false;
    }
    let mut i: usize = 0;
    while i < a.len()
        invariant
            a@.len() == b@.len(),
            i <= a@.len(),
            forall|j: int| 0 <= j < i ==> a@[j] == b@[j],
        decreases a@.len() - i,
    {
        if a[i] != b[i] {
            return false;
        }
        i = i + 1;
    }
    proof {
        assert(a@ =~= b@);
    }
    true
}

/// Whether `needle` occurs in `hay` starting at position `at`.
pub open spec fn matches_at(hay: Seq<char>, needle: Seq<char>, at: int) -> bool {
    &&& 0 <= at
    &&& at + needle.len() <= hay.len()
    &&& hay.subrange(at, at + needle.len() as int) == needle
}

/// Whether `needle` occurs anywhere in `hay`.
pub open spec fn has_substring(hay: Seq<char>, needle: Seq<char>) -> bool {
    exists|at: int| matches_at(hay, needle, at)
}

fn chars_match_at(hay: &Vec<char>, needle: &Vec<char>, at: usize) -> (r: bool)
    requires
        at + needle@.len() <= hay@.len(),
    ensures
        r == matches_at(hay@, needle@, at as int),
{
    let hlen: usize = hay.len();
    let mut j: usize = 0;
    while j < needle.len()
        invariant
            at + needle@.len() <= hay@.len(),
            hlen == hay@.len(),
            j <= needle@.len(),
            forall|k: int| 0 <= k < j ==> hay@[at + k] == needle@[k],
        decreases needle@.len() - j,
    {
        if hay[at + j] != needle[j] {
            proof {
                assert(hay@.subrange(at as int, at + needle@.len() as int)[j as int]
                    != needle@[j as int]);
            }
            return false;
        }
        j = j + 1;
    }
    proof {
        assert(hay@.subrange(at as int, at + needle@.len() as int) =~= needle@);
    }
    true
}

/// Whether the character vector `needle` occurs inside `hay`.
pub fn chars_contain(hay: &Vec<char>, needle: &Vec<char>) -> (r: bool)
    ensures
        r == has_substring(hay@, needle@),
{
    if needle.len() > hay.len() {
        proof {
            assert(forall|at: int| !matches_at(hay@, needle@, at));
        }
        return false;
    }
    if needle.len() == 0 {
        proof {
            assert(hay@.subrange(0, 0) =~= needle@);
            assert(matches_at(hay@, needle@, 0));
        }
        return true;
    }
    let hlen: usize = hay.len();
    let last: usize = hlen - needle.len();
    let mut at: usize = 0;
    loop
        invariant
            0 < needle@.len() <= hay@.len(),
            hlen == hay@.len(),
            last == hay@.len() - needle@.len(),
            at <= last + 1,
            forall|k: int| 0 <= k < at ==> !matches_at(hay@, needle@, k),
        decreases last + 1 - at,
    {
        if at > last {
            proof {
                assert(forall|k: int| matches_at(hay@, needle@, k) ==> 0 <= k <= last);
            }
            return false;
        }
        if chars_match_at(hay, needle, at) {
            return true;
        }
        at = at + 1;
    }
}

/// Whether the string `needle` occurs inside the string `hay`.
pub fn str_contains(hay: &str, needle: &str) -> (r: bool)
    ensures
        r == has_substring(hay@, needle@),
{
    let h = chars_of(hay);
    let n = chars_of(needle);
    chars_contain(&h, &n)
}

/// Whether `s` starts with `prefix`.
pub open spec fn starts_with(s: Seq<char>, prefix: Seq<char>) -> bool {
    matches_at(s, prefix, 0)
}

pub fn str_starts_with(s: &str, prefix: &str) -> (r: bool)
    ensures
        r == starts_with(s@, prefix@),
{
    let sv = chars_of(s);
    let pv = chars_of(prefix);
    if pv.len() > sv.len() {
        return false;
    }
    chars_match_at(&sv, &pv, 0)
}

/// The characters treated as blank when trimming, as a JavaScript-style
/// trim does for the common cases: space, tab, newline, carriage return.
pub open spec fn is_blank(c: char) -> bool {
    c == ' ' || c == '\t' || c == '\n' || c == '\r'
}

pub fn is_blank_exec(c: char) -> (r: bool)
    ensures
        r == is_blank(c),
{
    c == ' ' || c == '\t' || c == '\n' || c == '\r'
}

/// `s` with leading blanks removed.
pub open spec fn trim_start(s: Seq<char>) -> Seq<char>
    decreases s.len(),
{
    if s.len() > 0 && is_blank(s[0]) {
        trim_start(s.skip(1))
    } else {
        s
    }
}

/// `s` with trailing blanks removed.
pub open spec fn trim_end(s: Seq<char>) -> Seq<char>
    decreases s.len(),
{
    if s.len() > 0 && is_blank(s[s.len() - 1]) {
        trim_end(s.take(s.len() - 1))
    } else {
        s
    }
}

/// `s` with blanks removed from both ends.
pub open spec fn trimmed(s: Seq<char>) -> Seq<char> {
    trim_end(trim_start(s))
}

proof fn lemma_trim_start_skip(s: Seq<char>, i: int)
    requires
        0 <= i <= s.len(),
        forall|j: int| 0 <= j < i ==> is_blank(s[j]),
    ensures
        trim_start(s) == trim_start(s.skip(i)),
    decreases i,
{
    if i > 0 {
        assert(is_blank(s[0]));
        assert(s.skip(1).skip(i - 1) =~= s.skip(i));
        lemma_trim_start_skip(s.skip(1), i - 1);
    } else {
        assert(s.skip(0) =~= s);
    }
}

proof fn lemma_trim_start_fixed(s: Seq<char>)
    requires
        s.len() == 0 || !is_blank(s[0]),
    ensures
        trim_start(s) == s,
{
}

proof fn lemma_trim_end_take(s: Seq<char>, i: int)
    requires
        0 <= i <= s.len(),
        forall|j: int| i <= j < s.len() ==> is_blank(s[j]),
    ensures
        trim_end(s) == trim_end(s.take(i)),
    decreases s.len() - i,
{
    if i < s.len() {
        assert(is_blank(s[s.len() - 1]));
        assert(s.take(s.len() - 1).take(i) =~= s.take(i));
        lemma_trim_end_take(s.take(s.len() - 1), i);
    } else {
        assert(s.take(s.len() as int) =~= s);
    }
}

proof fn lemma_trim_end_fixed(s: Seq<char>)
    requires
        s.len() == 0 || !is_blank(s[s.len() - 1]),
    ensures
        trim_end(s) == s,
{
}

/// The characters of `v` with blanks removed from both ends.
pub fn trim_chars(v: &Vec<char>) -> (r: Vec<char>)
    ensures
        r@ == trimmed(v@),
{
    let n = v.len();
    let mut start: usize = 0;
    while start < n && is_blank_exec(v[start])
        invariant
            n == v@.len(),
            start <= n,
            forall|j: int| 0 <= j < start ==> is_blank(v@[j]),
        decreases n - start,
    {
        start = start + 1;
    }
    let mut end: usize = n;
    while end > start && is_blank_exec(v[end - 1])
        invariant
            n == v@.len(),
            start <= end <= n,
            forall|j: int| 0 <= j < start ==> is_blank(v@[j]),
            forall|j: int| end <= j < n ==> is_blank(v@[j]),
        decreases end,
    {
        end = end - 1;
    }
    let mut r: Vec<char> = Vec::new();
    let mut i: usize = start;
    while i < end
        invariant
            start <= i <= end <= v@.len(),
            r@ == v@.subrange(start as int, i as int),
        decreases end - i,
    {
        r.push(v[i]);
        i = i + 1;
        proof {
            assert(r@ =~= v@.subrange(start as int, i as int));
        }
    }
    proof {
        lemma_trim_start_skip(v@, start as int);
        if start < n {
            assert(!is_blank(v@.skip(start as int)[0]));
        }
        lemma_trim_start_fixed(v@.skip(start as int));
        let mid = v@.skip(start as int);
        lemma_trim_end_take(mid, end - start);
        let cut = mid.take(end - start);
        if end > start {
            assert(cut[cut.len() - 1] == v@[end - 1]);
        }
        lemma_trim_end_fixed(cut);
        assert(r@ =~= cut);
    }
    r
}

/// A copy of a string vector, element for element.
pub fn clone_string_vec(v: &Vec<String>) -> (r: Vec<String>)
    ensures
        r@ == v@,
{
    let r = v.clone();
    proof {
        assert(forall|i: int| 0 <= i < v@.len() ==> r@[i] == v@[i]);
        assert(r@ =~= v@);
    }
    r
}

/// The parts joined with `sep` between each neighboring pair.
pub open spec fn joined(parts: Seq<Seq<char>>, sep: Seq<char>) -> Seq<char>
    decreases parts.len(),
{
    if parts.len() == 0 {
        Seq::empty()
    } else if parts.len() == 1 {
        parts[0]
    } else {
        parts[0] + sep + joined(parts.skip(1), sep)
    }
}

proof fn lemma_joined_split(parts: Seq<Seq<char>>, sep: Seq<char>, i: int)
    requires
        0 < i < parts.len(),
    ensures
        joined(parts, sep) == joined(parts.take(i), sep) + sep + joined(parts.skip(i), sep),
    decreases i,
{
    if i == 1 {
        assert(parts.take(1) =~= seq![parts[0]]);
        assert(joined(parts.take(1), sep) =~= parts[0]);
    } else {
        lemma_joined_split(parts.skip(1), sep, i - 1);
        assert(parts.skip(1).take(i - 1) =~= parts.take(i).skip(1));
        assert(parts.skip(1).skip(i - 1) =~= parts.skip(i));
        assert(parts.take(i)[0] == parts[0]);
        assert(joined(parts.take(i), sep) == parts.take(i)[0] + sep + joined(
            parts.take(i).skip(1),
            sep,
        ));
        assert(joined(parts, sep) =~= joined(parts.take(i), sep) + sep + joined(
            parts.skip(i),
            sep,
        ));
    }
}

/// The strings of `parts` joined with `sep` between each neighboring
/// pair.
pub fn join_strings(parts: &Vec<String>, sep: &str) -> (r: String)
    ensures
        r@ == joined(parts@.map_values(|s: String| s@), sep@),
{
    let ghost views = parts@.map_values(|s: String| s@);
    let mut out: Vec<char> = Vec::new();
    let mut i: usize = 0;
    while i < parts.len()
        invariant
            i <= parts@.len(),
            views == parts@.map_values(|s: String| s@),
            out@ == joined(views.take(i as int), sep@),
        decreases parts@.len() - i,
    {
        if i > 0 {
            push_str_chars(&mut out, sep);
        }
        push_str_chars(&mut out, parts[i].as_str());
        i = i + 1;
        proof {
            if i == 1 {
                assert(views.take(1) =~= seq![views[0]]);
                assert(out@ =~= joined(views.take(1), sep@));
            } else {
                lemma_joined_split(views.take(i as int), sep@, i - 1);
                assert(views.take(i as int).take(i - 1) =~= views.take(i - 1));
                assert(views.take(i as int).skip(i - 1) =~= seq![views[i - 1]]);
                assert(joined(views.take(i as int).skip(i - 1), sep@) =~= views[i - 1]);
                assert(out@ =~= joined(views.take(i as int), sep@));
            }
        }
    }
    proof {
        assert(views.take(i as int) =~= views);
    }
    string_from_chars(&out)
}

/// The digit character for `d`.
pub open spec fn digit_char(d: int) -> char {
    if d == 0 {
        '0'
    } else if d == 1 {
        '1'
    } else if d == 2 {
        '2'
    } else if d == 3 {
        '3'
    } else if d == 4 {
        '4'
    } else if d == 5 {
        '5'
    } else if d == 6 {
        '6'
    } else if d == 7 {
        '7'
    } else if d == 8 {
        '8'
    } else if d == 9 {
        '9'
    } else {
        '?'
    }
}

fn digit_char_exec(d: u64) -> (r: char)
    requires
        d < 10,
    ensures
        r == digit_char(d as int),
{
    match d {
        0 => '0',
        1 => '1',
        2 => '2',
        3 => '3',
        4 => '4',
        5 => '5',
        6 => '6',
        7 => '7',
        8 => '8',
        _ => '9',
    }
}

/// The decimal digits of `n`, most significant first.
pub open spec fn dec_digits(n: nat) -> Seq<char>
    decreases n,
{
    if n < 10 {
        seq![digit_char(n as int)]
    } else {
        dec_digits(n / 10).push(digit_char((n % 10) as int))
    }
}

fn push_dec_digits(n: u64, out: &mut Vec<char>)
    ensures
        final(out)@ == old(out)@ + dec_digits(n as nat),
    decreases n,
{
    if n < 10 {
        out.push(digit_char_exec(n));
        proof {
            assert(final(out)@ =~= old(out)@ + dec_digits(n as nat));
        }
    } else {
        push_dec_digits(n / 10, out);
        out.push(digit_char_exec(n % 10));
        proof {
            assert(final(out)@ =~= old(out)@ + dec_digits(n as nat));
        }
    }
}

/// The decimal digits of `n`, left-padded with zeros to at least `width`
/// characters.
pub open spec fn dec_padded(n: nat, width: nat) -> Seq<char> {
    if dec_digits(n).len() >= width {
        dec_digits(n)
    } else {
        Seq::new((width - dec_digits(n).len()) as nat, |i: int| '0') + dec_digits(n)
    }
}

/// `n` written in decimal with at least `width` digits.
pub fn u64_padded_string(n: u64, width: usize) -> (r: String)
    ensures
        r@ == dec_padded(n as nat, width as nat),
{
    let mut digits: Vec<char> = Vec::new();
    push_dec_digits(n, &mut digits);
    proof {
        assert(digits@ =~= dec_digits(n as nat));
    }
    let mut v: Vec<char> = Vec::new();
    if digits.len() < width {
        let pad: usize = width - digits.len();
        let mut i: usize = 0;
        while i < pad
            invariant
                i <= pad,
                v@ =~= Seq::new(i as nat, |k: int| '0'),
            decreases pad - i,
        {
            v.push('0');
            i = i + 1;
            proof {
                assert(v@ =~= Seq::new(i as nat, |k: int| '0'));
            }
        }
    }
    let mut j: usize = 0;
    let ghost base = v@;
    while j < digits.len()
        invariant
            j <= digits@.len(),
            v@ == base + digits@.subrange(0, j as int),
        decreases digits@.len() - j,
    {
        v.push(digits[j]);
        j = j + 1;
        proof {
            assert(v@ =~= base + digits@.subrange(0, j as int));
        }
    }
    proof {
        assert(digits@.subrange(0, digits@.len() as int) =~= digits@);
        assert(v@ =~= dec_padded(n as nat, width as nat));
    }
    string_from_chars(&v)
}

/// `n` written in decimal.
pub fn u64_string(n: u64) -> (r: String)
    ensures
        r@ == dec_digits(n as nat),
{
    let r = u64_padded_string(n, 0);
    proof {
        assert(dec_padded(n as nat, 0) == dec_digits(n as nat));
    }
    r
}

/// A signed value written in decimal, with a leading minus sign when
/// negative.
pub open spec fn dec_signed(n: int) -> Seq<char> {
    if n < 0 {
        seq!['-'] + dec_digits((-n) as nat)
    } else {
        dec_digits(n as nat)
    }
}

/// `n` written in decimal, minus sign included when negative.
pub fn i64_string(n: i64) -> (r: String)
    requires
        n as int > -9223372036854775808,
    ensures
        r@ == dec_signed(n as int),
{
    if n < 0 {
        let mut v: Vec<char> = Vec::new();
        v.push('-');
        push_dec_digits((-n) as u64, &mut v);
        proof {
            assert(v@ =~= dec_signed(n as int));
        }
        string_from_chars(&v)
    } else {
        let r = u64_padded_string(n as u64, 0);
        proof {
            assert(dec_padded(n as nat, 0) == dec_digits(n as nat));
        }
        r
    }
}

/// Whether `c` is a decimal digit.
pub open spec fn is_digit(c: char) -> bool {
    c == '0' || c == '1' || c == '2' || c == '3' || c == '4' || c == '5' || c == '6' || c == '7'
        || c == '8' || c == '9'
}

pub fn is_digit_exec(c: char) -> (r: bool)
    ensures
        r == is_digit(c),
{
    c == '0' || c == '1' || c == '2' || c == '3' || c == '4' || c == '5' || c == '6' || c == '7'
        || c == '8' || c == '9'
}

/// The numeric value of a digit character.
pub open spec fn digit_value(c: char) -> int {
    match c {
        '0' => 0,
        '1' => 1,
        '2' => 2,
        '3' => 3,
        '4' => 4,
        '5' => 5,
        '6' => 6,
        '7' => 7,
        '8' => 8,
        '9' => 9,
        _ => 0,
    }
}

fn digit_value_exec(c: char) -> (r: u64)
    requires
        is_digit(c),
    ensures
        r == digit_value(c),
{
    match c {
        '0' => 0,
        '1' => 1,
        '2' => 2,
        '3' => 3,
        '4' => 4,
        '5' => 5,
        '6' => 6,
        '7' => 7,
        '8' => 8,
        _ => 9,
    }
}

/// The value of a digit string read left to right.
pub open spec fn dec_value(s: Seq<char>) -> int
    decreases s.len(),
{
    if s.len() == 0 {
        0
    } else {
        dec_value(s.take(s.len() - 1)) * 10 + digit_value(s[s.len() - 1])
    }
}

/// Whether every character of `s` is a decimal digit.
pub open spec fn all_digits(s: Seq<char>) -> bool {
    forall|i: int| 0 <= i < s.len() ==> is_digit(s[i])
}

/// The largest value a `u64` can hold.
pub const DECIMAL_LIMIT: u64 = 18446744073709551615;

/// The value of `v` read as a decimal numeral, when `v` is one or more
/// digits and the value fits a `u64`; `None` otherwise.
pub fn parse_decimal(v: &Vec<char>) -> (r: Option<u64>)
    ensures
        match r {
            Some(n) => all_digits(v@) && v@.len() > 0 && n == dec_value(v@),
            None => !(all_digits(v@) && v@.len() > 0 && dec_value(v@) <= DECIMAL_LIMIT),
        },
{
    if v.len() == 0 {
        return None;
    }
    let mut acc: u64 = 0;
    let mut i: usize = 0;
    while i < v.len()
        invariant
            i <= v@.len(),
            forall|j: int| 0 <= j < i ==> is_digit(v@[j]),
            acc == dec_value(v@.take(i as int)),
        decreases v@.len() - i,
    {
        let c = v[i];
        if !is_digit_exec(c) {
            return None;
        }
        let d = digit_value_exec(c);
        if acc > (DECIMAL_LIMIT - d) / 10 {
            proof {
                lemma_dec_value_monotone(v@, i as int);
                assert(v@.take(i as int + 1).take(i as int) =~= v@.take(i as int));
                assert(dec_value(v@.take(i as int + 1)) == acc * 10 + d);
            }
            return None;
        }
        acc = acc * 10 + d;
        i = i + 1;
        proof {
            assert(v@.take(i as int).take(i as int - 1) =~= v@.take(i as int - 1));
            assert(v@.take(i as int)[i - 1] == v@[i - 1]);
        }
    }
    proof {
        assert(v@.take(v@.len() as int) =~= v@);
    }
    Some(acc)
}

/// Whether `c` is an ASCII letter.
pub open spec fn is_letter(c: char) -> bool {
    ('a' <= c && c <= 'z') || ('A' <= c && c <= 'Z')
}

pub fn is_letter_exec(c: char) -> (r: bool)
    ensures
        r == is_letter(c),
{
    ('a' <= c && c <= 'z') || ('A' <= c && c <= 'Z')
}

/// The decimal digits of `s`, in order, everything else dropped.
pub open spec fn keep_digits(s: Seq<char>) -> Seq<char>
    decreases s.len(),
{
    if s.len() == 0 {
        Seq::empty()
    } else {
        let head: Seq<char> = if is_digit(s[0]) {
            seq![s[0]]
        } else {
            Seq::empty()
        };
        head + keep_digits(s.skip(1))
    }
}

/// The decimal digits of `v`, in order, everything else dropped.
pub fn keep_digits_exec(v: &Vec<char>) -> (r: Vec<char>)
    ensures
        r@ == keep_digits(v@),
{
    let ghost full = v@;
    let mut r: Vec<char> = Vec::new();
    let mut i: usize = 0;
    proof {
        assert(full.skip(0) =~= full);
        assert(r@ + keep_digits(full) =~= keep_digits(full));
    }
    while i < v.len()
        invariant
            i <= v@.len(),
            full == v@,
            r@ + keep_digits(full.skip(i as int)) == keep_digits(full),
        decreases v@.len() - i,
    {
        proof {
            assert(full.skip(i as int)[0] == full[i as int]);
            assert(full.skip(i as int).skip(1) =~= full.skip(i + 1));
        }
        let ghost before = r@;
        if is_digit_exec(v[i]) {
            r.push(v[i]);
        }
        i = i + 1;
        proof {
            assert(r@ + keep_digits(full.skip(i as int)) =~= keep_digits(full));
        }
    }
    proof {
        assert(keep_digits(full.skip(i as int)) =~= Seq::<char>::empty());
        assert(r@ =~= keep_digits(full));
    }
    r
}

/// The ASCII letters and digits of `s`, lower-cased, everything else
/// dropped.
pub open spec fn keep_alnum_lower(s: Seq<char>) -> Seq<char>
    decreases s.len(),
{
    if s.len() == 0 {
        Seq::empty()
    } else {
        let head: Seq<char> = if is_letter(s[0]) || is_digit(s[0]) {
            seq![lower_char(s[0])]
        } else {
            Seq::empty()
        };
        head + keep_alnum_lower(s.skip(1))
    }
}

/// The ASCII letters and digits of `v`, lower-cased, everything else
/// dropped.
pub fn keep_alnum_lower_exec(v: &Vec<char>) -> (r: Vec<char>)
    ensures
        r@ == keep_alnum_lower(v@),
{
    let ghost full = v@;
    let mut r: Vec<char> = Vec::new();
    let mut i: usize = 0;
    proof {
        assert(full.skip(0) =~= full);
        assert(r@ + keep_alnum_lower(full) =~= keep_alnum_lower(full));
    }
    while i < v.len()
        invariant
            i <= v@.len(),
            full == v@,
            r@ + keep_alnum_lower(full.skip(i as int)) == keep_alnum_lower(full),
        decreases v@.len() - i,
    {
        proof {
            assert(full.skip(i as int)[0] == full[i as int]);
            assert(full.skip(i as int).skip(1) =~= full.skip(i + 1));
        }
        if is_letter_exec(v[i]) || is_digit_exec(v[i]) {
            r.push(lower_char_exec(v[i]));
        }
        i = i + 1;
        proof {
            assert(r@ + keep_alnum_lower(full.skip(i as int)) =~= keep_alnum_lower(full));
        }
    }
    proof {
        assert(keep_alnum_lower(full.skip(i as int)) =~= Seq::<char>::empty());
        assert(r@ =~= keep_alnum_lower(full));
    }
    r
}

/// The value a string parses to as an unsigned decimal integer no larger
/// than `bound`: an optional plus sign, then one or more digits.
pub open spec fn unsigned_parse_of(s: Seq<char>, bound: int) -> Option<int> {
    let t = if s.len() > 0 && s[0] == '+' {
        s.skip(1)
    } else {
        s
    };
    if t.len() > 0 && all_digits(t) && dec_value(t) <= bound {
        Some(dec_value(t))
    } else {
        None
    }
}

/// The value a string parses to as a signed decimal integer inside
/// `[-(neg_bound), pos_bound]`: an optional sign, then one or more
/// digits.
pub open spec fn signed_parse_of(s: Seq<char>, neg_bound: int, pos_bound: int) -> Option<int> {
    if s.len() > 0 && s[0] == '-' {
        let t = s.skip(1);
        if t.len() > 0 && all_digits(t) && dec_value(t) <= neg_bound {
            Some(-dec_value(t))
        } else {
            None
        }
    } else {
        unsigned_parse_of(s, pos_bound)
    }
}

fn digit_tail(v: &Vec<char>, from: usize) -> (r: Vec<char>)
    requires
        from <= v@.len(),
    ensures
        r@ == v@.skip(from as int),
{
    let mut r: Vec<char> = Vec::new();
    let mut i: usize = from;
    while i < v.len()
        invariant
            from <= i <= v@.len(),
            r@ == v@.subrange(from as int, i as int),
        decreases v@.len() - i,
    {
        r.push(v[i]);
        i = i + 1;
        proof {
            assert(r@ =~= v@.subrange(from as int, i as int));
        }
    }
    proof {
        assert(r@ =~= v@.skip(from as int));
    }
    r
}

/// The characters of `v` read as Rust reads a `u32` from a string, when
/// they parse and fit.
pub fn parse_u32_chars(v: &Vec<char>) -> (r: Option<u32>)
    ensures
        match r {
            Some(n) => unsigned_parse_of(v@, 4294967295) == Some(n as int),
            None => unsigned_parse_of(v@, 4294967295) is None,
        },
{
    let t = if v.len() > 0 && v[0] == '+' {
        digit_tail(v, 1)
    } else {
        digit_tail(v, 0)
    };
    proof {
        if !(v@.len() > 0 && v@[0] == '+') {
            assert(v@.skip(0) =~= v@);
        }
    }
    match parse_decimal(&t) {
        Some(n) => if n <= 4294967295 {
            Some(n as u32)
        } else {
            None
        },
        None => None,
    }
}

/// The characters of `v` read as Rust reads an `i32` from a string, when
/// they parse and fit.
pub fn parse_i32_chars(v: &Vec<char>) -> (r: Option<i32>)
    ensures
        match r {
            Some(n) => signed_parse_of(v@, 2147483648, 2147483647) == Some(n as int),
            None => signed_parse_of(v@, 2147483648, 2147483647) is None,
        },
{
    if v.len() > 0 && v[0] == '-' {
        let t = digit_tail(v, 1);
        match parse_decimal(&t) {
            Some(n) => if n <= 2147483648 {
                let m: i64 = -(n as i64);
                Some(m as i32)
            } else {
                None
            },
            None => None,
        }
    } else {
        let t = if v.len() > 0 && v[0] == '+' {
            digit_tail(v, 1)
        } else {
            digit_tail(v, 0)
        };
        proof {
            if !(v@.len() > 0 && v@[0] == '+') {
                assert(v@.skip(0) =~= v@);
            }
        }
        match parse_decimal(&t) {
            Some(n) => if n <= 2147483647 {
                Some(n as i32)
            } else {
                None
            },
            None => None,
        }
    }
}

/// A digit string's value never shrinks when characters are appended.
proof fn lemma_dec_value_monotone(s: Seq<char>, i: int)
    requires
        0 <= i < s.len(),
    ensures
        dec_value(s) >= dec_value(s.take(i + 1)),
    decreases s.len() - i,
{
    if i + 1 < s.len() {
        lemma_dec_value_monotone(s, i + 1);
        assert(s.take(i + 2).take(i + 1) =~= s.take(i + 1));
        assert(dec_value(s.take(i + 2)) == dec_value(s.take(i + 1)) * 10 + digit_value(
            s.take(i + 2)[i + 1],
        ));
        lemma_dec_value_nonneg(s.take(i + 1));
    } else {
        assert(s.take(i + 1) =~= s);
    }
}

proof fn lemma_dec_value_nonneg(s: Seq<char>)
    ensures
        dec_value(s) >= 0,
    decreases s.len(),
{
    if s.len() > 0 {
        lemma_dec_value_nonneg(s.take(s.len() - 1));
    }
}

} // verus!
