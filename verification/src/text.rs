//! Text primitives: building strings character by character, decimal
//! numerals, searching and the Unicode case mappings of std.

use vstd::prelude::*;
use vstd::string::StringExecFns;

verus! {

broadcast use vstd::string::group_string_axioms;

/// Appends one character to a string.
/// Calls `String::push`; claims that the character is appended at the end.
#[verifier::external_body]
pub(crate) fn push_char(s: &mut String, c: char)
    ensures
        final(s)@ == old(s)@.push(c),
{
    s.push(c)
}

/// The character of a decimal digit.
pub open spec fn digit_char(d: int) -> char {
    if d == 0 { '0' }
    else if d == 1 { '1' }
    else if d == 2 { '2' }
    else if d == 3 { '3' }
    else if d == 4 { '4' }
    else if d == 5 { '5' }
    else if d == 6 { '6' }
    else if d == 7 { '7' }
    else if d == 8 { '8' }
    else { '9' }
}

/// The decimal numeral of a natural number, without leading zeros.
pub open spec fn dec_nat(n: nat) -> Seq<char>
    decreases n,
{
    if n < 10 {
        seq![digit_char(n as int)]
    } else {
        dec_nat(n / 10).push(digit_char((n % 10) as int))
    }
}

pub open spec fn dec_u64(n: u64) -> Seq<char> {
    dec_nat(n as nat)
}

/// The decimal numeral of an integer, with a leading minus sign when negative.
pub open spec fn dec_int(i: int) -> Seq<char> {
    if i < 0 {
        seq!['-'] + dec_nat((-i) as nat)
    } else {
        dec_nat(i as nat)
    }
}

pub open spec fn dec_i64(i: i64) -> Seq<char> {
    dec_int(i as int)
}

fn digit(d: u64) -> (c: char)
    requires
        d < 10,
    ensures
        c == digit_char(d as int),
{
    if d == 0 { '0' }
    else if d == 1 { '1' }
    else if d == 2 { '2' }
    else if d == 3 { '3' }
    else if d == 4 { '4' }
    else if d == 5 { '5' }
    else if d == 6 { '6' }
    else if d == 7 { '7' }
    else if d == 8 { '8' }
    else { '9' }
}

fn push_decimal(s: &mut String, n: u64)
    ensures
        final(s)@ == old(s)@ + dec_nat(n as nat),
    decreases n,
{
    if n < 10 {
        push_char(s, digit(n));
    } else {
        push_decimal(s, n / 10);
        push_char(s, digit(n % 10));
    }
}

/// The decimal numeral of `n`.
pub fn u64_to_string(n: u64) -> (res: String)
    ensures
        res@ == dec_u64(n),
{
    let mut s = String::new();
    push_decimal(&mut s, n);
    assert(s@ =~= dec_u64(n));
    s
}

/// The decimal numeral of `i`, with a minus sign when it is negative.
pub fn i64_to_string(i: i64) -> (res: String)
    ensures
        res@ == dec_i64(i),
{
    let mut s = String::new();
    if i < 0 {
        push_char(&mut s, '-');
        let mag: u64 = if i == -9223372036854775808i64 {
            9223372036854775808u64
        } else {
            (-i) as u64
        };
        push_decimal(&mut s, mag);
    } else {
        push_decimal(&mut s, i as u64);
    }
    assert(s@ =~= dec_i64(i));
    s
}

/// What `str::to_uppercase` returns for a string: its Unicode upper-case mapping.
pub uninterp spec fn upper(s: Seq<char>) -> Seq<char>;

/// What `str::to_lowercase` returns for a string: its Unicode lower-case mapping.
pub uninterp spec fn lower(s: Seq<char>) -> Seq<char>;

/// Calls `str::to_uppercase`; claims only that the result is the upper-case
/// mapping of the argument, a function of the argument alone.
#[verifier::external_body]
pub(crate) fn to_upper(s: &str) -> (res: String)
    ensures
        res@ == upper(s@),
{
    s.to_uppercase()
}

/// Calls `str::to_lowercase`; claims only that the result is the lower-case
/// mapping of the argument, a function of the argument alone.
#[verifier::external_body]
pub(crate) fn to_lower(s: &str) -> (res: String)
    ensures
        res@ == lower(s@),
{
    s.to_lowercase()
}

/// `s` without the characters that occur in `drop`.
pub open spec fn without_chars(s: Seq<char>, drop: Seq<char>) -> Seq<char>
    decreases s.len(),
{
    if s.len() == 0 {
        Seq::empty()
    } else if drop.contains(s.last()) {
        without_chars(s.drop_last(), drop)
    } else {
        without_chars(s.drop_last(), drop).push(s.last())
    }
}

/// `s` with every `from` replaced by `to`.
pub open spec fn replace_char(s: Seq<char>, from: char, to: char) -> Seq<char> {
    s.map_values(|c: char| if c == from { to } else { c })
}

/// Whether `needle` occurs in `hay` at position `i`.
pub open spec fn occurs_at(hay: Seq<char>, needle: Seq<char>, i: int) -> bool {
    0 <= i && i + needle.len() <= hay.len() && hay.subrange(i, i + needle.len()) == needle
}

/// Whether `needle` occurs somewhere in `hay`.
pub open spec fn contains_seq(hay: Seq<char>, needle: Seq<char>) -> bool {
    exists|i: int| occurs_at(hay, needle, i)
}

/// The parts joined with `sep` between each two of them.
pub open spec fn join(parts: Seq<Seq<char>>, sep: Seq<char>) -> Seq<char>
    decreases parts.len(),
{
    if parts.len() == 0 {
        Seq::empty()
    } else if parts.len() == 1 {
        parts[0]
    } else {
        join(parts.drop_last(), sep) + sep + parts.last()
    }
}

/// The characters of `s`.
pub fn chars_of(s: &str) -> (res: Vec<char>)
    ensures
        res@ == s@,
{
    let mut res: Vec<char> = Vec::new();
    for c in it: s.chars()
        invariant
            it.seq() == s@,
            res@ == s@.take(it.index() as int),
    {
        assert(c == s@[it.index() as int]);
        res.push(c);
        assert(res@ =~= s@.take(it.index() + 1));
    }
    assert(s@.take(s@.len() as int) =~= s@);
    res
}

/// `s` without the characters that occur in `drop`.
pub fn remove_chars(s: &str, drop: &[char]) -> (res: String)
    ensures
        res@ == without_chars(s@, drop@),
{
    let mut res = String::new();
    for c in it: s.chars()
        invariant
            it.seq() == s@,
            res@ == without_chars(s@.take(it.index() as int), drop@),
    {
        assert(c == s@[it.index() as int]);
        assert(s@.take(it.index() + 1).drop_last() =~= s@.take(it.index() as int));
        let mut dropped = false;
        let mut j: usize = 0;
        while j < drop.len()
            invariant
                0 <= j <= drop@.len(),
                dropped == (exists|k: int| 0 <= k < j && drop@[k] == c),
            decreases drop@.len() - j,
        {
            if drop[j] == c {
                dropped = true;
            }
            j = j + 1;
        }
        assert(dropped == drop@.contains(c));
        if !dropped {
            push_char(&mut res, c);
        }
    }
    assert(s@.take(s@.len() as int) =~= s@);
    res
}

/// `s` with every `from` replaced by `to`.
pub fn replace_chars(s: &str, from: char, to: char) -> (res: String)
    ensures
        res@ == replace_char(s@, from, to),
{
    let mut res = String::new();
    for c in it: s.chars()
        invariant
            it.seq() == s@,
            res@ == replace_char(s@.take(it.index() as int), from, to),
    {
        assert(c == s@[it.index() as int]);
        if c == from {
            push_char(&mut res, to);
        } else {
            push_char(&mut res, c);
        }
        assert(res@ =~= replace_char(s@.take(it.index() + 1), from, to));
    }
    assert(s@.take(s@.len() as int) =~= s@);
    res
}

/// Whether `needle` occurs in `hay`.
pub fn contains_str(hay: &str, needle: &str) -> (res: bool)
    ensures
        res == contains_seq(hay@, needle@),
{
    let h = chars_of(hay);
    let n = chars_of(needle);
    if n.len() > h.len() {
        assert forall|i: int| !occurs_at(hay@, needle@, i) by {}
        return false;
    }
    let mut i: usize = 0;
    while i <= h.len() - n.len()
        invariant
            h@ == hay@,
            n@ == needle@,
            n@.len() <= h@.len(),
            0 <= i <= h@.len() - n@.len() + 1,
            forall|k: int| 0 <= k < i ==> !occurs_at(hay@, needle@, k),
        decreases h@.len() - i,
    {
        let mut j: usize = 0;
        let mut same = true;
        while j < n.len()
            invariant
                h@ == hay@,
                n@ == needle@,
                i + n@.len() <= h@.len(),
                h@.len() <= usize::MAX,
                0 <= j <= n@.len(),
                same == (forall|k: int| 0 <= k < j ==> h@[i + k] == n@[k]),
            decreases n@.len() - j,
        {
            if h[i + j] != n[j] {
                same = false;
            }
            j = j + 1;
        }
        if same {
            assert(hay@.subrange(i as int, i + needle@.len()) =~= needle@);
            assert(occurs_at(hay@, needle@, i as int));
            return true;
        }
        assert(!occurs_at(hay@, needle@, i as int)) by {
            let k = choose|k: int| 0 <= k < n@.len() && h@[i + k] != n@[k];
            assert(hay@.subrange(i as int, i + needle@.len())[k] != needle@[k]);
        }
        i = i + 1;
    }
    assert forall|k: int| !occurs_at(hay@, needle@, k) by {
        if 0 <= k && k + needle@.len() <= hay@.len() {
            assert(k < i);
        }
    }
    false
}

/// The parts joined with `sep` between each two of them.
pub fn join_strings(parts: &Vec<String>, sep: &str) -> (res: String)
    ensures
        res@ == join(parts@.map_values(|p: String| p@), sep@),
{
    let ghost views = parts@.map_values(|p: String| p@);
    let mut res = String::new();
    let mut i: usize = 0;
    while i < parts.len()
        invariant
            0 <= i <= parts@.len(),
            views == parts@.map_values(|p: String| p@),
            res@ == join(views.take(i as int), sep@),
        decreases parts@.len() - i,
    {
        assert(views.take(i + 1).drop_last() =~= views.take(i as int));
        if i > 0 {
            res.append(sep);
        }
        res.append(parts[i].as_str());
        i = i + 1;
    }
    assert(views.take(parts@.len() as int) =~= views);
    res
}

/// Whether `c` is white space in the sense of Unicode's `White_Space` property,
/// which `char::is_whitespace` follows.
pub open spec fn is_white(c: char) -> bool {
    let u = c as u32;
    (0x9 <= u <= 0xD) || u == 0x20 || u == 0x85 || u == 0xA0 || u == 0x1680 || (0x2000 <= u
        <= 0x200A) || u == 0x2028 || u == 0x2029 || u == 0x202F || u == 0x205F || u == 0x3000
}

/// The number of white-space characters at the start of `s`.
pub open spec fn lead_white(s: Seq<char>) -> nat
    decreases s.len(),
{
    if s.len() > 0 && is_white(s[0]) {
        1 + lead_white(s.drop_first())
    } else {
        0
    }
}

/// The number of white-space characters at the end of `s`.
pub open spec fn trail_white(s: Seq<char>) -> nat
    decreases s.len(),
{
    if s.len() > 0 && is_white(s.last()) {
        1 + trail_white(s.drop_last())
    } else {
        0
    }
}

/// `s` without white space at either end, as `str::trim` returns it.
pub open spec fn trimmed(s: Seq<char>) -> Seq<char> {
    let t = s.skip(lead_white(s) as int);
    t.take(t.len() - trail_white(t))
}

fn white(c: char) -> (res: bool)
    ensures
        res == is_white(c),
{
    let u = c as u32;
    (0x9 <= u && u <= 0xD) || u == 0x20 || u == 0x85 || u == 0xA0 || u == 0x1680 || (0x2000 <= u
        && u <= 0x200A) || u == 0x2028 || u == 0x2029 || u == 0x202F || u == 0x205F || u == 0x3000
}

proof fn lemma_lead_white(s: Seq<char>, i: int)
    requires
        0 <= i <= s.len(),
        forall|k: int| 0 <= k < i ==> is_white(s[k]),
    ensures
        lead_white(s) == i + lead_white(s.skip(i)),
    decreases i,
{
    if i > 0 {
        assert(s.drop_first().skip(i - 1) =~= s.skip(i));
        lemma_lead_white(s.drop_first(), i - 1);
    } else {
        assert(s.skip(0) =~= s);
    }
}

proof fn lemma_trail_white(s: Seq<char>, i: int)
    requires
        0 <= i <= s.len(),
        forall|k: int| i <= k < s.len() ==> is_white(s[k]),
    ensures
        trail_white(s) == (s.len() - i) + trail_white(s.take(i)),
    decreases s.len() - i,
{
    if i < s.len() {
        assert(s.drop_last().take(i) =~= s.take(i));
        lemma_trail_white(s.drop_last(), i);
    } else {
        assert(s.take(i) =~= s);
    }
}

/// `s` without white space at either end.
pub fn trim(s: &str) -> (res: String)
    ensures
        res@ == trimmed(s@),
{
    let cs = chars_of(s);
    let n = cs.len();
    let mut start: usize = 0;
    while start < n && white(cs[start])
        invariant
            cs@ == s@,
            n == cs@.len(),
            0 <= start <= n,
            forall|k: int| 0 <= k < start ==> is_white(s@[k]),
        decreases n - start,
    {
        start = start + 1;
    }
    proof {
        lemma_lead_white(s@, start as int);
        if start < n {
            assert(s@.skip(start as int)[0] == s@[start as int]);
        }
        assert(lead_white(s@.skip(start as int)) == 0);
    }
    let ghost t = s@.skip(start as int);
    let mut end: usize = n;
    while end > start && white(cs[end - 1])
        invariant
            cs@ == s@,
            n == cs@.len(),
            t == s@.skip(start as int),
            start <= end <= n,
            forall|k: int| end <= k < n ==> is_white(s@[k]),
        decreases end,
    {
        end = end - 1;
    }
    proof {
        let e = end - start;
        assert forall|k: int| e <= k < t.len() implies is_white(t[k]) by {
            assert(t[k] == s@[start + k]);
        }
        lemma_trail_white(t, e);
        if e > 0 {
            assert(t.take(e).last() == s@[end - 1]);
        }
        assert(trail_white(t.take(e)) == 0);
    }
    let mut res = String::new();
    let mut i: usize = start;
    while i < end
        invariant
            cs@ == s@,
            start <= i <= end <= n,
            n == cs@.len(),
            res@ == s@.subrange(start as int, i as int),
        decreases end - i,
    {
        push_char(&mut res, cs[i]);
        assert(res@ =~= s@.subrange(start as int, i + 1));
        i = i + 1;
    }
    assert(res@ =~= trimmed(s@));
    res
}

/// Whether two strings hold the same characters.
pub fn str_equal(a: &str, b: &str) -> (res: bool)
    ensures
        res == (a@ == b@),
{
    a.to_owned() == b.to_owned()
}

} // verus!
