//! Text helpers shared by the rest of the library, each proved against a
//! short specification over `Seq<char>`.

use vstd::prelude::*;

verus! {

/// The decimal digit character for `d`, which is below ten.
pub open spec fn digit_char(d: nat) -> char {
    (48 + d) as char
}

/// The decimal representation of `n`, without sign or leading zeros.
pub open spec fn decimal(n: nat) -> Seq<char>
    decreases n,
{
    if n < 10 {
        seq![digit_char(n)]
    } else {
        decimal(n / 10).push(digit_char(n % 10))
    }
}

/// Appends one character to a `String` (std's `String::push`).
#[verifier::external_body]
pub(crate) fn push_char(s: &mut String, c: char)
    ensures
        final(s)@ == old(s)@.push(c),
{
    s.push(c);
}

fn decimal_digit(d: u64) -> (c: char)
    requires
        d < 10,
    ensures
        c == digit_char(d as nat),
{
    let b: u8 = (d as u8) + 48;
    b as char
}

/// Appends the decimal representation of `n` to `s`.
pub fn append_decimal(s: &mut String, n: u64)
    ensures
        final(s)@ == old(s)@ + decimal(n as nat),
    decreases n,
{
    if n >= 10 {
        append_decimal(s, n / 10);
    }
    let c = decimal_digit(n % 10);
    push_char(s, c);
    assert(decimal(n as nat) =~= if n < 10 { seq![digit_char(n as nat)] } else { decimal((n / 10) as nat).push(digit_char((n % 10) as nat)) });
}

/// The characters of `s`, in order.
pub fn chars_of(s: &str) -> (v: Vec<char>)
    ensures
        v@ == s@,
{
    let mut v: Vec<char> = Vec::new();
    broadcast use vstd::string::group_string_axioms;
    for c in it: s.chars()
        invariant
            it.seq() == s@,
            v@ == s@.take(it.index() as int),
    {
        v.push(c);
    }
    assert(v@ =~= s@.take(s@.len() as int));
    v
}


/// A `String` holding exactly the characters of `v`.
pub fn string_from_chars(v: &Vec<char>) -> (s: String)
    ensures
        s@ == v@,
{
    let mut s = String::new();
    for i in 0..v.len()
        invariant
            s@ == v@.take(i as int),
    {
        push_char(&mut s, v[i]);
        assert(v@.take(i + 1) =~= v@.take(i as int).push(v@[i as int]));
    }
    assert(v@.take(v@.len() as int) =~= v@);
    s
}

/// `c` with an ASCII upper-case letter turned into lower case.
pub open spec fn ascii_lower(c: char) -> char {
    if 'A' <= c <= 'Z' {
        ((c as int) + 32) as char
    } else {
        c
    }
}

/// `a` and `b` are equal when ASCII letters are compared without case.
pub open spec fn eq_ignore_ascii_case(a: Seq<char>, b: Seq<char>) -> bool {
    &&& a.len() == b.len()
    &&& forall|i: int| 0 <= i < a.len() ==> ascii_lower(#[trigger] a[i]) == ascii_lower(b[i])
}

/// Two names are equal without regard to ASCII case exactly when they have
/// the same length and, position by position, hold the same character or
/// an upper-case ASCII letter and its lower-case form.
pub proof fn lemma_eq_ignore_ascii_case_letters(a: Seq<char>, b: Seq<char>)
    ensures
        eq_ignore_ascii_case(a, b) <==> {
            &&& a.len() == b.len()
            &&& forall|k: int|
                0 <= k < a.len() ==> {
                    ||| #[trigger] a[k] == b[k]
                    ||| 'A' <= a[k] <= 'Z' && a[k] as int + 32 == b[k] as int
                    ||| 'A' <= b[k] <= 'Z' && b[k] as int + 32 == a[k] as int
                }
        },
{
}

fn lower_char(c: char) -> (r: char)
    ensures
        r == ascii_lower(c),
{
    if 'A' <= c && c <= 'Z' {
        let b: u8 = (c as u8) + 32;
        b as char
    } else {
        c
    }
}

/// Whether `a` and `b` are equal when ASCII letters are compared without case.
pub fn chars_eq_ignore_ascii_case(a: &Vec<char>, b: &Vec<char>) -> (r: bool)
    ensures
        r == eq_ignore_ascii_case(a@, b@),
{
    if a.len() != b.len() {
        return false;
    }
    let n = a.len();
    for i in 0..n
        invariant
            n == a@.len(),
            n == b@.len(),
            forall|k: int| 0 <= k < i ==> ascii_lower(#[trigger] a@[k]) == ascii_lower(b@[k]),
    {
        if lower_char(a[i]) != lower_char(b[i]) {
            return false;
        }
    }
    true
}

/// `line` ends with `suffix`.
pub open spec fn ends_with(line: Seq<char>, suffix: Seq<char>) -> bool {
    &&& suffix.len() <= line.len()
    &&& line.subrange(line.len() - suffix.len(), line.len() as int) == suffix
}

/// Whether `line` ends with `suffix`.
pub fn chars_end_with(line: &Vec<char>, suffix: &Vec<char>) -> (b: bool)
    ensures
        b == ends_with(line@, suffix@),
{
    if suffix.len() > line.len() {
        return false;
    }
    let off = line.len() - suffix.len();
    let n = suffix.len();
    let ll = line.len();
    for i in 0..n
        invariant
            n == suffix@.len(),
            ll == line@.len(),
            off == line@.len() - suffix@.len(),
            suffix@.len() <= line@.len(),
            forall|k: int| 0 <= k < i ==> line@[off + k] == suffix@[k],
    {
        if line[off + i] != suffix[i] {
            assert(line@.subrange(off as int, line@.len() as int)[i as int] != suffix@[i as int]);
            return false;
        }
    }
    assert(line@.subrange(off as int, line@.len() as int) =~= suffix@);
    true
}

/// A line with one trailing carriage return removed, if it has one.
pub open spec fn strip_cr(line: Seq<char>) -> Seq<char> {
    if line.len() > 0 && line.last() == '\r' {
        line.drop_last()
    } else {
        line
    }
}

/// Reading `s` from the start: the lines ended by a line feed so far, each
/// without its `\n` or `\r\n`, and the characters of the unfinished line.
pub open spec fn scan_lines(s: Seq<char>) -> (Seq<Seq<char>>, Seq<char>)
    decreases s.len(),
{
    if s.len() == 0 {
        (seq![], seq![])
    } else {
        let (done, cur) = scan_lines(s.drop_last());
        if s.last() == '\n' {
            (done.push(strip_cr(cur)), seq![])
        } else {
            (done, cur.push(s.last()))
        }
    }
}

/// The lines of `s` as `str::lines` yields them: split at `\n`, a `\r`
/// before the `\n` dropped, and a last line only when it is not empty.
pub open spec fn lines(s: Seq<char>) -> Seq<Seq<char>> {
    let (done, cur) = scan_lines(s);
    if cur.len() == 0 {
        done
    } else {
        done.push(cur)
    }
}

/// `a` is a prefix of `b`.
pub open spec fn is_prefix(a: Seq<Seq<char>>, b: Seq<Seq<char>>) -> bool {
    &&& a.len() <= b.len()
    &&& forall|k: int| 0 <= k < a.len() ==> a[k] == b[k]
}

/// The lines finished after reading a prefix stay the first lines after
/// reading a longer prefix.
pub proof fn lemma_scan_prefix(s: Seq<char>, a: int, b: int)
    requires
        0 <= a <= b <= s.len(),
    ensures
        is_prefix(scan_lines(s.take(a)).0, scan_lines(s.take(b)).0),
    decreases b - a,
{
    if a < b {
        lemma_scan_prefix(s, a, b - 1);
        assert(s.take(b).drop_last() =~= s.take(b - 1));
    }
}

/// The lines finished after reading a prefix of `s` are the first lines of `s`.
pub proof fn lemma_scan_prefix_of_lines(s: Seq<char>, a: int)
    requires
        0 <= a <= s.len(),
    ensures
        is_prefix(scan_lines(s.take(a)).0, lines(s)),
{
    lemma_scan_prefix(s, a, s.len() as int);
    assert(s.take(s.len() as int) =~= s);
}

/// The characters of `line` before its first space (all of it if it has none).
pub open spec fn first_field(line: Seq<char>) -> Seq<char>
    decreases line.len(),
{
    if line.len() == 0 || line[0] == ' ' {
        seq![]
    } else {
        seq![line[0]] + first_field(line.drop_first())
    }
}

/// The characters of `line` before its first space.
pub fn first_field_of(line: &Vec<char>) -> (r: Vec<char>)
    ensures
        r@ == first_field(line@),
{
    let mut r: Vec<char> = Vec::new();
    let mut i: usize = 0;
    assert(line@.skip(0) =~= line@);
    assert(r@ + first_field(line@) =~= first_field(line@));
    while i < line.len() && line[i] != ' '
        invariant
            i <= line@.len(),
            r@ == line@.take(i as int),
            first_field(line@) == r@ + first_field(line@.skip(i as int)),
        decreases line@.len() - i,
    {
        let ghost rest = line@.skip(i as int);
        assert(rest.drop_first() =~= line@.skip(i + 1));
        assert(rest[0] == line@[i as int]);
        r.push(line[i]);
        i = i + 1;
        assert(r@ =~= line@.take(i as int));
        assert(first_field(rest) == seq![rest[0]] + first_field(rest.drop_first()));
        assert(first_field(line@) =~= r@ + first_field(line@.skip(i as int)));
    }
    assert(first_field(line@.skip(i as int)) =~= seq![]);
    assert(r@ + seq![] =~= r@);
    r
}

} // verus!
