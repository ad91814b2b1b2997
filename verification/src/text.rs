//! Names and numbers in a map's text: comparison without regard to case, the
//! wildcard of target names, and the two integer readings of a key's text.
use vstd::prelude::*;
use vstd::string::*;

verus! {

/// A character's code, capital letters of the Latin alphabet made small.
pub open spec fn lower(c: char) -> int {
    if 65 <= c as int <= 90 { c as int + 32 } else { c as int }
}

/// A text's character codes, capital letters made small.
pub open spec fn fold(s: Seq<char>) -> Seq<int> {
    Seq::new(s.len(), |i: int| lower(s[i]))
}

/// Whether two names are the same but for the case of their letters.
#[verifier::opaque]
pub open spec fn same_name(a: Seq<char>, b: Seq<char>) -> bool {
    fold(a) == fold(b)
}

/// `str::eq_ignore_ascii_case`: equality once the letters `A` to `Z` of both
/// texts have been made small.
pub assume_specification[ str::eq_ignore_ascii_case ](a: &str, b: &str) -> (r: bool)
    ensures
        r == same_name(a@, b@),
;

/// The characters of a text.
pub fn characters(s: &str) -> (r: Vec<char>)
    ensures
        r@ == s@,
{
    let n: usize = s.unicode_len();
    let mut out: Vec<char> = Vec::new();
    let mut i: usize = 0;
    while i < n
        invariant
            n == s@.len(),
            i <= n,
            out@ == s@.subrange(0, i as int),
        decreases n - i,
    {
        out.push(s.get_char(i));
        i = i + 1;
    }
    out
}

/// A character's code.
fn code(c: char) -> (r: u32)
    ensures
        r == c as int,
{
    c as u32
}

/// A character's code, capital letters of the Latin alphabet made small.
pub fn lowered(c: char) -> (r: u32)
    ensures
        r == lower(c),
{
    let plain: u32 = code(c);
    if 65 <= plain && plain <= 90 {
        plain + 32
    } else {
        plain
    }
}

/// Whether two texts are the same, case and all.
pub fn same_text(a: &str, b: &str) -> (r: bool)
    ensures
        r == (a@ == b@),
{
    let x = characters(a);
    let y = characters(b);
    if x.len() != y.len() {
        return false;
    }
    let mut i: usize = 0;
    while i < x.len()
        invariant
            i <= x.len(),
            x@ == a@,
            y@ == b@,
            x.len() == y.len(),
            forall|k: int| 0 <= k < i ==> x@[k] == y@[k],
        decreases x.len() - i,
    {
        if x[i] != y[i] {
            return false;
        }
        i = i + 1;
    }
    assert(x@ =~= y@);
    true
}

/// Whether the first `k` characters of two texts agree but for case.
pub open spec fn agree(a: Seq<char>, b: Seq<char>, k: int) -> bool {
    k <= a.len() && k <= b.len() && forall|i: int| 0 <= i < k ==> lower(#[trigger] a[i]) == lower(b[i])
}

/// Whether a query names a target: the two are the same but for case, or they
/// part where the query holds a `*`.
pub open spec fn name_matches(query: Seq<char>, name: Seq<char>) -> bool {
    ||| same_name(query, name)
    ||| exists|k: int|
        0 <= k < query.len() && #[trigger] query[k] == '*' && agree(query, name, k) && (k
            == name.len() || lower(name[k]) != lower('*'))
}

/// Whether a query names a target. Case does not count, and a `*` in the query
/// stands for whatever follows.
pub fn names_match(query: &str, name: &str) -> (r: bool)
    ensures
        r == name_matches(query@, name@),
{
    let q = characters(query);
    let n = characters(name);
    let mut i: usize = 0;
    while i < q.len() && i < n.len() && lowered(q[i]) == lowered(n[i])
        invariant
            q@ == query@,
            n@ == name@,
            i <= q.len(),
            i <= n.len(),
            agree(q@, n@, i as int),
        decreases q.len() - i,
    {
        i = i + 1;
    }
    proof {
        reveal(same_name);
        assert forall|k: int|
            0 <= k < q@.len() && #[trigger] q@[k] == '*' && agree(q@, n@, k) && (k == n@.len()
                || lower(n@[k]) != lower('*')) implies k == i by {
            if k < i {
                assert(lower(q@[k]) == lower(n@[k]));
            }
            if i < k {
                assert(lower(q@[i as int]) == lower(n@[i as int]));
            }
        }
        if same_name(q@, n@) {
            assert(fold(q@).len() == fold(n@).len());
            if i < q@.len() {
                assert(fold(q@)[i as int] == fold(n@)[i as int]);
            }
        } else if i == q@.len() && i == n@.len() {
            assert(fold(q@) =~= fold(n@));
        }
    }
    if i == q.len() {
        i == n.len()
    } else {
        q[i] == '*'
    }
}

/// The query that stands for a role in the event at hand, not for a name.
pub open spec fn procedural(query: Seq<char>) -> bool {
    query.len() > 0 && query[0] == '!'
}

/// Whether a query stands for a role and not for a name.
pub fn is_procedural(query: &str) -> (r: bool)
    ensures
        r == procedural(query@),
{
    query.unicode_len() > 0 && query.get_char(0) == '!'
}

pub open spec fn blank(c: char) -> bool {
    c as int == 32 || 9 <= c as int <= 13
}

pub open spec fn digit(c: char) -> bool {
    48 <= c as int <= 57
}

/// The first place at or after `i` that holds no white space.
pub open spec fn after_blanks(s: Seq<char>, i: int) -> int
    decreases s.len() - i,
{
    if 0 <= i < s.len() && blank(s[i]) { after_blanks(s, i + 1) } else { i }
}

/// The digits from place `i` on, read in base ten behind those already read.
pub open spec fn digits(s: Seq<char>, i: int, read: int) -> int
    decreases s.len() - i,
{
    if 0 <= i < s.len() && digit(s[i]) {
        digits(s, i + 1, read * 10 + (s[i] as int - 48))
    } else {
        read
    }
}

/// The nearest 32-bit integer.
pub open spec fn nearest_i32(v: int) -> int {
    if v > i32::MAX { i32::MAX as int } else if v < i32::MIN { i32::MIN as int } else { v }
}

/// The integer at place `i` of a text: white space, a sign, digits, and
/// whatever else. No digits read as `0`.
pub open spec fn integer_at(s: Seq<char>, i: int) -> int {
    let j = after_blanks(s, i);
    if 0 <= j < s.len() && s[j] == '-' {
        nearest_i32(-digits(s, j + 1, 0))
    } else if 0 <= j < s.len() && s[j] == '+' {
        nearest_i32(digits(s, j + 1, 0))
    } else {
        nearest_i32(digits(s, j, 0))
    }
}

/// The integer that a text starts with.
pub open spec fn integer_of(s: Seq<char>) -> int {
    integer_at(s, 0)
}

proof fn digits_grow(s: Seq<char>, i: int, read: int)
    requires
        read >= 0,
    ensures
        digits(s, i, read) >= read,
    decreases s.len() - i,
{
    if 0 <= i < s.len() && digit(s[i]) {
        digits_grow(s, i + 1, read * 10 + (s[i] as int - 48));
    }
}

/// The digits from place `start` on, as far as they fit 33 bits.
fn read_digits(s: &Vec<char>, start: usize) -> (r: i64)
    requires
        start <= s.len(),
    ensures
        0 <= r <= 0x1_0000_0000,
        r < 0x1_0000_0000 ==> r == digits(s@, start as int, 0),
        r == 0x1_0000_0000 ==> digits(s@, start as int, 0) >= 0x1_0000_0000,
{
    let mut i: usize = start;
    let mut read: i64 = 0;
    while i < s.len() && 48 <= code(s[i]) && code(s[i]) <= 57
        invariant
            start <= i <= s.len(),
            0 <= read < 0x1_0000_0000,
            digits(s@, start as int, 0) == digits(s@, i as int, read as int),
        decreases s.len() - i,
    {
        let next: i64 = read * 10 + (code(s[i]) - 48) as i64;
        proof {
            digits_grow(s@, i + 1, next as int);
        }
        if next >= 0x1_0000_0000 {
            return 0x1_0000_0000;
        }
        read = next;
        i = i + 1;
    }
    read
}

fn read_integer(s: &Vec<char>, start: usize) -> (r: i32)
    requires
        start <= s.len(),
    ensures
        r == integer_at(s@, start as int),
{
    let mut i: usize = start;
    while i < s.len() && (code(s[i]) == 32 || (9 <= code(s[i]) && code(s[i]) <= 13))
        invariant
            start <= i <= s.len(),
            after_blanks(s@, start as int) == after_blanks(s@, i as int),
        decreases s.len() - i,
    {
        i = i + 1;
    }
    if i < s.len() && s[i] == '-' {
        let m: i64 = read_digits(s, i + 1);
        if m > 0x8000_0000 {
            i32::MIN
        } else {
            (0 - m) as i32
        }
    } else {
        let from: usize = if i < s.len() && s[i] == '+' {
            i + 1
        } else {
            i
        };
        let m: i64 = read_digits(s, from);
        if m > 0x7fff_ffff {
            i32::MAX
        } else {
            m as i32
        }
    }
}

/// The integer that a text starts with; `0` where it starts with none. What
/// follows the digits does not count, and a number too large for 32 bits is
/// the largest that fits.
pub fn atoi(s: &str) -> (r: i32)
    ensures
        r == integer_of(s@),
{
    let v = characters(s);
    read_integer(&v, 0)
}

/// The first place after `i` that follows a space, if a space follows.
pub open spec fn after_space(s: Seq<char>, i: int) -> Option<int>
    decreases s.len() - i,
{
    if 0 <= i < s.len() {
        if s[i] == ' ' { Some(i + 1) } else { after_space(s, i + 1) }
    } else {
        None
    }
}

/// Where a text's `n`th field starts, fields being parted by single spaces.
pub open spec fn field_start(s: Seq<char>, n: nat) -> Option<int>
    decreases n,
{
    if n == 0 {
        Some(0int)
    } else {
        match field_start(s, (n - 1) as nat) {
            Some(i) => after_space(s, i),
            None => None,
        }
    }
}

/// The low eight bits of a text's `n`th field; `0` where there is no such
/// field.
pub open spec fn channel(s: Seq<char>, n: nat) -> int {
    match field_start(s, n) {
        Some(i) => integer_at(s, i) % 256,
        None => 0,
    }
}

/// A text's first four fields as the channels of a colour.
pub open spec fn color_of(s: Seq<char>) -> Seq<u8> {
    Seq::new(4, |n: int| channel(s, n as nat) as u8)
}

fn low_byte(v: i32) -> (r: u8)
    ensures
        r == (v as int) % 256,
{
    let wide: i64 = v as i64 + 0x1_0000_0000;
    (wide % 256) as u8
}

/// A colour from text: up to four integers parted by spaces, each cut down to
/// its low eight bits.
pub fn string_to_color32(s: &str) -> (r: [u8; 4])
    ensures
        r@ == color_of(s@),
{
    let v = characters(s);
    let mut out: [u8; 4] = [0, 0, 0, 0];
    let mut at: Option<usize> = Some(0);
    let mut n: usize = 0;
    while n < 4
        invariant
            n <= 4,
            v@ == s@,
            at matches Some(i) ==> i <= v.len() && field_start(s@, n as nat) == Some(i as int),
            at is None ==> field_start(s@, n as nat) is None,
            forall|k: int| 0 <= k < n ==> #[trigger] out@[k] == channel(s@, k as nat),
            forall|k: int| n <= k < 4 ==> #[trigger] out@[k] == 0,
        decreases 4 - n,
    {
        match at {
            Some(start) => {
                out[n] = low_byte(read_integer(&v, start));
                let mut i: usize = start;
                while i < v.len() && v[i] != ' '
                    invariant
                        start <= i <= v.len(),
                        after_space(v@, start as int) == after_space(v@, i as int),
                    decreases v.len() - i,
                {
                    i = i + 1;
                }
                at = if i < v.len() {
                    Some(i + 1)
                } else {
                    None
                };
            }
            None => {}
        }
        n = n + 1;
    }
    assert(out@ =~= color_of(s@));
    out
}

/// Names that differ in length are never one name.
pub proof fn lengths_tell_names_apart(name: Seq<char>, a: Seq<char>, b: Seq<char>)
    requires
        a.len() != b.len(),
        same_name(name, a),
    ensures
        !same_name(name, b),
{
    reveal(same_name);
    assert(fold(a).len() != fold(b).len());
}

/// Names that differ in a letter are never one name.
pub proof fn letters_tell_names_apart(name: Seq<char>, a: Seq<char>, b: Seq<char>, k: int)
    requires
        0 <= k < a.len(),
        k < b.len(),
        lower(a[k]) != lower(b[k]),
        same_name(name, a),
    ensures
        !same_name(name, b),
{
    reveal(same_name);
    assert(fold(a)[k] != fold(b)[k]);
}

} // verus!
