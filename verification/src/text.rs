//! Text helpers over sequences of characters.

use vstd::prelude::*;
use vstd::string::*;

verus! {

/// `String::push` appends one character at the end.
pub assume_specification[ String::push ](s: &mut String, c: char)
    ensures
        final(s)@ == old(s)@.push(c),
;

/// Unicode `White_Space`.
pub open spec fn is_ws(c: char) -> bool {
    let n = c as u32;
    ||| 0x9 <= n <= 0xD
    ||| n == 0x20
    ||| n == 0x85
    ||| n == 0xA0
    ||| n == 0x1680
    ||| 0x2000 <= n <= 0x200A
    ||| n == 0x2028
    ||| n == 0x2029
    ||| n == 0x202F
    ||| n == 0x205F
    ||| n == 0x3000
}

/// Whether the character has the Unicode `White_Space` property.
pub fn is_whitespace(c: char) -> (r: bool)
    ensures
        r == is_ws(c),
{
    let n: u32 = c as u32;
    (0x9 <= n && n <= 0xD) || n == 0x20 || n == 0x85 || n == 0xA0 || n == 0x1680 || (0x2000 <= n
        && n <= 0x200A) || n == 0x2028 || n == 0x2029 || n == 0x202F || n == 0x205F || n == 0x3000
}

/// The text without its leading white space.
pub open spec fn skip_ws(s: Seq<char>) -> Seq<char>
    decreases s.len(),
{
    if s.len() > 0 && is_ws(s[0]) {
        skip_ws(s.skip(1))
    } else {
        s
    }
}

/// The text without its trailing white space.
pub open spec fn drop_ws(s: Seq<char>) -> Seq<char>
    decreases s.len(),
{
    if s.len() > 0 && is_ws(s.last()) {
        drop_ws(s.drop_last())
    } else {
        s
    }
}

/// The text without white space at either end.
pub open spec fn trimmed(s: Seq<char>) -> Seq<char> {
    drop_ws(skip_ws(s))
}

/// Whether the text is empty once trimmed.
pub open spec fn blank(s: Seq<char>) -> bool {
    trimmed(s).len() == 0
}

/// The characters of a string.
pub fn chars_of(s: &str) -> (v: Vec<char>)
    ensures
        v@ == s@,
{
    let mut v: Vec<char> = Vec::new();
    for c in it: s.chars()
        invariant
            it.seq() == s@,
            v@ == s@.take(it.index() as int),
    {
        v.push(c);
        proof {
            assert(s@.take(it.index() + 1) =~= s@.take(it.index() as int).push(s@[it.index() as int]));
        }
    }
    assert(s@.take(s@.len() as int) =~= s@);
    v
}

/// The string made of the characters from `from` up to `to`.
pub fn slice_text(v: &Vec<char>, from: usize, to: usize) -> (r: String)
    requires
        from <= to <= v.len(),
    ensures
        r@ == v@.subrange(from as int, to as int),
{
    let mut r = String::new();
    let mut i: usize = from;
    while i < to
        invariant
            from <= i <= to <= v.len(),
            r@ == v@.subrange(from as int, i as int),
        decreases to - i,
    {
        r.push(v[i]);
        i += 1;
        proof {
            assert(v@.subrange(from as int, i as int) =~= v@.subrange(from as int, i - 1).push(
                v@[i - 1],
            ));
        }
    }
    r
}

/// Whether two strings hold the same characters.
pub fn same_text(a: &str, b: &str) -> (r: bool)
    ensures
        r == (a@ == b@),
{
    a.to_owned() == b.to_owned()
}

proof fn lemma_skip_ws(s: Seq<char>, i: int)
    requires
        0 <= i <= s.len(),
        forall|k: int| 0 <= k < i ==> is_ws(#[trigger] s[k]),
    ensures
        skip_ws(s) == skip_ws(s.skip(i)),
    decreases i,
{
    if i > 0 {
        lemma_skip_ws(s.skip(1), i - 1);
        assert(s.skip(1).skip(i - 1) =~= s.skip(i));
    } else {
        assert(s.skip(0) =~= s);
    }
}

proof fn lemma_drop_ws(s: Seq<char>, j: int)
    requires
        0 <= j <= s.len(),
        forall|k: int| j <= k < s.len() ==> is_ws(#[trigger] s[k]),
    ensures
        drop_ws(s) == drop_ws(s.take(j)),
    decreases s.len() - j,
{
    if j < s.len() {
        lemma_drop_ws(s.drop_last(), j);
        assert(s.drop_last().take(j) =~= s.take(j));
    } else {
        assert(s.take(j) =~= s);
    }
}

/// The string without white space at either end.
pub fn trim(s: &str) -> (r: String)
    ensures
        r@ == trimmed(s@),
{
    let v = chars_of(s);
    let mut i: usize = 0;
    while i < v.len() && is_whitespace(v[i])
        invariant
            i <= v.len(),
            forall|k: int| 0 <= k < i ==> is_ws(#[trigger] v[k]),
        decreases v.len() - i,
    {
        i += 1;
    }
    proof {
        lemma_skip_ws(v@, i as int);
        assert(skip_ws(v@) == v@.skip(i as int));
    }
    let mut j: usize = v.len();
    while i < j && is_whitespace(v[j - 1])
        invariant
            i <= j <= v.len(),
            forall|k: int| j <= k < v.len() ==> is_ws(#[trigger] v[k]),
        decreases j,
    {
        j -= 1;
    }
    proof {
        let w = v@.skip(i as int);
        lemma_drop_ws(w, j - i);
        assert(w.take(j - i) =~= v@.subrange(i as int, j as int));
        if j > i {
            assert(!is_ws(w.take(j - i).last()));
        }
    }
    slice_text(&v, i, j)
}

/// Whether the string is empty once trimmed.
pub fn is_blank(s: &str) -> (r: bool)
    ensures
        r == blank(s@),
{
    trim(s).as_str().is_empty()
}

/// Whether `p` stands in `s` at position `i`.
pub open spec fn occurs_at(s: Seq<char>, p: Seq<char>, i: int) -> bool {
    0 <= i && i + p.len() <= s.len() && s.subrange(i, i + p.len()) == p
}

/// Whether `p` stands somewhere in `s`.
pub open spec fn occurs_in(s: Seq<char>, p: Seq<char>) -> bool {
    exists|i: int| occurs_at(s, p, i)
}

/// Whether `p` stands in `s` at position `i`, decided.
pub fn text_at(s: &Vec<char>, p: &Vec<char>, i: usize) -> (r: bool)
    ensures
        r == occurs_at(s@, p@, i as int),
{
    if i > s.len() || p.len() > s.len() - i {
        return false;
    }
    let mut k: usize = 0;
    while k < p.len()
        invariant
            k <= p.len(),
            i + p.len() <= s.len(),
            forall|m: int| 0 <= m < k ==> s@[i + m] == #[trigger] p@[m],
        decreases p.len() - k,
    {
        if s[i + k] != p[k] {
            assert(s@.subrange(i as int, i + p.len())[k as int] != p@[k as int]);
            return false;
        }
        k += 1;
    }
    assert(s@.subrange(i as int, i + p.len()) =~= p@);
    true
}

/// The first position at or after `from` where `p` stands in `s`.
pub open spec fn first_from(s: Seq<char>, p: Seq<char>, from: int) -> Option<int>
    decreases s.len() + 1 - from,
{
    if from > s.len() {
        None
    } else if occurs_at(s, p, from) {
        Some(from)
    } else {
        first_from(s, p, from + 1)
    }
}

/// A position where `p` stands, with none before it, is the first one.
pub proof fn lemma_first_from(s: Seq<char>, p: Seq<char>, from: int, i: int)
    requires
        from <= i,
        occurs_at(s, p, i),
        forall|k: int| from <= k < i ==> !occurs_at(s, p, k),
    ensures
        first_from(s, p, from) == Some(i),
    decreases i - from,
{
    if from < i {
        lemma_first_from(s, p, from + 1, i);
    }
}

/// The first position at or after `from` where `p` stands in `s`.
pub fn find_from(s: &Vec<char>, p: &Vec<char>, from: usize) -> (r: Option<usize>)
    ensures
        first_from(s@, p@, from as int) == (match r {
            Some(i) => Some(i as int),
            None => None,
        }),
        match r {
            Some(i) => from <= i && occurs_at(s@, p@, i as int) && forall|k: int|
                from <= k < i ==> !occurs_at(s@, p@, k),
            None => forall|k: int| from <= k ==> !occurs_at(s@, p@, k),
        },
{
    let mut i: usize = from;
    while i <= s.len()
        invariant
            from <= i,
            forall|k: int| from <= k < i ==> !occurs_at(s@, p@, k),
            first_from(s@, p@, from as int) == first_from(s@, p@, i as int),
        decreases s.len() + 1 - i,
    {
        if text_at(s, p, i) {
            return Some(i);
        }
        if i == s.len() {
            assert(first_from(s@, p@, i + 1) is None);
            return None;
        }
        i += 1;
    }
    None
}

/// Whether `p` is a part of `s`.
pub fn contains(s: &str, p: &str) -> (r: bool)
    ensures
        r == occurs_in(s@, p@),
{
    let a = chars_of(s);
    let b = chars_of(p);
    match find_from(&a, &b, 0) {
        Some(i) => {
            assert(occurs_at(s@, p@, i as int));
            true
        },
        None => false,
    }
}

/// Whether `s` begins with `p`.
pub open spec fn has_prefix(s: Seq<char>, p: Seq<char>) -> bool {
    occurs_at(s, p, 0)
}

/// Whether `s` ends with `p`.
pub open spec fn has_suffix(s: Seq<char>, p: Seq<char>) -> bool {
    occurs_at(s, p, s.len() - p.len())
}

/// Whether `s` begins with `p`, decided.
pub fn starts_with(s: &str, p: &str) -> (r: bool)
    ensures
        r == has_prefix(s@, p@),
{
    let a = chars_of(s);
    let b = chars_of(p);
    text_at(&a, &b, 0)
}

/// Whether `s` ends with `p`, decided.
pub fn ends_with(s: &str, p: &str) -> (r: bool)
    ensures
        r == has_suffix(s@, p@),
{
    let a = chars_of(s);
    let b = chars_of(p);
    if b.len() > a.len() {
        return false;
    }
    text_at(&a, &b, a.len() - b.len())
}

/// What precedes the suffix `p`, where `s` ends with it.
pub fn strip_suffix(s: &str, p: &str) -> (r: Option<String>)
    ensures
        match r {
            Some(t) => has_suffix(s@, p@) && t@ == s@.take(s@.len() - p@.len()),
            None => !has_suffix(s@, p@),
        },
{
    let a = chars_of(s);
    let b = chars_of(p);
    if b.len() <= a.len() && text_at(&a, &b, a.len() - b.len()) {
        proof {
            assert(a@.subrange(0, a.len() - b.len()) =~= s@.take(s@.len() - p@.len()));
        }
        Some(slice_text(&a, 0, a.len() - b.len()))
    } else {
        None
    }
}

/// The text without any trailing `c`.
pub open spec fn drop_char(s: Seq<char>, c: char) -> Seq<char>
    decreases s.len(),
{
    if s.len() > 0 && s.last() == c {
        drop_char(s.drop_last(), c)
    } else {
        s
    }
}

proof fn lemma_drop_char(s: Seq<char>, c: char, j: int)
    requires
        0 <= j <= s.len(),
        forall|k: int| j <= k < s.len() ==> #[trigger] s[k] == c,
    ensures
        drop_char(s, c) == drop_char(s.take(j), c),
    decreases s.len() - j,
{
    if j < s.len() {
        lemma_drop_char(s.drop_last(), c, j);
        assert(s.drop_last().take(j) =~= s.take(j));
    } else {
        assert(s.take(j) =~= s);
    }
}

/// The string without any trailing `c`.
pub fn trim_end_char(s: &str, c: char) -> (r: String)
    ensures
        r@ == drop_char(s@, c),
{
    let v = chars_of(s);
    let mut j: usize = v.len();
    while 0 < j && v[j - 1] == c
        invariant
            j <= v.len(),
            forall|k: int| j <= k < v.len() ==> #[trigger] v[k] == c,
        decreases j,
    {
        j -= 1;
    }
    proof {
        lemma_drop_char(v@, c, j as int);
        assert(v@.take(j as int) =~= v@.subrange(0, j as int));
    }
    slice_text(&v, 0, j)
}

/// `s` from position `i` on, with each occurrence of `p`, from the left and without overlap,
/// replaced by `t`.
pub open spec fn replaced_from(s: Seq<char>, p: Seq<char>, t: Seq<char>, i: int) -> Seq<char>
    decreases s.len() - i,
{
    if i < 0 || s.len() <= i {
        Seq::empty()
    } else if p.len() > 0 && occurs_at(s, p, i) {
        t + replaced_from(s, p, t, i + p.len())
    } else {
        seq![s[i]] + replaced_from(s, p, t, i + 1)
    }
}

/// `s` with each occurrence of a non-empty `p` replaced by `t`.
pub open spec fn replaced(s: Seq<char>, p: Seq<char>, t: Seq<char>) -> Seq<char> {
    replaced_from(s, p, t, 0)
}

/// The string with each occurrence of a non-empty `p` replaced by `t`.
pub fn replace(s: &str, p: &str, t: &str) -> (r: String)
    requires
        p@.len() > 0,
    ensures
        r@ == replaced(s@, p@, t@),
{
    let a = chars_of(s);
    let b = chars_of(p);
    let mut r = String::new();
    let mut i: usize = 0;
    while i < a.len()
        invariant
            a@ == s@,
            b@ == p@,
            p@.len() > 0,
            i <= a.len(),
            r@ + replaced_from(s@, p@, t@, i as int) == replaced(s@, p@, t@),
        decreases a.len() - i,
    {
        let ghost before = r@;
        if text_at(&a, &b, i) {
            r.append(t);
            proof {
                assert(r@ + replaced_from(s@, p@, t@, i + p@.len()) =~= before + (t@
                    + replaced_from(s@, p@, t@, i + p@.len())));
            }
            i += b.len();
        } else {
            r.push(a[i]);
            proof {
                assert(r@ + replaced_from(s@, p@, t@, i + 1) =~= before + (seq![s@[i as int]]
                    + replaced_from(s@, p@, t@, i + 1)));
            }
            i += 1;
        }
    }
    assert(r@ + Seq::<char>::empty() =~= r@);
    r
}

/// The digit character of a number below ten.
pub open spec fn digit(d: int) -> char {
    ('0' as u32 + d) as char
}

/// A number written in decimal, without leading zeros.
pub open spec fn dec(n: nat) -> Seq<char>
    decreases n,
{
    if n < 10 {
        seq![digit(n as int)]
    } else {
        dec(n / 10).push(digit((n % 10) as int))
    }
}

fn digit_char(d: u64) -> (c: char)
    requires
        d < 10,
    ensures
        c == digit(d as int),
{
    if d == 0 {
        '0'
    } else if d == 1 {
        '1'
    } else if d == 2 {
        '2'
    } else if d == 3 {
        '3'
    } else if d == 4 {
        '4'
    } else if d == 5 {
        '5'
    } else if d == 6 {
        '6'
    } else if d == 7 {
        '7'
    } else if d == 8 {
        '8'
    } else {
        '9'
    }
}

/// The number written in decimal.
pub fn decimal(n: u64) -> (r: String)
    ensures
        r@ == dec(n as nat),
    decreases n,
{
    let mut r = if n < 10 {
        String::new()
    } else {
        decimal(n / 10)
    };
    r.push(digit_char(n % 10));
    proof {
        assert(Seq::<char>::empty().push(digit(n as int)) =~= seq![digit(n as int)]);
    }
    r
}

/// The lower-case hexadecimal digit of a number below sixteen.
pub open spec fn hex_digit(d: int) -> char {
    if d < 10 {
        digit(d)
    } else {
        ('a' as u32 + d - 10) as char
    }
}

/// The last `width` hexadecimal digits of a number.
pub open spec fn hex(n: nat, width: nat) -> Seq<char>
    decreases width,
{
    if width == 0 {
        Seq::empty()
    } else {
        hex(n / 16, (width - 1) as nat).push(hex_digit((n % 16) as int))
    }
}

/// The number has no more than `width` hexadecimal digits.
pub open spec fn fits_hex(n: nat, width: nat) -> bool
    decreases width,
{
    if width == 0 {
        n == 0
    } else {
        fits_hex(n / 16, (width - 1) as nat)
    }
}

/// As many digits are written as were asked for.
pub proof fn lemma_hex_len(n: nat, width: nat)
    ensures
        hex(n, width).len() == width,
    decreases width,
{
    if width > 0 {
        lemma_hex_len(n / 16, (width - 1) as nat);
    }
}

/// Numbers that fit are told apart by their digits.
pub proof fn lemma_hex_injective(a: nat, b: nat, width: nat)
    requires
        fits_hex(a, width),
        fits_hex(b, width),
        hex(a, width) == hex(b, width),
    ensures
        a == b,
    decreases width,
{
    if width > 0 {
        let (x, y) = (hex(a, width), hex(b, width));
        assert(x.drop_last() =~= hex(a / 16, (width - 1) as nat));
        assert(y.drop_last() =~= hex(b / 16, (width - 1) as nat));
        assert(x.last() == hex_digit((a % 16) as int) && y.last() == hex_digit((b % 16) as int));
        lemma_hex_injective(a / 16, b / 16, (width - 1) as nat);
        assert(a % 16 == b % 16);
    }
}

/// Sixteen digits hold every `u64`.
pub proof fn lemma_u64_fits_hex(n: u64)
    ensures
        fits_hex(n as nat, 16),
{
    reveal_with_fuel(fits_hex, 17);
}

fn hex_char(d: u64) -> (c: char)
    requires
        d < 16,
    ensures
        c == hex_digit(d as int),
{
    if d < 10 {
        digit_char(d)
    } else if d == 10 {
        'a'
    } else if d == 11 {
        'b'
    } else if d == 12 {
        'c'
    } else if d == 13 {
        'd'
    } else if d == 14 {
        'e'
    } else {
        'f'
    }
}

/// The last `width` hexadecimal digits of a number, with leading zeros.
pub fn hex_padded(n: u64, width: usize) -> (r: String)
    ensures
        r@ == hex(n as nat, width as nat),
    decreases width,
{
    if width == 0 {
        return String::new();
    }
    let mut r = hex_padded(n / 16, width - 1);
    r.push(hex_char(n % 16));
    r
}

/// A number written in lower-case hexadecimal, without leading zeros.
pub open spec fn hex_short(n: nat) -> Seq<char>
    decreases n,
{
    if n < 16 {
        seq![hex_digit(n as int)]
    } else {
        hex_short(n / 16).push(hex_digit((n % 16) as int))
    }
}

/// The number written in lower-case hexadecimal.
pub fn hexadecimal(n: u64) -> (r: String)
    ensures
        r@ == hex_short(n as nat),
    decreases n,
{
    let mut r = if n < 16 {
        String::new()
    } else {
        hexadecimal(n / 16)
    };
    r.push(hex_char(n % 16));
    proof {
        assert(Seq::<char>::empty().push(hex_digit(n as int)) =~= seq![hex_digit(n as int)]);
    }
    r
}

/// The views of a list of strings.
pub open spec fn views(v: Seq<String>) -> Seq<Seq<char>> {
    Seq::new(v.len(), |i: int| v[i]@)
}

/// The words of a text, from position `i` on, that single spaces separate.
pub open spec fn words_from(s: Seq<char>, i: int) -> Seq<Seq<char>>
    decreases s.len() - i,
{
    if i < 0 || i > s.len() {
        Seq::empty()
    } else {
        let e = word_end(s, i);
        if e >= s.len() {
            seq![s.subrange(i, s.len() as int)]
        } else {
            proof {
                lemma_word_end(s, i);
            }
            seq![s.subrange(i, e)] + words_from(s, e + 1)
        }
    }
}

/// A word ends no earlier than it begins.
pub proof fn lemma_word_end(s: Seq<char>, i: int)
    ensures
        word_end(s, i) >= i,
    decreases s.len() - i,
{
    if i < s.len() && s[i] != ' ' {
        lemma_word_end(s, i + 1);
    }
}

/// The position of the first space at or after `i`, or the end.
pub open spec fn word_end(s: Seq<char>, i: int) -> int
    decreases s.len() - i,
{
    if i >= s.len() || s[i] == ' ' {
        i
    } else {
        word_end(s, i + 1)
    }
}

/// The words of a text that single spaces separate.
pub open spec fn words(s: Seq<char>) -> Seq<Seq<char>> {
    words_from(s, 0)
}

/// The words of a text that single spaces separate.
pub fn split_words(s: &str) -> (r: Vec<String>)
    ensures
        views(r@) == words(s@),
{
    let v = chars_of(s);
    let mut r: Vec<String> = Vec::new();
    let mut i: usize = 0;
    loop
        invariant
            v@ == s@,
            i <= v@.len(),
            views(r@) + words_from(s@, i as int) == words(s@),
        decreases v@.len() - i,
    {
        let mut e: usize = i;
        while e < v.len() && v[e] != ' '
            invariant
                i <= e <= v@.len(),
                word_end(v@, i as int) == word_end(v@, e as int),
            decreases v@.len() - e,
        {
            e += 1;
        }
        let ghost before = r@;
        r.push(slice_text(&v, i, e));
        assert(views(r@) =~= views(before).push(v@.subrange(i as int, e as int)));
        if e >= v.len() {
            proof {
                assert(views(r@) =~= views(before) + words_from(s@, i as int));
            }
            return r;
        }
        proof {
            assert(views(r@) + words_from(s@, e + 1) =~= views(before) + words_from(s@, i as int));
        }
        i = e + 1;
    }
}

/// The text without any trailing `p`.
pub open spec fn drop_suffixes(s: Seq<char>, p: Seq<char>) -> Seq<char>
    decreases s.len(),
{
    if p.len() > 0 && has_suffix(s, p) {
        drop_suffixes(s.take(s.len() - p.len()), p)
    } else {
        s
    }
}

/// The string without any trailing `p`.
pub fn trim_end_matches(s: &str, p: &str) -> (r: String)
    ensures
        r@ == drop_suffixes(s@, p@),
{
    let mut r = s.to_owned();
    if p.is_empty() {
        return r;
    }
    loop
        invariant
            p@.len() > 0,
            drop_suffixes(r@, p@) == drop_suffixes(s@, p@),
        decreases r@.len(),
    {
        match strip_suffix(r.as_str(), p) {
            Some(t) => {
                r = t;
            },
            None => {
                return r;
            },
        }
    }
}

/// Whether the list holds the string.
pub fn list_contains(list: &Vec<String>, s: &str) -> (r: bool)
    ensures
        r == views(list@).contains(s@),
{
    let mut i: usize = 0;
    while i < list.len()
        invariant
            i <= list@.len(),
            forall|k: int| 0 <= k < i ==> (#[trigger] list@[k])@ != s@,
        decreases list@.len() - i,
    {
        if same_text(list[i].as_str(), s) {
            assert(views(list@)[i as int] == s@);
            return true;
        }
        i += 1;
    }
    proof {
        if views(list@).contains(s@) {
            let k = choose|k: int| 0 <= k < views(list@).len() && views(list@)[k] == s@;
            assert(list@[k]@ == s@);
        }
    }
    false
}

/// A copy of a list of strings.
pub fn copy_list(list: &Vec<String>) -> (r: Vec<String>)
    ensures
        views(r@) == views(list@),
{
    let mut r: Vec<String> = Vec::new();
    let mut i: usize = 0;
    while i < list.len()
        invariant
            i <= list@.len(),
            views(r@) == views(list@).take(i as int),
        decreases list@.len() - i,
    {
        let ghost before = r@;
        r.push(list[i].clone());
        i += 1;
        assert(views(r@) =~= views(before).push(views(list@)[i - 1]));
        assert(views(list@).take(i as int) =~= views(list@).take(i - 1).push(views(list@)[i - 1]));
    }
    assert(views(list@).take(i as int) =~= views(list@));
    r
}

/// What an optional string holds.
pub open spec fn opt_view(t: Option<String>) -> Option<Seq<char>> {
    match t {
        Some(s) => Some(s@),
        None => None,
    }
}

/// A copy of an optional string.
pub fn copy_opt(t: &Option<String>) -> (r: Option<String>)
    ensures
        opt_view(r) == opt_view(*t),
{
    match t {
        Some(s) => Some(s.clone()),
        None => None,
    }
}

/// Two texts, one after the other.
pub fn concat2(a: &str, b: &str) -> (r: String)
    ensures
        r@ == a@ + b@,
{
    let mut r = a.to_owned();
    r.append(b);
    r
}

/// A relative path under a directory.
pub open spec fn joined_path(dir: Seq<char>, name: Seq<char>) -> Seq<char> {
    if dir.len() == 0 || dir.last() == '/' {
        dir + name
    } else {
        dir + "/"@ + name
    }
}

/// A relative path under a directory.
pub fn join_path(dir: &str, name: &str) -> (r: String)
    ensures
        r@ == joined_path(dir@, name@),
{
    let v = chars_of(dir);
    let mut r = dir.to_owned();
    if v.len() > 0 && v[v.len() - 1] != '/' {
        r.append("/");
    }
    r.append(name);
    r
}

/// A number written in decimal, with a sign where it is negative.
pub open spec fn dec_signed(n: int) -> Seq<char> {
    if n < 0 {
        "-"@ + dec((-n) as nat)
    } else {
        dec(n as nat)
    }
}

/// The number written in decimal, with a sign where it is negative.
pub fn decimal_signed(n: i64) -> (r: String)
    ensures
        r@ == dec_signed(n as int),
{
    if n < 0 {
        let magnitude: u64 = (-(n + 1)) as u64 + 1;
        let mut r = "-".to_owned();
        r.append(decimal(magnitude).as_str());
        r
    } else {
        decimal(n as u64)
    }
}

/// A text is trimmed of exactly the white space around it: what is left begins and ends with
/// something else, and is all that stood between.
pub proof fn law_only_the_space_around_is_trimmed(
    before: Seq<char>,
    middle: Seq<char>,
    after: Seq<char>,
)
    requires
        forall|i: int| 0 <= i < before.len() ==> is_ws(#[trigger] before[i]),
        forall|i: int| 0 <= i < after.len() ==> is_ws(#[trigger] after[i]),
        middle.len() > 0 ==> !is_ws(middle[0]) && !is_ws(middle.last()),
    ensures
        trimmed(before + middle + after) == middle,
        blank(before + middle + after) <==> middle.len() == 0,
{
    let s = before + middle + after;
    assert forall|k: int| 0 <= k < before.len() implies is_ws(#[trigger] s[k]) by {
        assert(s[k] == before[k]);
    }
    lemma_skip_ws(s, before.len() as int);
    let rest = s.skip(before.len() as int);
    assert(rest =~= middle + after);
    if middle.len() > 0 {
        assert(rest[0] == middle[0]);
        assert(skip_ws(rest) == rest);
        assert forall|k: int| middle.len() <= k < rest.len() implies is_ws(#[trigger] rest[k]) by {
            assert(rest[k] == after[k - middle.len()]);
        }
        lemma_drop_ws(rest, middle.len() as int);
        assert(rest.take(middle.len() as int) =~= middle);
        assert(drop_ws(middle) == middle);
    } else {
        assert(rest =~= after);
        lemma_skip_ws(after, after.len() as int);
        assert(after.skip(after.len() as int) =~= Seq::<char>::empty());
        assert(skip_ws(Seq::<char>::empty()) == Seq::<char>::empty());
        assert(middle =~= Seq::<char>::empty());
    }
}

/// Blanks, tabs and line ends are white space; no visible ASCII character is.
pub proof fn law_visible_characters_are_no_space(c: char)
    ensures
        c == ' ' || c == '\t' || c == '\n' || c == '\r' ==> is_ws(c),
        0x21 <= c as u32 <= 0x7E ==> !is_ws(c),
{
}

/// Where a piece stands for the first time, it gives way to the replacement; what comes before stays
/// as it is, and what comes behind is treated in the same way. A text without the piece stays as it
/// is.
pub proof fn law_each_occurrence_is_replaced(
    before: Seq<char>,
    after: Seq<char>,
    p: Seq<char>,
    t: Seq<char>,
)
    requires
        p.len() > 0,
    ensures
        (forall|k: int|
            0 <= k < before.len() ==> !#[trigger] occurs_at(before + p + after, p, k)) ==> replaced(
            before + p + after,
            p,
            t,
        ) == before + t + replaced(after, p, t),
        (forall|k: int| !#[trigger] occurs_at(after, p, k)) ==> replaced(after, p, t) == after,
{
    let s = before + p + after;
    let n = before.len() as int;
    if forall|k: int| 0 <= k < before.len() ==> !#[trigger] occurs_at(s, p, k) {
        lemma_replaced_before(s, p, t, 0, n);
        assert(s.subrange(n, n + p.len()) =~= p);
        assert(occurs_at(s, p, n));
        lemma_replaced_shift(s, p, t, n + p.len());
        assert(s.skip(n + p.len()) =~= after);
        assert(s.subrange(0, n) =~= before);
        assert(before + (t + replaced(after, p, t)) =~= before + t + replaced(after, p, t));
    }
    if forall|k: int| !#[trigger] occurs_at(after, p, k) {
        lemma_replaced_before(after, p, t, 0, after.len() as int);
        assert(after.subrange(0, after.len() as int) =~= after);
        assert(after + Seq::<char>::empty() =~= after);
    }
}

proof fn lemma_replaced_before(s: Seq<char>, p: Seq<char>, t: Seq<char>, i: int, n: int)
    requires
        0 <= i <= n <= s.len(),
        forall|k: int| i <= k < n ==> !#[trigger] occurs_at(s, p, k),
    ensures
        replaced_from(s, p, t, i) == s.subrange(i, n) + replaced_from(s, p, t, n),
    decreases n - i,
{
    if i < n {
        lemma_replaced_before(s, p, t, i + 1, n);
        assert(!occurs_at(s, p, i));
        assert(seq![s[i]] + (s.subrange(i + 1, n) + replaced_from(s, p, t, n)) =~= s.subrange(i, n)
            + replaced_from(s, p, t, n));
    } else {
        assert(s.subrange(i, n) + replaced_from(s, p, t, n) =~= replaced_from(s, p, t, n));
    }
}

proof fn lemma_replaced_shift(s: Seq<char>, p: Seq<char>, t: Seq<char>, i: int)
    requires
        0 <= i <= s.len(),
    ensures
        replaced_from(s, p, t, i) == replaced(s.skip(i), p, t),
{
    lemma_replaced_shift_at(s, p, t, i, 0);
}

proof fn lemma_replaced_shift_at(s: Seq<char>, p: Seq<char>, t: Seq<char>, i: int, j: int)
    requires
        0 <= i <= s.len(),
        0 <= j,
    ensures
        replaced_from(s, p, t, i + j) == replaced_from(s.skip(i), p, t, j),
    decreases s.len() - i - j,
{
    let r = s.skip(i);
    if i + j < s.len() {
        if j + p.len() <= r.len() {
            assert(r.subrange(j, j + p.len()) =~= s.subrange(i + j, i + j + p.len()));
        }
        assert(occurs_at(s, p, i + j) == occurs_at(r, p, j));
        if p.len() > 0 && occurs_at(s, p, i + j) {
            lemma_replaced_shift_at(s, p, t, i, j + p.len());
        } else {
            lemma_replaced_shift_at(s, p, t, i, j + 1);
        }
    }
}

/// Any number of a character at the end of a text is dropped, and nothing else.
pub proof fn law_trailing_characters_are_dropped(s: Seq<char>, c: char, tail: Seq<char>)
    requires
        s.len() == 0 || s.last() != c,
        forall|i: int| 0 <= i < tail.len() ==> #[trigger] tail[i] == c,
    ensures
        drop_char(s + tail, c) == s,
{
    let all = s + tail;
    assert forall|k: int| s.len() <= k < all.len() implies #[trigger] all[k] == c by {
        assert(all[k] == tail[k - s.len()]);
    }
    lemma_drop_char(all, c, s.len() as int);
    assert(all.take(s.len() as int) =~= s);
}

/// The number that a run of decimal digits stands for.
pub open spec fn dec_value(s: Seq<char>) -> int
    decreases s.len(),
{
    if s.len() == 0 {
        0
    } else {
        10 * dec_value(s.drop_last()) + (s.last() as int - '0' as int)
    }
}

/// A number is written in digits that stand for it, without a zero in front: reading it back gives
/// the number.
pub proof fn law_decimal_digits_stand_for_the_number(n: nat)
    ensures
        dec_value(dec(n)) == n,
        dec(n).len() > 0,
        forall|i: int| 0 <= i < dec(n).len() ==> '0' <= #[trigger] dec(n)[i] <= '9',
        n > 0 ==> dec(n)[0] != '0',
    decreases n,
{
    if n < 10 {
        assert(dec(n).drop_last() =~= Seq::<char>::empty());
        assert(dec_value(Seq::<char>::empty()) == 0);
    } else {
        law_decimal_digits_stand_for_the_number(n / 10);
        assert(dec(n).drop_last() =~= dec(n / 10));
        assert(dec(n)[0] == dec(n / 10)[0]);
        assert forall|i: int| 0 <= i < dec(n).len() implies '0' <= #[trigger] dec(n)[i] <= '9' by {
            if i < dec(n / 10).len() {
                assert(dec(n)[i] == dec(n / 10)[i]);
            }
        }
    }
}

/// A negative number is its magnitude behind a minus sign.
pub proof fn law_sign_comes_first(n: int)
    ensures
        n >= 0 ==> dec_value(dec_signed(n)) == n && dec_signed(n)[0] != '-',
        n < 0 ==> dec_signed(n)[0] == '-' && dec_value(dec_signed(n).skip(1)) == -n,
{
    reveal_strlit("-");
    if n < 0 {
        law_decimal_digits_stand_for_the_number((-n) as nat);
        assert(dec_signed(n).skip(1) =~= dec((-n) as nat));
    } else {
        law_decimal_digits_stand_for_the_number(n as nat);
        assert('0' <= dec(n as nat)[0]);
    }
}

/// The value of a hexadecimal digit.
pub open spec fn hex_digit_value(c: char) -> int {
    if '0' <= c <= '9' {
        c as int - '0' as int
    } else if 'a' <= c <= 'f' {
        c as int - 'a' as int + 10
    } else {
        -1
    }
}

/// The number that a run of hexadecimal digits stands for.
pub open spec fn hex_value(s: Seq<char>) -> int
    decreases s.len(),
{
    if s.len() == 0 {
        0
    } else {
        16 * hex_value(s.drop_last()) + hex_digit_value(s.last())
    }
}

/// A number that fits is written in as many lower-case hexadecimal digits as asked for, and they
/// stand for it.
pub proof fn law_hex_digits_stand_for_the_number(n: nat, width: nat)
    requires
        fits_hex(n, width),
    ensures
        hex(n, width).len() == width,
        hex_value(hex(n, width)) == n,
    decreases width,
{
    if width > 0 {
        law_hex_digits_stand_for_the_number(n / 16, (width - 1) as nat);
        assert(hex(n, width).drop_last() =~= hex(n / 16, (width - 1) as nat));
        assert(hex_digit_value(hex_digit((n % 16) as int)) == n % 16);
    }
}

/// An ending is dropped as often as it is there.
pub proof fn law_endings_are_dropped(s: Seq<char>, p: Seq<char>)
    requires
        p.len() > 0,
    ensures
        drop_suffixes(s + p, p) == drop_suffixes(s, p),
        !(s.len() >= p.len() && s.skip(s.len() - p.len()) == p) ==> drop_suffixes(s, p) == s,
{
    let all = s + p;
    assert(all.subrange(all.len() - p.len(), all.len() as int) =~= p);
    assert(all.take(all.len() - p.len()) =~= s);
    if s.len() >= p.len() {
        assert(s.subrange(s.len() - p.len(), s.len() as int) =~= s.skip(s.len() - p.len()));
    }
}

/// A text that is another one with something behind it begins with that one, and one with something
/// before it ends with it; nothing else does.
pub proof fn law_beginnings_and_endings(s: Seq<char>, p: Seq<char>, rest: Seq<char>)
    ensures
        has_prefix(p + rest, p),
        has_suffix(rest + p, p),
        has_prefix(s, p) ==> s == p + s.skip(p.len() as int),
        has_suffix(s, p) ==> s == s.take(s.len() - p.len()) + p,
{
    assert((p + rest).subrange(0, p.len() as int) =~= p);
    let e = rest + p;
    assert(e.subrange(e.len() - p.len(), e.len() as int) =~= p);
    if has_prefix(s, p) {
        assert(s =~= s.subrange(0, p.len() as int) + s.skip(p.len() as int));
    }
    if has_suffix(s, p) {
        assert(s =~= s.take(s.len() - p.len()) + s.subrange(s.len() - p.len(), s.len() as int));
    }
}

/// A file's name comes behind the directory's, with exactly one slash between them where the
/// directory has a name without one at its end.
pub proof fn law_paths_are_joined_by_one_slash(dir: Seq<char>, name: Seq<char>)
    ensures
        dir.len() == 0 ==> joined_path(dir, name) == name,
        dir.len() > 0 && dir.last() == '/' ==> joined_path(dir, name) == dir + name,
        dir.len() > 0 && dir.last() != '/' ==> joined_path(dir, name) == dir.push('/') + name,
{
    reveal_strlit("/");
    if dir.len() == 0 {
        assert(dir + name =~= name);
    } else if dir.last() != '/' {
        assert(dir + "/"@ + name =~= dir.push('/') + name);
    }
}

proof fn lemma_word_ends_at(s: Seq<char>, i: int, e: int)
    requires
        0 <= i <= e <= s.len(),
        forall|k: int| i <= k < e ==> s[k] != ' ',
        e == s.len() || s[e] == ' ',
    ensures
        word_end(s, i) == e,
    decreases e - i,
{
    if i < e {
        lemma_word_ends_at(s, i + 1, e);
    }
}

/// A text is split at every space: what stands from one space to the next is a word, and what stands
/// behind the last space is the last word.
pub proof fn law_text_is_split_at_spaces(before: Seq<char>, w: Seq<char>, rest: Seq<char>)
    requires
        !w.contains(' '),
    ensures
        words(w) == seq![w],
        words_from(before + w + seq![' '] + rest, before.len() as int) == seq![w] + words_from(
            before + w + seq![' '] + rest,
            (before.len() + w.len() + 1) as int,
        ),
        words_from(before + w, before.len() as int) == seq![w],
{
    let s = before + w + seq![' '] + rest;
    let i = before.len() as int;
    let e = i + w.len();
    assert forall|k: int| i <= k < e implies s[k] != ' ' by {
        assert(s[k] == w[k - i]);
        assert(w.contains(w[k - i]));
    }
    assert(s[e] == ' ');
    lemma_word_ends_at(s, i, e);
    assert(s.subrange(i, e) =~= w);
    let t = before + w;
    assert forall|k: int| i <= k < e implies t[k] != ' ' by {
        assert(t[k] == w[k - i]);
        assert(w.contains(w[k - i]));
    }
    lemma_word_ends_at(t, i, e);
    assert(t.subrange(i, e) =~= w);
    assert forall|k: int| 0 <= k < w.len() implies w[k] != ' ' by {
        assert(w.contains(w[k]));
    }
    lemma_word_ends_at(w, 0, w.len() as int);
    assert(w.subrange(0, w.len() as int) =~= w);
}

/// Hexadecimal digits without leading zeros stand for the number: every further digit is worth a
/// sixteenth of the one before it.
pub proof fn law_short_hex_digits_stand_for_the_number(n: nat)
    ensures
        hex_value(hex_short(n)) == n,
        n >= 16 ==> hex_short(n)[0] != '0',
        hex_short(n).len() > 0,
    decreases n,
{
    if n >= 16 {
        law_short_hex_digits_stand_for_the_number(n / 16);
        assert(hex_short(n).drop_last() =~= hex_short(n / 16));
        if n / 16 < 16 {
            assert(hex_short(n / 16)[0] == hex_digit((n / 16) as int));
        }
    } else {
        assert(hex_short(n).drop_last() =~= Seq::<char>::empty());
        assert(hex_value(Seq::<char>::empty()) == 0);
        assert(hex_short(n).last() == hex_digit(n as int));
    }
}

/// Space is what Unicode counts as white space: the five control characters from the tab on, the
/// blank, the next-line and no-break characters, and the spaces and separators of other scripts.
pub proof fn law_space_is_unicode_white_space(c: char)
    ensures
        is_ws(c) <==> [0x20u32, 0x85, 0xA0, 0x1680, 0x2028, 0x2029, 0x202F, 0x205F, 0x3000]@.contains(
            c as u32,
        ) || 0x9 <= c as u32 <= 0xD || 0x2000 <= c as u32 <= 0x200A,
{
    let a = [0x20u32, 0x85, 0xA0, 0x1680, 0x2028, 0x2029, 0x202F, 0x205F, 0x3000]@;
    assert(a[0] == 0x20 && a[1] == 0x85 && a[2] == 0xA0 && a[3] == 0x1680 && a[4] == 0x2028 && a[5]
        == 0x2029 && a[6] == 0x202F && a[7] == 0x205F && a[8] == 0x3000);
}

} // verus!
