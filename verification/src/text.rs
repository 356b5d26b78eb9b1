use vstd::prelude::*;
use vstd::string::*;

verus! {

// ---------------------------------------------------------------------------
// Characters and sequences of characters
// ---------------------------------------------------------------------------

/// `c` is one of the ASCII digits `0` to `9`.
pub open spec fn is_digit(c: char) -> bool {
    '0' <= c && c <= '9'
}

/// The character of the decimal digit `d` (`d < 10`).
pub open spec fn digit_char(d: nat) -> char {
    (d + 48) as char
}

/// The value of the ASCII digit `c`.
pub open spec fn digit_value(c: char) -> nat {
    (c as int - 48) as nat
}

/// The decimal notation of `n`, without sign or leading zeros.
pub open spec fn decimal(n: nat) -> Seq<char>
    decreases n,
{
    if n < 10 {
        seq![digit_char(n)]
    } else {
        decimal(n / 10).push(digit_char(n % 10))
    }
}

/// `s` followed by zeros on the left up to `width` characters.
pub open spec fn zero_padded(s: Seq<char>, width: nat) -> Seq<char> {
    if s.len() >= width {
        s
    } else {
        Seq::new((width - s.len()) as nat, |i: int| '0') + s
    }
}

/// Every character of `s` is an ASCII digit, and there is at least one.
pub open spec fn all_digits(s: Seq<char>) -> bool {
    s.len() > 0 && forall|i: int| 0 <= i < s.len() ==> is_digit(#[trigger] s[i])
}

/// The number that the digits `s` denote.
pub open spec fn digits_value(s: Seq<char>) -> nat
    decreases s.len(),
{
    if s.len() == 0 {
        0
    } else {
        digits_value(s.drop_last()) * 10 + digit_value(s.last())
    }
}

/// The unsigned integer that `s` spells, as `str::parse` reads it for an unsigned type whose
/// greatest value is `max`: an optional `+`, then one or more ASCII digits, and a value that fits.
pub open spec fn parse_unsigned(s: Seq<char>, max: nat) -> Option<nat> {
    let digits = if s.len() > 0 && s[0] == '+' { s.drop_first() } else { s };
    if all_digits(digits) && digits_value(digits) <= max {
        Some(digits_value(digits))
    } else {
        None
    }
}

/// `pat` stands in `s` at index `i`.
pub open spec fn occurs_at(s: Seq<char>, pat: Seq<char>, i: int) -> bool {
    0 <= i && i + pat.len() <= s.len() && s.subrange(i, i + pat.len()) == pat
}

/// The greatest index `i <= from` at which `pat` stands in `s`.
pub open spec fn last_occurrence_from(s: Seq<char>, pat: Seq<char>, from: int) -> Option<int>
    decreases from + 1,
{
    if from < 0 {
        None
    } else if occurs_at(s, pat, from) {
        Some(from)
    } else {
        last_occurrence_from(s, pat, from - 1)
    }
}

/// The index of the last occurrence of `pat` in `s` (`str::rfind`).
pub open spec fn last_occurrence(s: Seq<char>, pat: Seq<char>) -> Option<int> {
    last_occurrence_from(s, pat, s.len() - pat.len())
}

/// The index of the first `c` in `s` at or after `from`.
pub open spec fn first_index_from(s: Seq<char>, c: char, from: int) -> Option<int>
    decreases s.len() - from,
{
    if from < 0 || from >= s.len() {
        None
    } else if s[from] == c {
        Some(from)
    } else {
        first_index_from(s, c, from + 1)
    }
}

/// The index of the first `c` in `s` (`str::find` with a character).
pub open spec fn first_index(s: Seq<char>, c: char) -> Option<int> {
    first_index_from(s, c, 0)
}

/// `s` without `prefix`, where `s` starts with it (`str::strip_prefix`).
pub open spec fn strip_prefix(s: Seq<char>, prefix: Seq<char>) -> Option<Seq<char>> {
    if prefix.len() <= s.len() && s.take(prefix.len() as int) == prefix {
        Some(s.skip(prefix.len() as int))
    } else {
        None
    }
}

/// The parts of `s` before and after its first `c` (`str::split_once` with a character).
pub open spec fn split_once(s: Seq<char>, c: char) -> Option<(Seq<char>, Seq<char>)> {
    match first_index(s, c) {
        Some(i) => Some((s.take(i), s.skip(i + 1))),
        None => None,
    }
}

/// The part of `s` before its first `c`, or all of `s` (`s.split(c).next()`).
pub open spec fn before_first(s: Seq<char>, c: char) -> Seq<char> {
    match first_index(s, c) {
        Some(i) => s.take(i),
        None => s,
    }
}

/// `s` with every `c` removed (`str::replace(c, "")`).
pub open spec fn without_char(s: Seq<char>, c: char) -> Seq<char>
    decreases s.len(),
{
    if s.len() == 0 {
        s
    } else if s.last() == c {
        without_char(s.drop_last(), c)
    } else {
        without_char(s.drop_last(), c).push(s.last())
    }
}

/// The ASCII lowercase of `c`; other characters are unchanged (`char::to_ascii_lowercase`).
pub open spec fn ascii_lower(c: char) -> char {
    if 'A' <= c && c <= 'Z' {
        (c as int + 32) as char
    } else {
        c
    }
}

/// `a` and `b` are equal up to ASCII case (`str::eq_ignore_ascii_case`).
pub open spec fn eq_ignore_ascii_case_spec(a: Seq<char>, b: Seq<char>) -> bool {
    a.len() == b.len() && forall|i: int| 0 <= i < a.len() ==> ascii_lower(#[trigger] a[i]) == ascii_lower(b[i])
}

/// The strings of `parts` with `sep` between each two (`[String]::join`).
pub open spec fn joined(parts: Seq<Seq<char>>, sep: Seq<char>) -> Seq<char>
    decreases parts.len(),
{
    if parts.len() == 0 {
        Seq::empty()
    } else if parts.len() == 1 {
        parts[0]
    } else {
        joined(parts.drop_last(), sep) + sep + parts.last()
    }
}

/// The views of a vector of strings.
pub open spec fn views(v: Seq<String>) -> Seq<Seq<char>> {
    v.map_values(|s: String| s@)
}

// ---------------------------------------------------------------------------
// Names for what std's case conversions return
// ---------------------------------------------------------------------------

/// What `str::to_uppercase` returns for a string (Unicode case mapping).
pub uninterp spec fn upper_case(s: Seq<char>) -> Seq<char>;

/// What `str::to_lowercase` returns for a string (Unicode case mapping).
pub uninterp spec fn lower_case(s: Seq<char>) -> Seq<char>;

/// Calls `str::to_uppercase`; its result is named `upper_case`.
#[verifier::external_body]
pub(crate) fn to_upper(s: &str) -> (r: String)
    ensures
        r@ == upper_case(s@),
{
    s.to_uppercase()
}

/// Calls `str::to_lowercase`; its result is named `lower_case`.
#[verifier::external_body]
pub(crate) fn to_lower(s: &str) -> (r: String)
    ensures
        r@ == lower_case(s@),
{
    s.to_lowercase()
}

/// Calls `String::push`, which appends `c` to `s`.
#[verifier::external_body]
pub(crate) fn push_char(s: &mut String, c: char)
    ensures
        final(s)@ == old(s)@.push(c),
{
    s.push(c);
}

// ---------------------------------------------------------------------------
// Executable string functions
// ---------------------------------------------------------------------------

/// The characters of `s`, in order.
pub fn chars_of(s: &str) -> (r: Vec<char>)
    ensures
        r@ == s@,
{
    let mut r: Vec<char> = Vec::new();
    for c in it: s.chars()
        invariant
            r@ == it.seq().take(it.index() as int),
            it.seq() == s@,
    {
        r.push(c);
    }
    r
}

/// The string made of `chars[lo..hi]`.
pub fn string_of(chars: &Vec<char>, lo: usize, hi: usize) -> (r: String)
    requires
        lo <= hi <= chars.len(),
    ensures
        r@ == chars@.subrange(lo as int, hi as int),
{
    let mut r = String::new();
    let mut i = lo;
    while i < hi
        invariant
            lo <= i <= hi <= chars.len(),
            r@ == chars@.subrange(lo as int, i as int),
        decreases hi - i,
    {
        push_char(&mut r, chars[i]);
        i = i + 1;
        assert(r@ == chars@.subrange(lo as int, i as int));
    }
    r
}

/// A copy of `s`.
pub fn owned(s: &str) -> (r: String)
    ensures
        r@ == s@,
{
    s.to_owned()
}

/// `a` and `b` hold the same characters.
pub fn same_text(a: &str, b: &str) -> (r: bool)
    ensures
        r == (a@ == b@),
{
    let x = a.to_owned();
    let y = b.to_owned();
    x == y
}

/// Two strings joined.
pub fn concat2(a: &str, b: &str) -> (r: String)
    ensures
        r@ == a@ + b@,
{
    let mut r = a.to_owned();
    r.append(b);
    r
}

/// Three strings joined.
pub fn concat3(a: &str, b: &str, c: &str) -> (r: String)
    ensures
        r@ == a@ + b@ + c@,
{
    let mut r = a.to_owned();
    r.append(b);
    r.append(c);
    r
}

/// The character of the decimal digit `d`.
pub fn digit(d: u64) -> (c: char)
    requires
        d < 10,
    ensures
        c == digit_char(d as nat),
{
    let b: u8 = (d as u8) + 48u8;
    let c = b as char;
    assert(c == digit_char(d as nat)) by {
        assert(c as int == d + 48);
    }
    c
}

/// Appends the decimal notation of `n` to `s`.
pub fn push_decimal(s: &mut String, n: u64)
    ensures
        final(s)@ == old(s)@ + decimal(n as nat),
    decreases n,
{
    if n >= 10 {
        push_decimal(s, n / 10);
    }
    push_char(s, digit(n % 10));
    assert(final(s)@ == old(s)@ + decimal(n as nat)) by {
        if n >= 10 {
            assert(decimal(n as nat) == decimal((n / 10) as nat).push(digit_char((n % 10) as nat)));
        }
    }
}

/// The decimal notation of `n` (`n.to_string()`, `format!("{}", n)`).
pub fn decimal_string(n: u64) -> (r: String)
    ensures
        r@ == decimal(n as nat),
{
    let mut r = String::new();
    push_decimal(&mut r, n);
    r
}

/// The decimal notation of `n`, zero-padded on the left to `width` characters
/// (`format!("{:03}", n)` where `width` is 3).
pub fn zero_padded_decimal(n: u64, width: usize) -> (r: String)
    ensures
        r@ == zero_padded(decimal(n as nat), width as nat),
{
    let digits = decimal_string(n);
    let len = digits.as_str().unicode_len();
    let mut r = String::new();
    if len < width {
        let mut k: usize = 0;
        while k < width - len
            invariant
                len < width,
                k <= width - len,
                r@ == Seq::new(k as nat, |i: int| '0'),
            decreases width - len - k,
        {
            push_char(&mut r, '0');
            k = k + 1;
            assert(r@ =~= Seq::new(k as nat, |i: int| '0'));
        }
    }
    r.append(digits.as_str());
    r
}


/// The number that `chars[lo..hi]` spells as an unsigned integer no greater than `max`
/// (`str::parse` for an unsigned type).
pub fn parse_unsigned_in(chars: &Vec<char>, lo: usize, hi: usize, max: u64) -> (r: Option<u64>)
    requires
        lo <= hi <= chars.len(),
    ensures
        r matches Some(v) ==> parse_unsigned(chars@.subrange(lo as int, hi as int), max as nat) == Some(v as nat),
        r is None ==> parse_unsigned(chars@.subrange(lo as int, hi as int), max as nat) is None,
{
    let ghost s = chars@.subrange(lo as int, hi as int);
    let mut start = lo;
    if lo < hi && chars[lo] == '+' {
        start = lo + 1;
    }
    let ghost digits = chars@.subrange(start as int, hi as int);
    assert(digits == if s.len() > 0 && s[0] == '+' { s.drop_first() } else { s });
    if start == hi {
        return None;
    }
    let cap: u128 = (max as u128) + 1;
    let mut acc: u128 = 0;
    let mut i = start;
    while i < hi
        invariant
            lo <= start <= i <= hi <= chars.len(),
            cap == max + 1,
            digits == chars@.subrange(start as int, hi as int),
            s == chars@.subrange(lo as int, hi as int),
            digits == (if s.len() > 0 && s[0] == '+' { s.drop_first() } else { s }),
            forall|j: int| start <= j < i ==> is_digit(#[trigger] chars@[j]),
            acc == if digits_value(chars@.subrange(start as int, i as int)) < cap {
                digits_value(chars@.subrange(start as int, i as int))
            } else {
                cap as nat
            },
        decreases hi - i,
    {
        let c = chars[i];
        if !('0' <= c && c <= '9') {
            assert(digits[i - start] == chars@[i as int]);
            assert(!is_digit(digits[i - start]));
            return None;
        }
        let d: u128 = (c as u32 - 48u32) as u128;
        let ghost prev = chars@.subrange(start as int, i as int);
        let ghost next = chars@.subrange(start as int, i + 1);
        assert(next.drop_last() == prev);
        assert(digits_value(next) == digits_value(prev) * 10 + d);
        let v = acc * 10 + d;
        acc = if v < cap { v } else { cap };
        i = i + 1;
    }
    assert(chars@.subrange(start as int, hi as int) == digits);
    if acc < cap {
        Some(acc as u64)
    } else {
        None
    }
}

/// `pat` stands in `chars` at index `at`.
pub fn matches_at(chars: &Vec<char>, at: usize, pat: &Vec<char>) -> (r: bool)
    ensures
        r == occurs_at(chars@, pat@, at as int),
{
    if at > chars.len() || pat.len() > chars.len() - at {
        return false;
    }
    let mut k: usize = 0;
    while k < pat.len()
        invariant
            at + pat.len() <= chars.len(),
            k <= pat.len(),
            forall|j: int| 0 <= j < k ==> chars@[at + j] == pat@[j],
        decreases pat.len() - k,
    {
        if chars[at + k] != pat[k] {
            assert(chars@.subrange(at as int, at + pat.len())[k as int] != pat@[k as int]);
            return false;
        }
        k = k + 1;
    }
    assert(chars@.subrange(at as int, at + pat.len()) =~= pat@);
    true
}

/// The index of the last occurrence of `pat` in `chars` (`str::rfind`).
pub fn last_index_of(chars: &Vec<char>, pat: &Vec<char>) -> (r: Option<usize>)
    ensures
        r matches Some(i) ==> last_occurrence(chars@, pat@) == Some(i as int),
        r is None ==> last_occurrence(chars@, pat@) is None,
        r matches Some(i) ==> occurs_at(chars@, pat@, i as int),
{
    if pat.len() > chars.len() {
        assert(last_occurrence_from(chars@, pat@, chars@.len() - pat@.len()) is None);
        return None;
    }
    let mut k: usize = chars.len() - pat.len();
    loop
        invariant
            k + pat.len() <= chars.len(),
            last_occurrence(chars@, pat@) == last_occurrence_from(chars@, pat@, k as int),
        decreases k,
    {
        if matches_at(chars, k, pat) {
            return Some(k);
        }
        if k == 0 {
            assert(last_occurrence_from(chars@, pat@, -1) is None);
            return None;
        }
        k = k - 1;
    }
}

/// The index of the first `c` in `chars[lo..hi]`, counted from `lo` (`str::find`).
pub fn first_index_in(chars: &Vec<char>, lo: usize, hi: usize, c: char) -> (r: Option<usize>)
    requires
        lo <= hi <= chars.len(),
    ensures
        r matches Some(i) ==> first_index(chars@.subrange(lo as int, hi as int), c) == Some(i as int),
        r is None ==> first_index(chars@.subrange(lo as int, hi as int), c) is None,
        r matches Some(i) ==> i < hi - lo && chars@[lo + i] == c,
{
    let ghost s = chars@.subrange(lo as int, hi as int);
    let mut k: usize = 0;
    while k < hi - lo
        invariant
            lo <= hi <= chars.len(),
            k <= hi - lo,
            s == chars@.subrange(lo as int, hi as int),
            first_index(s, c) == first_index_from(s, c, k as int),
        decreases hi - lo - k,
    {
        if chars[lo + k] == c {
            assert(s[k as int] == c);
            return Some(k);
        }
        k = k + 1;
    }
    None
}

/// `s` without `prefix`, where `s` starts with it (`str::strip_prefix`).
pub fn strip_prefix_of(s: &str, prefix: &str) -> (r: Option<String>)
    ensures
        r matches Some(t) ==> strip_prefix(s@, prefix@) == Some(t@),
        r is None ==> strip_prefix(s@, prefix@) is None,
{
    let chars = chars_of(s);
    let pat = chars_of(prefix);
    if matches_at(&chars, 0, &pat) {
        assert(chars@.take(pat@.len() as int) == chars@.subrange(0, pat@.len() as int));
        Some(string_of(&chars, pat.len(), chars.len()))
    } else {
        assert(!(pat@.len() <= chars@.len() && chars@.take(pat@.len() as int) == pat@)) by {
            if pat@.len() <= chars@.len() && chars@.take(pat@.len() as int) == pat@ {
                assert(chars@.subrange(0, pat@.len() as int) == chars@.take(pat@.len() as int));
            }
        }
        None
    }
}

/// The parts of `s` before and after its first `c` (`str::split_once`).
pub fn split_once_at(s: &str, c: char) -> (r: Option<(String, String)>)
    ensures
        r matches Some(p) ==> split_once(s@, c) == Some((p.0@, p.1@)),
        r is None ==> split_once(s@, c) is None,
{
    let chars = chars_of(s);
    assert(chars@.subrange(0, chars@.len() as int) == chars@);
    match first_index_in(&chars, 0, chars.len(), c) {
        Some(i) => {
            let a = string_of(&chars, 0, i);
            let b = string_of(&chars, i + 1, chars.len());
            Some((a, b))
        },
        None => None,
    }
}

/// The part of `s` before its first `c`, or all of `s` (`s.split(c).next()`).
pub fn before_first_of(s: &str, c: char) -> (r: String)
    ensures
        r@ == before_first(s@, c),
{
    let chars = chars_of(s);
    assert(chars@.subrange(0, chars@.len() as int) == chars@);
    match first_index_in(&chars, 0, chars.len(), c) {
        Some(i) => string_of(&chars, 0, i),
        None => string_of(&chars, 0, chars.len()),
    }
}

/// `s` with every `c` removed (`str::replace(c, "")`).
pub fn remove_char(s: &str, c: char) -> (r: String)
    ensures
        r@ == without_char(s@, c),
{
    let chars = chars_of(s);
    let mut r = String::new();
    let mut i: usize = 0;
    while i < chars.len()
        invariant
            i <= chars.len(),
            r@ == without_char(chars@.take(i as int), c),
        decreases chars.len() - i,
    {
        assert(chars@.take(i + 1).drop_last() == chars@.take(i as int));
        if chars[i] != c {
            push_char(&mut r, chars[i]);
        }
        i = i + 1;
    }
    assert(chars@.take(chars@.len() as int) == chars@);
    r
}

/// The ASCII lowercase of `c` (`char::to_ascii_lowercase`).
pub fn ascii_lower_char(c: char) -> (r: char)
    ensures
        r == ascii_lower(c),
{
    if 'A' <= c && c <= 'Z' {
        let b: u8 = (c as u8) + 32u8;
        let r = b as char;
        assert(r as int == c as int + 32);
        r
    } else {
        c
    }
}

/// `a` and `b` are equal up to ASCII case (`str::eq_ignore_ascii_case`).
pub fn eq_ignore_ascii_case(a: &str, b: &str) -> (r: bool)
    ensures
        r == eq_ignore_ascii_case_spec(a@, b@),
{
    let x = chars_of(a);
    let y = chars_of(b);
    if x.len() != y.len() {
        return false;
    }
    let mut i: usize = 0;
    while i < x.len()
        invariant
            x@ == a@,
            y@ == b@,
            x.len() == y.len(),
            i <= x.len(),
            forall|j: int| 0 <= j < i ==> ascii_lower(#[trigger] x@[j]) == ascii_lower(y@[j]),
        decreases x.len() - i,
    {
        if ascii_lower_char(x[i]) != ascii_lower_char(y[i]) {
            assert(ascii_lower(a@[i as int]) != ascii_lower(b@[i as int]));
            return false;
        }
        i = i + 1;
    }
    true
}

/// The strings of `parts` with `sep` between each two (`parts.join(sep)`).
pub fn join_strings(parts: &Vec<String>, sep: &str) -> (r: String)
    ensures
        r@ == joined(views(parts@), sep@),
{
    let ghost vs = views(parts@);
    let mut r = String::new();
    let mut i: usize = 0;
    while i < parts.len()
        invariant
            i <= parts.len(),
            vs == views(parts@),
            r@ == joined(vs.take(i as int), sep@),
        decreases parts.len() - i,
    {
        assert(vs.take(i + 1).drop_last() == vs.take(i as int));
        assert(vs.take(i + 1).last() == parts@[i as int]@);
        if i > 0 {
            r.append(sep);
        } else {
            assert(vs.take(1) =~= seq![parts@[0]@]);
        }
        r.append(parts[i].as_str());
        i = i + 1;
    }
    assert(vs.take(parts.len() as int) == vs);
    r
}


// ---------------------------------------------------------------------------
// Laws
// ---------------------------------------------------------------------------

/// The decimal notation of a number is a nonempty run of digits that denotes that number.
pub proof fn lemma_decimal_digits(n: nat)
    ensures
        all_digits(decimal(n)),
        digits_value(decimal(n)) == n,
    decreases n,
{
    if n >= 10 {
        lemma_decimal_digits(n / 10);
        let d = decimal(n);
        assert(d.drop_last() == decimal(n / 10));
        assert(d.last() == digit_char(n % 10));
        assert(digit_value(digit_char(n % 10)) == n % 10);
        assert(n == (n / 10) * 10 + n % 10);
        assert(digits_value(d) == digits_value(decimal(n / 10)) * 10 + digit_value(digit_char(n % 10)));
        assert forall|i: int| 0 <= i < d.len() implies is_digit(#[trigger] d[i]) by {
            if i < d.len() - 1 {
                assert(d[i] == decimal(n / 10)[i]);
            }
        }
    } else {
        let d = decimal(n);
        assert(d.drop_last() =~= Seq::<char>::empty());
        assert(digit_value(digit_char(n)) == n);
        assert(digits_value(d) == digits_value(d.drop_last()) * 10 + digit_value(d.last()));
    }
}

/// Reading the decimal notation of `n` back as an unsigned number gives `n`, when `n` fits.
pub proof fn lemma_parse_decimal(n: nat, max: nat)
    requires
        n <= max,
    ensures
        parse_unsigned(decimal(n), max) == Some(n),
{
    lemma_decimal_digits(n);
    assert(is_digit(decimal(n)[0]));
}

/// If `pat` stands at `k` and nowhere after it up to `from`, the search from `from` finds `k`.
pub proof fn lemma_last_occurrence_at(s: Seq<char>, pat: Seq<char>, from: int, k: int)
    requires
        k <= from,
        occurs_at(s, pat, k),
        forall|j: int| k < j <= from ==> !occurs_at(s, pat, j),
    ensures
        last_occurrence_from(s, pat, from) == Some(k),
    decreases from - k,
{
    if from > k {
        lemma_last_occurrence_at(s, pat, from - 1, k);
    }
}

/// If `c` stands at `i` and nowhere between `from` and `i`, the search from `from` finds `i`.
pub proof fn lemma_first_index_at(s: Seq<char>, c: char, from: int, i: int)
    requires
        0 <= from <= i < s.len(),
        s[i] == c,
        forall|j: int| from <= j < i ==> s[j] != c,
    ensures
        first_index_from(s, c, from) == Some(i),
    decreases i - from,
{
    if from < i {
        lemma_first_index_at(s, c, from + 1, i);
    }
}

/// The search for `c` from `from` finds its first occurrence at or after `from`, or none when
/// there is none.
pub proof fn lemma_first_index_from_finds_first(s: Seq<char>, c: char, from: int)
    requires
        0 <= from,
    ensures
        match first_index_from(s, c, from) {
            Some(i) => from <= i < s.len() && s[i] == c && forall|j: int| from <= j < i ==> s[j] != c,
            None => forall|j: int| from <= j < s.len() ==> s[j] != c,
        },
    decreases s.len() - from,
{
    if from < s.len() && s[from] != c {
        lemma_first_index_from_finds_first(s, c, from + 1);
    }
}

/// The part of a text before its first `c` is a prefix of it that holds no `c`, and it stops
/// either at the end of the text or right before a `c`.
pub proof fn lemma_before_first_is_the_part_before_c(s: Seq<char>, c: char)
    ensures
        before_first(s, c).len() <= s.len(),
        s.take(before_first(s, c).len() as int) == before_first(s, c),
        forall|j: int| 0 <= j < before_first(s, c).len() ==> before_first(s, c)[j] != c,
        before_first(s, c).len() < s.len() ==> s[before_first(s, c).len() as int] == c,
{
    lemma_first_index_from_finds_first(s, c, 0);
    let r = before_first(s, c);
    assert(s.take(r.len() as int) =~= r);
}

} // verus!
