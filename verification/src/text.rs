//! Searching and trimming of character sequences.
//!
//! Every function here is stated over `Seq<char>`, the view of `str` and
//! `String`; positions count characters, not bytes.

use vstd::prelude::*;

verus! {

/// `needle` stands in `hay` at position `at`.
pub open spec fn occurs_at(hay: Seq<char>, needle: Seq<char>, at: int) -> bool {
    &&& 0 <= at
    &&& at + needle.len() <= hay.len()
    &&& hay.subrange(at, at + needle.len()) == needle
}

/// `needle` stands somewhere in `hay`.
pub open spec fn occurs(hay: Seq<char>, needle: Seq<char>) -> bool {
    exists|at: int| occurs_at(hay, needle, at)
}

/// `at` is the leftmost position at which `needle` stands in `hay`.
pub open spec fn is_first_occurrence(hay: Seq<char>, needle: Seq<char>, at: int) -> bool {
    &&& occurs_at(hay, needle, at)
    &&& forall|earlier: int| 0 <= earlier < at ==> !occurs_at(hay, needle, earlier)
}

/// The leftmost position at which `needle` stands in `hay`, if it stands there at all.
pub open spec fn first_occurrence(hay: Seq<char>, needle: Seq<char>) -> Option<int> {
    if occurs(hay, needle) {
        Some(choose|at: int| is_first_occurrence(hay, needle, at))
    } else {
        None
    }
}

/// A leftmost occurrence is the one that `first_occurrence` names.
proof fn lemma_first_occurrence_is(hay: Seq<char>, needle: Seq<char>, at: int)
    requires
        is_first_occurrence(hay, needle, at),
    ensures
        first_occurrence(hay, needle) == Some(at),
{
}

/// Where `needle` stands nowhere, `first_occurrence` names nothing.
proof fn lemma_first_occurrence_none(hay: Seq<char>, needle: Seq<char>)
    requires
        forall|at: int| 0 <= at && at + needle.len() <= hay.len() ==> !occurs_at(hay, needle, at),
    ensures
        first_occurrence(hay, needle) is None,
{
}

/// `prefix` stands at the start of `s`.
pub open spec fn has_prefix(s: Seq<char>, prefix: Seq<char>) -> bool {
    occurs_at(s, prefix, 0)
}

/// The characters of `s`, in order.
pub fn chars_of(s: &str) -> (out: Vec<char>)
    ensures
        out@ == s@,
{
    let mut out: Vec<char> = Vec::new();
    for c in it: s.chars()
        invariant
            out@ == s@.take(it.index() as int),
            it.seq() == s@,
    {
        out.push(c);
    }
    out
}

/// Whether `needle` stands in `hay` at position `at`.
fn matches_at(hay: &Vec<char>, needle: &Vec<char>, at: usize) -> (found: bool)
    ensures
        found == occurs_at(hay@, needle@, at as int),
{
    if at > hay.len() || needle.len() > hay.len() - at {
        return false;
    }
    let mut k: usize = 0;
    while k < needle.len()
        invariant
            k <= needle.len(),
            at + needle.len() <= hay.len(),
            forall|j: int| 0 <= j < k ==> hay@[at + j] == needle@[j],
        decreases needle.len() - k,
    {
        if hay[at + k] != needle[k] {
            return false;
        }
        k += 1;
    }
    assert(hay@.subrange(at as int, at + needle.len()) =~= needle@);
    true
}

/// The leftmost position at which `needle` stands in `hay`.
fn find_chars(hay: &Vec<char>, needle: &Vec<char>) -> (found: Option<usize>)
    ensures
        match found {
            Some(at) => first_occurrence(hay@, needle@) == Some(at as int) && is_first_occurrence(
                hay@,
                needle@,
                at as int,
            ),
            None => first_occurrence(hay@, needle@) is None,
        },
{
    if needle.len() > hay.len() {
        proof {
            lemma_first_occurrence_none(hay@, needle@);
        }
        return None;
    }
    let last: usize = hay.len() - needle.len();
    let mut at: usize = 0;
    loop
        invariant
            at <= last,
            last == hay.len() - needle.len(),
            forall|earlier: int| 0 <= earlier < at ==> !occurs_at(hay@, needle@, earlier),
        decreases last - at,
    {
        if matches_at(hay, needle, at) {
            proof {
                lemma_first_occurrence_is(hay@, needle@, at as int);
            }
            return Some(at);
        }
        if at == last {
            proof {
                lemma_first_occurrence_none(hay@, needle@);
            }
            return None;
        }
        at += 1;
    }
}

/// The leftmost position at which `needle` stands in `hay`, counted in characters.
pub fn find(hay: &str, needle: &str) -> (found: Option<usize>)
    ensures
        match found {
            Some(at) => first_occurrence(hay@, needle@) == Some(at as int) && is_first_occurrence(
                hay@,
                needle@,
                at as int,
            ),
            None => first_occurrence(hay@, needle@) is None,
        },
{
    let hay_chars = chars_of(hay);
    let needle_chars = chars_of(needle);
    find_chars(&hay_chars, &needle_chars)
}

/// Whether `needle` stands somewhere in `hay`.
pub fn contains(hay: &str, needle: &str) -> (found: bool)
    ensures
        found == occurs(hay@, needle@),
{
    find(hay, needle).is_some()
}

/// Whether `s` begins with `prefix`.
pub fn starts_with(s: &str, prefix: &str) -> (found: bool)
    ensures
        found == has_prefix(s@, prefix@),
{
    let s_chars = chars_of(s);
    let prefix_chars = chars_of(prefix);
    matches_at(&s_chars, &prefix_chars, 0)
}

/// The characters that carry the Unicode property `White_Space`.
pub open spec fn is_whitespace(c: char) -> bool {
    let code = c as u32;
    ||| 0x09 <= code <= 0x0D
    ||| code == 0x20
    ||| code == 0x85
    ||| code == 0xA0
    ||| code == 0x1680
    ||| 0x2000 <= code <= 0x200A
    ||| code == 0x2028
    ||| code == 0x2029
    ||| code == 0x202F
    ||| code == 0x205F
    ||| code == 0x3000
}

/// Whether `c` carries the Unicode property `White_Space`.
pub fn whitespace(c: char) -> (yes: bool)
    ensures
        yes == is_whitespace(c),
{
    let code: u32 = c as u32;
    (0x09 <= code && code <= 0x0D) || code == 0x20 || code == 0x85 || code == 0xA0 || code
        == 0x1680 || (0x2000 <= code && code <= 0x200A) || code == 0x2028 || code == 0x2029
        || code == 0x202F || code == 0x205F || code == 0x3000
}

/// `s` without the whitespace it begins with.
pub open spec fn trim_start(s: Seq<char>) -> Seq<char>
    decreases s.len(),
{
    if s.len() > 0 && is_whitespace(s[0]) {
        trim_start(s.skip(1))
    } else {
        s
    }
}

/// `s` without the whitespace it ends with.
pub open spec fn trim_end(s: Seq<char>) -> Seq<char>
    decreases s.len(),
{
    if s.len() > 0 && is_whitespace(s.last()) {
        trim_end(s.drop_last())
    } else {
        s
    }
}

/// `s` without the whitespace around it.
pub open spec fn trimmed(s: Seq<char>) -> Seq<char> {
    trim_end(trim_start(s))
}

/// The bounds of `trimmed(s)` within `s`.
fn trim_bounds(s: &Vec<char>) -> (bounds: (usize, usize))
    ensures
        bounds.0 <= bounds.1 <= s.len(),
        trimmed(s@) == s@.subrange(bounds.0 as int, bounds.1 as int),
{
    let mut start: usize = 0;
    assert(s@.skip(0) =~= s@);
    while start < s.len() && whitespace(s[start])
        invariant
            start <= s.len(),
            trim_start(s@) == trim_start(s@.skip(start as int)),
        decreases s.len() - start,
    {
        assert(s@.skip(start as int).skip(1) =~= s@.skip(start + 1));
        start += 1;
    }
    let mut end: usize = s.len();
    while end > start && whitespace(s[end - 1])
        invariant
            start <= end <= s.len(),
            trimmed(s@) == trim_end(s@.subrange(start as int, end as int)),
        decreases end - start,
    {
        assert(s@.subrange(start as int, end as int).drop_last() =~= s@.subrange(
            start as int,
            end - 1,
        ));
        end -= 1;
    }
    (start, end)
}

/// `text` without the whitespace around it.
pub fn trim(text: &str) -> (out: String)
    ensures
        out@ == trimmed(text@),
{
    let chars = chars_of(text);
    let (start, end) = trim_bounds(&chars);
    text.substring_char(start, end).to_owned()
}

/// `s` without the run of `c` that it ends with.
pub open spec fn without_trailing(s: Seq<char>, c: char) -> Seq<char>
    decreases s.len(),
{
    if s.len() > 0 && s.last() == c {
        without_trailing(s.drop_last(), c)
    } else {
        s
    }
}

/// `text` without the run of `c` that it ends with.
pub fn strip_trailing(text: &str, c: char) -> (out: String)
    ensures
        out@ == without_trailing(text@, c),
{
    let chars = chars_of(text);
    let mut end: usize = chars.len();
    assert(chars@ =~= chars@.take(end as int));
    while end > 0 && chars[end - 1] == c
        invariant
            end <= chars.len(),
            without_trailing(chars@, c) == without_trailing(chars@.take(end as int), c),
        decreases end,
    {
        assert(chars@.take(end as int).drop_last() =~= chars@.take(end - 1));
        end -= 1;
    }
    text.substring_char(0, end).to_owned()
}

/// The character that writes the digit `d`.
pub open spec fn digit(d: nat) -> char {
    if d == 0 {
        '0'
    } else if d == 1 {
        '1'
    } else if d == 2 {
        '2'
    } else if d == 3 {
        '3'
    } else if d == 4 {
        '4'
    } else if d == 5 {
        '5'
    } else if d == 6 {
        '6'
    } else if d == 7 {
        '7'
    } else if d == 8 {
        '8'
    } else {
        '9'
    }
}

/// `n` written in base ten, without sign or leading zeros.
pub open spec fn decimal(n: nat) -> Seq<char>
    decreases n,
{
    if n < 10 {
        seq![digit(n)]
    } else {
        decimal(n / 10).push(digit(n % 10))
    }
}

/// The one-character text that writes the digit `d`.
fn digit_text(d: u64) -> (out: &'static str)
    requires
        d < 10,
    ensures
        out@ == seq![digit(d as nat)],
{
    proof {
        reveal_strlit("0");
        reveal_strlit("1");
        reveal_strlit("2");
        reveal_strlit("3");
        reveal_strlit("4");
        reveal_strlit("5");
        reveal_strlit("6");
        reveal_strlit("7");
        reveal_strlit("8");
        reveal_strlit("9");
    }
    let out = if d == 0 {
        "0"
    } else if d == 1 {
        "1"
    } else if d == 2 {
        "2"
    } else if d == 3 {
        "3"
    } else if d == 4 {
        "4"
    } else if d == 5 {
        "5"
    } else if d == 6 {
        "6"
    } else if d == 7 {
        "7"
    } else if d == 8 {
        "8"
    } else {
        "9"
    };
    out
}

/// `n` written in base ten.
pub fn decimal_text(n: u64) -> (out: String)
    ensures
        out@ == decimal(n as nat),
    decreases n,
{
    if n < 10 {
        digit_text(n).to_owned()
    } else {
        let mut out = decimal_text(n / 10);
        out.append(digit_text(n % 10));
        out
    }
}

/// What stands in `text` between the leftmost `marker` and the leftmost
/// `terminator` after it, where both are found.
pub open spec fn field_after(text: Seq<char>, marker: Seq<char>, terminator: Seq<char>) -> Option<
    Seq<char>,
> {
    match first_occurrence(text, marker) {
        None => None,
        Some(start) => {
            let rest = text.skip(start + marker.len());
            match first_occurrence(rest, terminator) {
                None => None,
                Some(end) => Some(rest.take(end)),
            }
        },
    }
}

/// The mathematical content of a text that may be missing.
pub open spec fn optional_text(text: Option<String>) -> Option<Seq<char>> {
    match text {
        Some(text) => Some(text@),
        None => None,
    }
}

/// The characters of `chars` from position `from` on.
fn tail(chars: &Vec<char>, from: usize) -> (out: Vec<char>)
    requires
        from <= chars.len(),
    ensures
        out@ == chars@.skip(from as int),
{
    let mut out: Vec<char> = Vec::new();
    let mut at: usize = from;
    while at < chars.len()
        invariant
            from <= at <= chars.len(),
            out@ == chars@.subrange(from as int, at as int),
        decreases chars.len() - at,
    {
        out.push(chars[at]);
        at += 1;
    }
    out
}

/// What stands in `text` between the leftmost `marker` and the leftmost
/// `terminator` after it, where both are found.
pub fn extract_field(text: &str, marker: &str, terminator: &str) -> (field: Option<String>)
    ensures
        optional_text(field) == field_after(text@, marker@, terminator@),
{
    let chars = chars_of(text);
    let marker_chars = chars_of(marker);
    let terminator_chars = chars_of(terminator);
    match find_chars(&chars, &marker_chars) {
        None => None,
        Some(start) => {
            assert(start + marker_chars.len() <= chars.len());
            let from: usize = start + marker_chars.len();
            let rest = tail(&chars, from);
            match find_chars(&rest, &terminator_chars) {
                None => None,
                Some(end) => {
                    assert(text@.subrange(from as int, from + end) =~= text@.skip(
                        from as int,
                    ).take(end as int));
                    Some(text.substring_char(from, from + end).to_owned())
                },
            }
        },
    }
}

/// Where `needle` stands at `at`, it has a leftmost position.
proof fn lemma_leftmost_exists(hay: Seq<char>, needle: Seq<char>, at: int)
    requires
        occurs_at(hay, needle, at),
    ensures
        exists|first: int| is_first_occurrence(hay, needle, first),
    decreases at,
{
    if exists|earlier: int| 0 <= earlier < at && occurs_at(hay, needle, earlier) {
        let earlier = choose|earlier: int| 0 <= earlier < at && occurs_at(hay, needle, earlier);
        lemma_leftmost_exists(hay, needle, earlier);
    } else {
        assert(is_first_occurrence(hay, needle, at));
    }
}

/// `first_occurrence` names the leftmost position at which `needle` stands,
/// and names nothing exactly where `needle` stands nowhere.
pub proof fn law_first_occurrence(hay: Seq<char>, needle: Seq<char>)
    ensures
        match first_occurrence(hay, needle) {
            Some(at) => is_first_occurrence(hay, needle, at),
            None => !occurs(hay, needle),
        },
{
    if occurs(hay, needle) {
        let at = choose|at: int| occurs_at(hay, needle, at);
        lemma_leftmost_exists(hay, needle, at);
    }
}

/// Every character of `s` is whitespace.
pub open spec fn is_blank(s: Seq<char>) -> bool {
    forall|i: int| 0 <= i < s.len() ==> is_whitespace(#[trigger] s[i])
}

/// `s` neither begins nor ends with whitespace.
pub open spec fn is_trimmed(s: Seq<char>) -> bool {
    s.len() > 0 ==> !is_whitespace(s.first()) && !is_whitespace(s.last())
}

/// `trim_start` takes a blank prefix away and leaves text that does not
/// begin with whitespace.
pub proof fn law_trim_start(s: Seq<char>)
    ensures
        trim_start(s).len() <= s.len(),
        trim_start(s) == s.skip(s.len() - trim_start(s).len()),
        is_blank(s.take(s.len() - trim_start(s).len())),
        trim_start(s).len() > 0 ==> !is_whitespace(trim_start(s).first()),
    decreases s.len(),
{
    if s.len() > 0 && is_whitespace(s[0]) {
        let rest = s.skip(1);
        law_trim_start(rest);
        let kept = trim_start(rest).len();
        assert forall|i: int| 0 <= i < s.len() - kept implies is_whitespace(
            #[trigger] s.take(s.len() - kept)[i],
        ) by {
            if i > 0 {
                assert(s.take(s.len() - kept)[i] == rest.take(rest.len() - kept)[i - 1]);
            }
        }
    }
}

/// `trim_end` takes a blank suffix away and leaves text that does not end
/// with whitespace.
pub proof fn law_trim_end(s: Seq<char>)
    ensures
        trim_end(s).len() <= s.len(),
        trim_end(s) == s.take(trim_end(s).len() as int),
        is_blank(s.skip(trim_end(s).len() as int)),
        trim_end(s).len() > 0 ==> !is_whitespace(trim_end(s).last()),
    decreases s.len(),
{
    if s.len() > 0 && is_whitespace(s.last()) {
        let rest = s.drop_last();
        law_trim_end(rest);
        let kept = trim_end(rest).len() as int;
        assert forall|i: int| 0 <= i < s.len() - kept implies is_whitespace(
            #[trigger] s.skip(kept)[i],
        ) by {
            if i < s.len() - kept - 1 {
                assert(s.skip(kept)[i] == rest.skip(kept)[i]);
            }
        }
    }
}

/// Trimming takes a blank prefix and a blank suffix away, and what is left
/// neither begins nor ends with whitespace: `s` is `before`, then
/// `trimmed(s)`, then `after`, for the blank texts that the law returns.
pub proof fn law_trimmed(s: Seq<char>) -> (around: (Seq<char>, Seq<char>))
    ensures
        s == around.0 + trimmed(s) + around.1,
        is_blank(around.0),
        is_blank(around.1),
        is_trimmed(trimmed(s)),
{
    law_trim_start(s);
    let inner = trim_start(s);
    law_trim_end(inner);
    let before = s.take(s.len() - inner.len());
    let after = inner.skip(trimmed(s).len() as int);
    (before, after)
}

/// Text that neither begins nor ends with whitespace is left as it is.
pub proof fn law_trimmed_keeps_trimmed_text(s: Seq<char>)
    requires
        is_trimmed(s),
    ensures
        trimmed(s) == s,
{
}

/// Trimming twice is trimming once.
pub proof fn law_trimmed_is_idempotent(s: Seq<char>)
    ensures
        trimmed(trimmed(s)) == trimmed(s),
{
    let _ = law_trimmed(s);
    law_trimmed_keeps_trimmed_text(trimmed(s));
}

/// `without_trailing` takes away a suffix that holds nothing but `c`, and
/// what is left does not end with `c`.
pub proof fn law_without_trailing(s: Seq<char>, c: char)
    ensures
        without_trailing(s, c).len() <= s.len(),
        without_trailing(s, c) == s.take(without_trailing(s, c).len() as int),
        forall|i: int| without_trailing(s, c).len() <= i < s.len() ==> s[i] == c,
        without_trailing(s, c).len() > 0 ==> without_trailing(s, c).last() != c,
    decreases s.len(),
{
    if s.len() > 0 && s.last() == c {
        let rest = s.drop_last();
        law_without_trailing(rest, c);
        assert(rest.take(without_trailing(rest, c).len() as int) =~= s.take(
            without_trailing(rest, c).len() as int,
        ));
        assert forall|i: int| without_trailing(s, c).len() <= i < s.len() implies s[i] == c by {
            if i < rest.len() {
                assert(rest[i] == c);
            }
        }
    }
}

/// The number that the digit `c` writes.
pub open spec fn digit_value(c: char) -> nat {
    if c == '1' {
        1
    } else if c == '2' {
        2
    } else if c == '3' {
        3
    } else if c == '4' {
        4
    } else if c == '5' {
        5
    } else if c == '6' {
        6
    } else if c == '7' {
        7
    } else if c == '8' {
        8
    } else if c == '9' {
        9
    } else {
        0
    }
}

/// The number that `digits` write in base ten.
pub open spec fn decimal_value(digits: Seq<char>) -> nat
    decreases digits.len(),
{
    if digits.len() == 0 {
        0
    } else {
        10 * decimal_value(digits.drop_last()) + digit_value(digits.last())
    }
}

/// `decimal(n)` holds digits only, begins with `0` for zero alone, and
/// writes `n`.
pub proof fn law_decimal(n: nat)
    ensures
        decimal(n).len() > 0,
        forall|i: int|
            0 <= i < decimal(n).len() ==> '0' <= #[trigger] decimal(n)[i] <= '9',
        decimal(n).first() == '0' <==> n == 0,
        decimal_value(decimal(n)) == n,
    decreases n,
{
    if n < 10 {
        reveal_with_fuel(decimal_value, 2);
    } else {
        law_decimal(n / 10);
        let head = decimal(n / 10);
        assert(decimal(n).drop_last() =~= head);
    }
}

/// Where `field_after` finds a field, `text` holds, from the position that
/// the law returns on, `marker`, the field and `terminator` in a row: that
/// position is the leftmost at which `marker` stands, and the field ends at
/// the leftmost `terminator` after it. Where it finds none, `marker` stands
/// nowhere in `text`, or `terminator` nowhere after the leftmost `marker`.
pub proof fn law_field_after(text: Seq<char>, marker: Seq<char>, terminator: Seq<char>) -> (start:
    int)
    ensures
        match field_after(text, marker, terminator) {
            Some(field) => {
                &&& is_first_occurrence(text, marker, start)
                &&& is_first_occurrence(
                    text.skip(start + marker.len()),
                    terminator,
                    field.len() as int,
                )
                &&& text.subrange(
                    start,
                    start + marker.len() + field.len() + terminator.len(),
                ) == marker + field + terminator
            },
            None => !occurs(text, marker) || (is_first_occurrence(text, marker, start) && !occurs(
                text.skip(start + marker.len()),
                terminator,
            )),
        },
{
    law_first_occurrence(text, marker);
    match first_occurrence(text, marker) {
        None => 0,
        Some(start) => {
            let rest = text.skip(start + marker.len());
            law_first_occurrence(rest, terminator);
            match first_occurrence(rest, terminator) {
                None => {},
                Some(end) => {
                    let field = rest.take(end);
                    assert(text.subrange(
                        start,
                        start + marker.len() + field.len() + terminator.len(),
                    ) =~= marker + field + terminator);
                },
            }
            start
        },
    }
}

} // verus!
