//! Text searching, trimming and formatting, stated over character sequences.
use vstd::prelude::*;

verus! {

/// `pattern` stands in `text` at character position `at`.
pub open spec fn occurs_at(text: Seq<char>, pattern: Seq<char>, at: int) -> bool {
    &&& 0 <= at
    &&& at + pattern.len() <= text.len()
    &&& text.subrange(at, at + pattern.len()) == pattern
}

/// `pattern` stands somewhere in `text`.
pub open spec fn contains(text: Seq<char>, pattern: Seq<char>) -> bool {
    exists|at: int| occurs_at(text, pattern, at)
}

/// `at` is the leftmost place of `pattern` in `text`.
pub open spec fn leftmost(text: Seq<char>, pattern: Seq<char>, at: int) -> bool {
    occurs_at(text, pattern, at) && forall|i: int| occurs_at(text, pattern, i) ==> at <= i
}

/// `at` is the rightmost place of `pattern` in `text`.
pub open spec fn rightmost(text: Seq<char>, pattern: Seq<char>, at: int) -> bool {
    occurs_at(text, pattern, at) && forall|i: int| occurs_at(text, pattern, i) ==> i <= at
}

/// The leftmost place of `pattern`, if it occurs.
pub open spec fn first_place(text: Seq<char>, pattern: Seq<char>) -> Option<int> {
    if contains(text, pattern) {
        Some(choose|at: int| leftmost(text, pattern, at))
    } else {
        None
    }
}

/// The rightmost place of `pattern`, if it occurs.
pub open spec fn last_place(text: Seq<char>, pattern: Seq<char>) -> Option<int> {
    if contains(text, pattern) {
        Some(choose|at: int| rightmost(text, pattern, at))
    } else {
        None
    }
}

/// The characters with the Unicode property White_Space.
pub open spec fn white_space(c: char) -> bool {
    ||| '\u{9}' <= c <= '\u{d}'
    ||| c == '\u{20}'
    ||| c == '\u{85}'
    ||| c == '\u{a0}'
    ||| c == '\u{1680}'
    ||| '\u{2000}' <= c <= '\u{200a}'
    ||| c == '\u{2028}'
    ||| c == '\u{2029}'
    ||| c == '\u{202f}'
    ||| c == '\u{205f}'
    ||| c == '\u{3000}'
}

/// `text` without its leading white space.
pub open spec fn trimmed_front(text: Seq<char>) -> Seq<char>
    decreases text.len(),
{
    if text.len() > 0 && white_space(text[0]) {
        trimmed_front(text.drop_first())
    } else {
        text
    }
}

/// `text` without its trailing white space.
pub open spec fn trimmed_back(text: Seq<char>) -> Seq<char>
    decreases text.len(),
{
    if text.len() > 0 && white_space(text.last()) {
        trimmed_back(text.drop_last())
    } else {
        text
    }
}

/// `text` without the white space on either side.
pub open spec fn trimmed(text: Seq<char>) -> Seq<char> {
    trimmed_back(trimmed_front(text))
}

/// The decimal digit of a number below ten.
pub open spec fn digit(d: nat) -> Seq<char> {
    seq![(('0' as nat + d) as char)]
}

/// The decimal notation of a number, without leading zeros.
pub open spec fn decimal(n: nat) -> Seq<char>
    decreases n,
{
    if n < 10 {
        digit(n)
    } else {
        decimal(n / 10) + digit(n % 10)
    }
}

/// The texts one after the other, with `separator` between neighbours.
pub open spec fn joined(texts: Seq<Seq<char>>, separator: Seq<char>) -> Seq<char>
    decreases texts.len(),
{
    if texts.len() == 0 {
        seq![]
    } else if texts.len() == 1 {
        texts[0]
    } else {
        joined(texts.drop_last(), separator) + separator + texts.last()
    }
}

/// The character sequences of a list of strings.
pub open spec fn views(texts: Seq<String>) -> Seq<Seq<char>> {
    texts.map_values(|s: String| s@)
}

/// The character sequence of an optional string.
pub open spec fn opt_view(text: Option<String>) -> Option<Seq<char>> {
    match text {
        Some(s) => Some(s@),
        None => None,
    }
}

/// Whether a character has the Unicode property White_Space.
fn is_white_space(c: char) -> (r: bool)
    ensures
        r == white_space(c),
{
    ('\u{9}' <= c && c <= '\u{d}') || c == '\u{20}' || c == '\u{85}' || c == '\u{a0}' || c
        == '\u{1680}' || ('\u{2000}' <= c && c <= '\u{200a}') || c == '\u{2028}' || c == '\u{2029}'
        || c == '\u{202f}' || c == '\u{205f}' || c == '\u{3000}'
}

/// Whether two texts are equal.
pub fn same_text(a: &str, b: &str) -> (r: bool)
    ensures
        r == (a@ == b@),
{
    a.to_string() == b.to_string()
}

/// The characters of a text.
pub fn chars_of(text: &str) -> (r: Vec<char>)
    ensures
        r@ == text@,
{
    let mut out: Vec<char> = Vec::new();
    for c in it: text.chars()
        invariant
            out@ == text@.take(it.index()),
            it.seq() == text@,
    {
        out.push(c);
        assert(text@.take(it.index() + 1) =~= text@.take(it.index()).push(c));
    }
    assert(text@.take(text@.len() as int) =~= text@);
    out
}

/// Whether `pattern` stands in `text` at `at`.
fn matches_at(text: &Vec<char>, pattern: &Vec<char>, at: usize) -> (r: bool)
    requires
        at <= text@.len(),
    ensures
        r == occurs_at(text@, pattern@, at as int),
{
    if pattern.len() > text.len() - at {
        return false;
    }
    let mut i: usize = 0;
    while i < pattern.len()
        invariant
            i <= pattern@.len(),
            at + pattern@.len() <= text.len(),
            forall|k: int| 0 <= k < i ==> text@[at + k] == pattern@[k],
        decreases pattern@.len() - i,
    {
        if text[at + i] != pattern[i] {
            proof {
                assert(text@.subrange(at as int, at + pattern@.len())[i as int] != pattern@[i as int]);
            }
            return false;
        }
        i = i + 1;
    }
    assert(text@.subrange(at as int, at + pattern@.len()) =~= pattern@);
    true
}

proof fn leftmost_is_first(text: Seq<char>, pattern: Seq<char>, at: int)
    requires
        leftmost(text, pattern, at),
    ensures
        first_place(text, pattern) == Some(at),
{
    let chosen = choose|i: int| leftmost(text, pattern, i);
    assert(occurs_at(text, pattern, at));
    assert(leftmost(text, pattern, chosen));
}

proof fn rightmost_is_last(text: Seq<char>, pattern: Seq<char>, at: int)
    requires
        rightmost(text, pattern, at),
    ensures
        last_place(text, pattern) == Some(at),
{
    let chosen = choose|i: int| rightmost(text, pattern, i);
    assert(occurs_at(text, pattern, at));
    assert(rightmost(text, pattern, chosen));
}

proof fn leftmost_exists(text: Seq<char>, pattern: Seq<char>, at: int)
    requires
        occurs_at(text, pattern, at),
    ensures
        exists|i: int| leftmost(text, pattern, i),
    decreases at,
{
    if exists|i: int| occurs_at(text, pattern, i) && i < at {
        let earlier = choose|i: int| occurs_at(text, pattern, i) && i < at;
        leftmost_exists(text, pattern, earlier);
    } else {
        assert(leftmost(text, pattern, at));
    }
}

/// The first place of a pattern lies within the text, and none comes before it.
pub proof fn first_place_is_within(text: Seq<char>, pattern: Seq<char>)
    ensures
        first_place(text, pattern) matches Some(at) ==> leftmost(text, pattern, at),
{
    if contains(text, pattern) {
        let at = choose|at: int| occurs_at(text, pattern, at);
        leftmost_exists(text, pattern, at);
    }
}

proof fn rightmost_exists(text: Seq<char>, pattern: Seq<char>, at: int)
    requires
        occurs_at(text, pattern, at),
    ensures
        exists|i: int| rightmost(text, pattern, i),
    decreases text.len() - at,
{
    if exists|i: int| occurs_at(text, pattern, i) && i > at {
        let later = choose|i: int| occurs_at(text, pattern, i) && i > at;
        rightmost_exists(text, pattern, later);
    } else {
        assert(rightmost(text, pattern, at));
    }
}

/// The last place of a pattern lies within the text, and none comes behind it.
pub proof fn last_place_is_within(text: Seq<char>, pattern: Seq<char>)
    ensures
        last_place(text, pattern) matches Some(at) ==> rightmost(text, pattern, at),
{
    if contains(text, pattern) {
        let at = choose|at: int| occurs_at(text, pattern, at);
        rightmost_exists(text, pattern, at);
    }
}

/// The leftmost place of `pattern` in `text`, counted in characters.
pub fn find(text: &str, pattern: &str) -> (r: Option<usize>)
    ensures
        match r {
            Some(at) => first_place(text@, pattern@) == Some(at as int) && at + pattern@.len()
                <= text@.len(),
            None => first_place(text@, pattern@) is None,
        },
{
    let t = chars_of(text);
    let p = chars_of(pattern);
    let mut at: usize = 0;
    loop
        invariant
            t@ == text@,
            p@ == pattern@,
            at <= t@.len(),
            forall|i: int| occurs_at(text@, pattern@, i) ==> at <= i,
        decreases t@.len() - at,
    {
        if matches_at(&t, &p, at) {
            proof {
                leftmost_is_first(text@, pattern@, at as int);
            }
            return Some(at);
        }
        if at == t.len() {
            assert(!contains(text@, pattern@));
            return None;
        }
        at = at + 1;
    }
}

/// The rightmost place of `pattern` in `text`, counted in characters.
pub fn rfind(text: &str, pattern: &str) -> (r: Option<usize>)
    ensures
        match r {
            Some(at) => last_place(text@, pattern@) == Some(at as int) && at + pattern@.len()
                <= text@.len(),
            None => last_place(text@, pattern@) is None,
        },
{
    let t = chars_of(text);
    let p = chars_of(pattern);
    let mut at: usize = t.len();
    loop
        invariant
            t@ == text@,
            p@ == pattern@,
            at <= t@.len(),
            forall|i: int| occurs_at(text@, pattern@, i) ==> i <= at,
        decreases at,
    {
        if matches_at(&t, &p, at) {
            proof {
                rightmost_is_last(text@, pattern@, at as int);
            }
            return Some(at);
        }
        if at == 0 {
            assert(!contains(text@, pattern@));
            return None;
        }
        at = at - 1;
    }
}

/// Whether `pattern` occurs in `text`.
pub fn has(text: &str, pattern: &str) -> (r: bool)
    ensures
        r == contains(text@, pattern@),
{
    find(text, pattern).is_some()
}

/// The text without the white space on either side.
pub fn trim(text: &str) -> (r: String)
    ensures
        r@ == trimmed(text@),
{
    let t = chars_of(text);
    let mut from: usize = 0;
    assert(text@.skip(0) =~= text@);
    while from < t.len() && is_white_space(t[from])
        invariant
            from <= t@.len(),
            t@ == text@,
            trimmed_front(text@) == trimmed_front(text@.skip(from as int)),
        ensures
            from <= t@.len(),
            from < t@.len() ==> !white_space(t@[from as int]),
            trimmed_front(text@) == trimmed_front(text@.skip(from as int)),
        decreases t@.len() - from,
    {
        assert(text@.skip(from as int).drop_first() =~= text@.skip(from + 1));
        from = from + 1;
    }
    let ghost front = text@.skip(from as int);
    assert(trimmed_front(text@) == front);
    let mut to: usize = t.len();
    assert(text@.subrange(from as int, to as int) =~= front);
    while from < to && is_white_space(t[to - 1])
        invariant
            from <= to <= t@.len(),
            t@ == text@,
            trimmed_back(front) == trimmed_back(text@.subrange(from as int, to as int)),
        ensures
            from <= to <= t@.len(),
            from < to ==> !white_space(t@[to - 1]),
            trimmed_back(front) == trimmed_back(text@.subrange(from as int, to as int)),
        decreases to,
    {
        assert(text@.subrange(from as int, to as int).drop_last() =~= text@.subrange(
            from as int,
            to - 1,
        ));
        to = to - 1;
    }
    text.substring_char(from, to).to_string()
}

/// One text after the other.
pub fn concat(a: &str, b: &str) -> (r: String)
    ensures
        r@ == a@ + b@,
{
    let mut out = a.to_string();
    out.append(b);
    out
}

/// Three texts one after the other.
pub fn concat3(a: &str, b: &str, c: &str) -> (r: String)
    ensures
        r@ == a@ + b@ + c@,
{
    let mut out = a.to_string();
    out.append(b);
    out.append(c);
    out
}

fn digit_text(d: u64) -> (r: &'static str)
    requires
        d < 10,
    ensures
        r@ == digit(d as nat),
{
    proof {
        reveal_strlit("0");
        reveal_strlit("1");
        reveal_strlit("2");
        reveal_strlit("3");
        reveal_strlit("4");
        reveal_strlit("5");
        reveal_strlit("6");
        reveal_strlit("7");
        reveal_strlit("8");
        reveal_strlit("9");
    }
    let r: &'static str = if d == 0 {
        "0"
    } else if d == 1 {
        "1"
    } else if d == 2 {
        "2"
    } else if d == 3 {
        "3"
    } else if d == 4 {
        "4"
    } else if d == 5 {
        "5"
    } else if d == 6 {
        "6"
    } else if d == 7 {
        "7"
    } else if d == 8 {
        "8"
    } else {
        "9"
    };
    assert(r@ =~= digit(d as nat));
    r
}

/// The decimal notation of a number.
pub fn decimal_text(n: u64) -> (r: String)
    ensures
        r@ == decimal(n as nat),
    decreases n,
{
    if n < 10 {
        digit_text(n).to_string()
    } else {
        let mut out = decimal_text(n / 10);
        out.append(digit_text(n % 10));
        out
    }
}

/// The texts one after the other, with `separator` between neighbours.
pub fn join(texts: &Vec<String>, separator: &str) -> (r: String)
    ensures
        r@ == joined(views(texts@), separator@),
{
    let mut out = String::new();
    let mut i: usize = 0;
    while i < texts.len()
        invariant
            i <= texts@.len(),
            out@ == joined(views(texts@).take(i as int), separator@),
        decreases texts@.len() - i,
    {
        let ghost before = views(texts@).take(i as int);
        let ghost after = views(texts@).take(i + 1);
        assert(after.drop_last() =~= before);
        assert(after.last() == texts@[i as int]@);
        if i > 0 {
            out.append(separator);
        }
        out.append(texts[i].as_str());
        proof {
            if i == 0 {
                assert(before =~= Seq::<Seq<char>>::empty());
                assert(out@ =~= after[0]);
            }
        }
        i = i + 1;
    }
    assert(views(texts@).take(texts@.len() as int) =~= views(texts@));
    out
}

/// A fresh copy of an optional text, or `fallback` where there is none.
pub fn or_text(text: Option<&str>, fallback: &str) -> (r: String)
    ensures
        r@ == match text {
            Some(s) => s@,
            None => fallback@,
        },
{
    match text {
        Some(s) => s.to_string(),
        None => fallback.to_string(),
    }
}

proof fn digit_determines(a: nat, b: nat)
    requires
        a < 10,
        b < 10,
        digit(a) == digit(b),
    ensures
        a == b,
{
    assert(digit(a)[0] == digit(b)[0]);
    assert(digit(a)[0] as nat == '0' as nat + a);
    assert(digit(b)[0] as nat == '0' as nat + b);
}

proof fn decimal_length(n: nat)
    ensures
        decimal(n).len() >= 1,
        n >= 10 ==> decimal(n).len() >= 2,
    decreases n,
{
    if n >= 10 {
        decimal_length(n / 10);
    }
}

/// Two numbers with the same decimal notation are equal.
pub proof fn decimal_determines(a: nat, b: nat)
    requires
        decimal(a) == decimal(b),
    ensures
        a == b,
    decreases a,
{
    decimal_length(a);
    decimal_length(b);
    if a < 10 && b < 10 {
        digit_determines(a, b);
    } else if a >= 10 && b >= 10 {
        let left = decimal(a);
        let right = decimal(b);
        assert(left.drop_last() =~= decimal(a / 10));
        assert(right.drop_last() =~= decimal(b / 10));
        assert(seq![left.last()] =~= digit(a % 10));
        assert(seq![right.last()] =~= digit(b % 10));
        decimal_determines(a / 10, b / 10);
        digit_determines(a % 10, b % 10);
    }
}

} // verus!
