//! What searching, trimming, writing numbers and joining come to.
use vstd::prelude::*;

use crate::text::{
    contains, decimal, digit, first_place, first_place_is_within, joined, last_place,
    last_place_is_within, occurs_at, trimmed, trimmed_back, trimmed_front,
    white_space,
};

verus! {

/// A pattern occurs in a text if and only if the text is something, the pattern,
/// and something.
pub proof fn containing_is_splitting(text: Seq<char>, pattern: Seq<char>)
    ensures
        contains(text, pattern) <==> exists|before: Seq<char>, after: Seq<char>|
            #![trigger before + pattern + after]
            text == before + pattern + after,
{
    if contains(text, pattern) {
        let at = choose|at: int| occurs_at(text, pattern, at);
        assert(text =~= text.take(at) + pattern + text.skip(at + pattern.len()));
    }
    if exists|before: Seq<char>, after: Seq<char>|
        #![trigger before + pattern + after]
        text == before + pattern + after {
        let (before, after) = choose|before: Seq<char>, after: Seq<char>|
            #![trigger before + pattern + after]
            text == before + pattern + after;
        split_occurs(before, pattern, after);
    }
}

proof fn split_occurs(before: Seq<char>, pattern: Seq<char>, after: Seq<char>)
    ensures
        occurs_at(before + pattern + after, pattern, before.len() as int),
{
    let at = before.len() as int;
    assert((before + pattern + after).subrange(at, at + pattern.len()) =~= pattern);
}

/// The first place of a pattern splits the text there, and no split comes before
/// it; where there is no place, there is no split.
pub proof fn first_place_is_the_first_split(text: Seq<char>, pattern: Seq<char>)
    ensures
        match first_place(text, pattern) {
            Some(at) => {
                &&& 0 <= at
                &&& at + pattern.len() <= text.len()
                &&& text == text.take(at) + pattern + text.skip(at + pattern.len())
                &&& forall|before: Seq<char>, after: Seq<char>|
                    #![trigger before + pattern + after]
                    text == before + pattern + after ==> at <= before.len()
            },
            None => forall|before: Seq<char>, after: Seq<char>|
                #![trigger before + pattern + after]
                text != before + pattern + after,
        },
{
    first_place_is_within(text, pattern);
    match first_place(text, pattern) {
        Some(at) => {
            assert(text =~= text.take(at) + pattern + text.skip(at + pattern.len()));
            assert forall|before: Seq<char>, after: Seq<char>|
                #![trigger before + pattern + after]
                text == before + pattern + after implies at <= before.len() by {
                split_occurs(before, pattern, after);
            }
        },
        None => {
            assert forall|before: Seq<char>, after: Seq<char>|
                #![trigger before + pattern + after]
                text != before + pattern + after by {
                split_occurs(before, pattern, after);
            }
        },
    }
}

/// The last place of a pattern splits the text there, and no split comes behind
/// it; where there is no place, there is no split.
pub proof fn last_place_is_the_last_split(text: Seq<char>, pattern: Seq<char>)
    ensures
        match last_place(text, pattern) {
            Some(at) => {
                &&& 0 <= at
                &&& at + pattern.len() <= text.len()
                &&& text == text.take(at) + pattern + text.skip(at + pattern.len())
                &&& forall|before: Seq<char>, after: Seq<char>|
                    #![trigger before + pattern + after]
                    text == before + pattern + after ==> before.len() <= at
            },
            None => forall|before: Seq<char>, after: Seq<char>|
                #![trigger before + pattern + after]
                text != before + pattern + after,
        },
{
    last_place_is_within(text, pattern);
    match last_place(text, pattern) {
        Some(at) => {
            assert(text =~= text.take(at) + pattern + text.skip(at + pattern.len()));
            assert forall|before: Seq<char>, after: Seq<char>|
                #![trigger before + pattern + after]
                text == before + pattern + after implies before.len() <= at by {
                split_occurs(before, pattern, after);
            }
        },
        None => {
            assert forall|before: Seq<char>, after: Seq<char>|
                #![trigger before + pattern + after]
                text != before + pattern + after by {
                split_occurs(before, pattern, after);
            }
        },
    }
}

/// Every character is white space.
pub open spec fn blank(text: Seq<char>) -> bool {
    forall|i: int| 0 <= i < text.len() ==> white_space(#[trigger] text[i])
}

/// A text has no white space at its two ends.
pub open spec fn tight(text: Seq<char>) -> bool {
    text.len() > 0 ==> !white_space(text[0]) && !white_space(text[text.len() - 1])
}

proof fn front_splits(text: Seq<char>) -> (front: Seq<char>)
    ensures
        text == front + trimmed_front(text),
        blank(front),
        trimmed_front(text).len() > 0 ==> !white_space(trimmed_front(text)[0]),
    decreases text.len(),
{
    if text.len() > 0 && white_space(text[0]) {
        let rest = front_splits(text.drop_first());
        let front = seq![text[0]] + rest;
        let kept = trimmed_front(text.drop_first());
        assert(text =~= seq![text[0]] + text.drop_first());
        assert(seq![text[0]] + (rest + kept) =~= front + kept);
        front
    } else {
        assert(text =~= Seq::<char>::empty() + trimmed_front(text));
        Seq::empty()
    }
}

proof fn back_splits(text: Seq<char>) -> (back: Seq<char>)
    ensures
        text == trimmed_back(text) + back,
        blank(back),
        trimmed_back(text).len() > 0 ==> !white_space(trimmed_back(text).last()),
    decreases text.len(),
{
    if text.len() > 0 && white_space(text.last()) {
        let rest = back_splits(text.drop_last());
        let back = rest.push(text.last());
        let kept = trimmed_back(text.drop_last());
        assert(text =~= text.drop_last().push(text.last()));
        assert((kept + rest).push(text.last()) =~= kept + back);
        back
    } else {
        assert(text =~= trimmed_back(text) + Seq::<char>::empty());
        Seq::empty()
    }
}

/// Trimming takes off white space at the two ends, all of it, and nothing else.
pub proof fn trimming_takes_the_ends_off(text: Seq<char>) -> (ends: (Seq<char>, Seq<char>))
    ensures
        text == ends.0 + trimmed(text) + ends.1,
        blank(ends.0),
        blank(ends.1),
        tight(trimmed(text)),
{
    let front = front_splits(text);
    let middle = trimmed_front(text);
    let back = back_splits(middle);
    assert(text =~= front + trimmed(text) + back);
    if trimmed(text).len() > 0 {
        assert(middle[0] == trimmed(text)[0]);
    }
    (front, back)
}

/// What stands between white space is what trimming gives.
pub proof fn trimming_finds_the_middle(front: Seq<char>, middle: Seq<char>, back: Seq<char>)
    requires
        blank(front),
        blank(back),
        tight(middle),
    ensures
        trimmed(front + middle + back) == middle,
    decreases front.len() + back.len(),
{
    let text = front + middle + back;
    if front.len() > 0 {
        assert(white_space(front[0]));
        assert(text[0] == front[0]);
        assert(text.drop_first() =~= front.drop_first() + middle + back);
        trimming_finds_the_middle(front.drop_first(), middle, back);
    } else if middle.len() == 0 {
        assert(text =~= back);
        let skipped = front_splits(back);
        let rest = trimmed_front(back);
        if rest.len() > 0 {
            assert(rest[0] == back[skipped.len() as int]);
        }
        assert(rest =~= Seq::<char>::empty());
        assert(trimmed(text) =~= middle);
    } else {
        assert(text[0] == middle[0]);
        assert(trimmed_front(text) == text);
        if back.len() > 0 {
            assert(text.last() == back.last());
            assert(white_space(back[back.len() - 1]));
            assert(text.drop_last() =~= front + middle + back.drop_last());
            trimming_finds_the_middle(front, middle, back.drop_last());
            assert(text.drop_last()[0] == middle[0]);
        } else {
            assert(text =~= middle);
        }
    }
}

/// A text that is tight already is left as it is by trimming.
pub proof fn tight_texts_stay(text: Seq<char>)
    requires
        tight(text),
    ensures
        trimmed(text) == text,
{
    let none = Seq::<char>::empty();
    trimming_finds_the_middle(none, text, none);
    assert(none + text + none =~= text);
}

/// The white space characters, one by one.
pub proof fn white_space_one_by_one(c: char)
    ensures
        white_space(c) <==> seq![
            0x9int, 0xa, 0xb, 0xc, 0xd, 0x20, 0x85, 0xa0, 0x1680, 0x2000, 0x2001, 0x2002, 0x2003,
            0x2004, 0x2005, 0x2006, 0x2007, 0x2008, 0x2009, 0x200a, 0x2028, 0x2029, 0x202f, 0x205f,
            0x3000,
        ].contains(c as int),
{
    let all = seq![
        0x9int, 0xa, 0xb, 0xc, 0xd, 0x20, 0x85, 0xa0, 0x1680, 0x2000, 0x2001, 0x2002, 0x2003,
        0x2004, 0x2005, 0x2006, 0x2007, 0x2008, 0x2009, 0x200a, 0x2028, 0x2029, 0x202f, 0x205f,
        0x3000,
    ];
    let n = c as int;
    if white_space(c) {
        let i = if n <= 0xd {
            n - 9
        } else if n == 0x20 {
            5
        } else if n == 0x85 {
            6
        } else if n == 0xa0 {
            7
        } else if n == 0x1680 {
            8
        } else if n <= 0x200a {
            n - 0x2000 + 9
        } else if n == 0x2028 {
            20
        } else if n == 0x2029 {
            21
        } else if n == 0x202f {
            22
        } else if n == 0x205f {
            23
        } else {
            24
        };
        assert(all[i] == n);
    }
}

/// The number that decimal digits stand for.
pub open spec fn value_of(digits: Seq<char>) -> int
    decreases digits.len(),
{
    if digits.len() == 0 {
        0
    } else {
        value_of(digits.drop_last()) * 10 + (digits.last() as int - '0' as int)
    }
}

/// The decimal notation of a number consists of digits, begins with a zero only
/// where the number is zero, and stands for the number.
pub proof fn decimals_stand_for_their_number(n: nat)
    ensures
        value_of(decimal(n)) == n,
        decimal(n).len() > 0,
        forall|i: int| 0 <= i < decimal(n).len() ==> '0' <= #[trigger] decimal(n)[i] <= '9',
        n > 0 ==> decimal(n)[0] != '0',
        n == 0 ==> decimal(n) == seq!['0'],
    decreases n,
{
    if n < 10 {
        let d = digit(n);
        assert(d[0] as int == '0' as int + n);
        assert(d.drop_last() =~= Seq::<char>::empty());
        assert(value_of(d.drop_last()) == 0);
        assert(value_of(d) == n);
    } else {
        decimals_stand_for_their_number(n / 10);
        let front = decimal(n / 10);
        let last = digit(n % 10);
        assert(last[0] as int == '0' as int + n % 10);
        assert(decimal(n).drop_last() =~= front);
        assert(decimal(n).last() == last[0]);
        assert(decimal(n)[0] == front[0]);
        assert forall|i: int| 0 <= i < decimal(n).len() implies '0' <= #[trigger] decimal(n)[i]
            <= '9' by {
            if i < front.len() {
                assert(decimal(n)[i] == front[i]);
            }
        }
    }
}

/// Texts are joined in their order, with the separator between neighbours and
/// nowhere else.
pub proof fn joining_puts_the_separator_between(
    first: Seq<Seq<char>>,
    second: Seq<Seq<char>>,
    text: Seq<char>,
    separator: Seq<char>,
)
    ensures
        joined(Seq::<Seq<char>>::empty(), separator).len() == 0,
        joined(seq![text], separator) == text,
        first.len() > 0 && second.len() > 0 ==> joined(first + second, separator) == joined(
            first,
            separator,
        ) + separator + joined(second, separator),
    decreases second.len(),
{
    if first.len() > 0 && second.len() > 0 {
        let both = first + second;
        assert(both.drop_last() =~= first + second.drop_last());
        assert(both.last() == second.last());
        if second.len() > 1 {
            joining_puts_the_separator_between(first, second.drop_last(), text, separator);
            assert(joined(both, separator) =~= joined(first, separator) + separator + joined(
                second,
                separator,
            ));
        } else {
            assert(second.drop_last() =~= Seq::<Seq<char>>::empty());
            assert(first + second.drop_last() =~= first);
            assert(joined(second, separator) == second[0]);
        }
    }
}

} // verus!
