//! What holds of escaped text.

use vstd::prelude::*;

use crate::html::{escaped_char, html_escaped};

verus! {

/// A text begins with a pattern.
pub open spec fn begins_with(s: Seq<char>, pattern: Seq<char>) -> bool {
    pattern.len() <= s.len() && s.take(pattern.len() as int) == pattern
}

/// A text in which every occurrence of a pattern, from the left, has become one character.
pub open spec fn replaced(s: Seq<char>, pattern: Seq<char>, c: char) -> Seq<char>
    decreases s.len(),
{
    if s.len() == 0 {
        seq![]
    } else if pattern.len() > 0 && begins_with(s, pattern) {
        seq![c] + replaced(s.skip(pattern.len() as int), pattern, c)
    } else {
        seq![s[0]] + replaced(s.skip(1), pattern, c)
    }
}

/// The text that HTML shows for escaped text: the entities become their characters, and the
/// ampersand does so last.
pub open spec fn html_unescaped(s: Seq<char>) -> Seq<char> {
    let s = replaced(s, "&lt;"@, '<');
    let s = replaced(s, "&gt;"@, '>');
    let s = replaced(s, "&quot;"@, '"');
    let s = replaced(s, "&#39;"@, '\'');
    replaced(s, "&amp;"@, '&')
}

/// The special characters, in the order in which their entities are replaced.
spec fn special(k: int) -> char {
    if k == 0 {
        '<'
    } else if k == 1 {
        '>'
    } else if k == 2 {
        '"'
    } else if k == 3 {
        '\''
    } else {
        '&'
    }
}

/// The form of a character once the entities of the first `k` special characters are replaced.
spec fn half_escaped_char(c: char, k: int) -> Seq<char> {
    if exists|j: int| 0 <= j < k && c == #[trigger] special(j) {
        seq![c]
    } else {
        escaped_char(c)
    }
}

/// The form of a text once the entities of the first `k` special characters are replaced.
spec fn half_escaped(s: Seq<char>, k: int) -> Seq<char>
    decreases s.len(),
{
    if s.len() == 0 {
        seq![]
    } else {
        half_escaped_char(s[0], k) + half_escaped(s.skip(1), k)
    }
}

proof fn special_characters_differ(j: int, k: int)
    requires
        0 <= j < 5,
        0 <= k < 5,
        special(j) == special(k),
    ensures
        j == k,
{
}

/// Text in which a pattern begins nowhere is passed over.
proof fn pattern_is_passed_over(x: Seq<char>, rest: Seq<char>, pattern: Seq<char>, c: char)
    requires
        pattern.len() >= 2,
        forall|i: int|
            0 <= i < x.len() ==> (#[trigger] x[i]) != pattern[0] || (i + 1 < x.len() && x[i + 1]
                != pattern[1]),
    ensures
        replaced(x + rest, pattern, c) == x + replaced(rest, pattern, c),
    decreases x.len(),
{
    let whole = x + rest;
    if x.len() == 0 {
        assert(whole =~= rest);
        assert(x + replaced(rest, pattern, c) =~= replaced(rest, pattern, c));
    } else {
        if begins_with(whole, pattern) {
            let start = whole.take(pattern.len() as int);
            assert(start[0] == x[0]);
            assert(x[0] == pattern[0]);
            assert(start[1] == x[1]);
        }
        let tail = x.skip(1);
        assert forall|i: int| 0 <= i < tail.len() implies (#[trigger] tail[i]) != pattern[0] || (i
            + 1 < tail.len() && tail[i + 1] != pattern[1]) by {
            assert(tail[i] == x[i + 1]);
            if i + 1 < tail.len() {
                assert(tail[i + 1] == x[i + 2]);
            }
        }
        pattern_is_passed_over(tail, rest, pattern, c);
        assert(whole.skip(1) =~= tail + rest);
        assert(seq![x[0]] + (tail + replaced(rest, pattern, c)) =~= x + replaced(
            rest,
            pattern,
            c,
        ));
    }
}

proof fn entities_differ(c: char, k: int)
    requires
        0 <= k < 5,
        c != special(k),
    ensures
        ({
            let x = half_escaped_char(c, k);
            let pattern = escaped_char(special(k));
            &&& pattern.len() >= 2
            &&& forall|i: int|
                0 <= i < x.len() ==> (#[trigger] x[i]) != pattern[0] || (i + 1 < x.len() && x[i + 1]
                    != pattern[1])
        }),
{
    reveal_strlit("&amp;");
    reveal_strlit("&lt;");
    reveal_strlit("&gt;");
    reveal_strlit("&quot;");
    reveal_strlit("&#39;");
    assert(special(4) == '&');
    assert forall|j: int| 0 <= j < k implies #[trigger] special(j) != '&' by {}
}

proof fn one_entity_is_replaced(s: Seq<char>, k: int)
    requires
        0 <= k < 5,
    ensures
        replaced(half_escaped(s, k), escaped_char(special(k)), special(k)) == half_escaped(
            s,
            k + 1,
        ),
    decreases s.len(),
{
    let pattern = escaped_char(special(k));
    if s.len() > 0 {
        let x = half_escaped_char(s[0], k);
        let rest = half_escaped(s.skip(1), k);
        one_entity_is_replaced(s.skip(1), k);
        if s[0] == special(k) {
            assert forall|j: int| 0 <= j < k implies s[0] != #[trigger] special(j) by {
                if special(j) == special(k) {
                    special_characters_differ(j, k);
                }
            }
            assert(x == pattern);
            entities_differ('a', k);
            assert((x + rest).take(pattern.len() as int) =~= pattern);
            assert((x + rest).skip(pattern.len() as int) =~= rest);
            assert(half_escaped_char(s[0], k + 1) == seq![s[0]]);
        } else {
            entities_differ(s[0], k);
            pattern_is_passed_over(x, rest, pattern, special(k));
            if exists|j: int| 0 <= j < k + 1 && s[0] == #[trigger] special(j) {
                let j = choose|j: int| 0 <= j < k + 1 && s[0] == #[trigger] special(j);
                assert(0 <= j < k && s[0] == special(j));
            } else {
                assert forall|j: int| 0 <= j < k implies s[0] != #[trigger] special(j) by {
                    assert(0 <= j < k + 1);
                }
            }
            assert(half_escaped_char(s[0], k + 1) == x);
        }
    }
}

proof fn nothing_escaped_yet_replaced(s: Seq<char>)
    ensures
        half_escaped(s, 0) == html_escaped(s),
    decreases s.len(),
{
    if s.len() > 0 {
        nothing_escaped_yet_replaced(s.skip(1));
        escaping_joins(seq![s[0]], s.skip(1));
        assert(seq![s[0]] + s.skip(1) =~= s);
        one_character_is_escaped(s[0]);
    }
}

proof fn everything_replaced(s: Seq<char>)
    ensures
        half_escaped(s, 5) == s,
    decreases s.len(),
{
    if s.len() > 0 {
        everything_replaced(s.skip(1));
        assert(special(0) == '<' && special(1) == '>' && special(2) == '"' && special(3) == '\''
            && special(4) == '&');
        assert(half_escaped_char(s[0], 5) =~= seq![s[0]]);
        assert(seq![s[0]] + s.skip(1) =~= s);
    } else {
        assert(half_escaped(s, 5) =~= s);
    }
}

proof fn one_character_is_escaped(c: char)
    ensures
        html_escaped(seq![c]) == escaped_char(c),
{
    assert(seq![c].drop_last() =~= seq![]);
    assert(html_escaped(seq![c].drop_last()) =~= seq![]);
    assert(html_escaped(seq![c]) =~= escaped_char(c));
}

/// Each character that means something in a page is written as its own entity, and every other
/// character as itself.
pub proof fn markup_is_written_as_entities(c: char)
    ensures
        c == '&' ==> html_escaped(seq![c]) == "&amp;"@,
        c == '<' ==> html_escaped(seq![c]) == "&lt;"@,
        c == '>' ==> html_escaped(seq![c]) == "&gt;"@,
        c == '"' ==> html_escaped(seq![c]) == "&quot;"@,
        c == '\'' ==> html_escaped(seq![c]) == "&#39;"@,
        c != '&' && c != '<' && c != '>' && c != '"' && c != '\'' ==> html_escaped(seq![c])
            == seq![c],
{
    one_character_is_escaped(c);
}

/// Escaping two texts joined is the same as joining the two escaped.
pub proof fn escaping_joins(a: Seq<char>, b: Seq<char>)
    ensures
        html_escaped(a + b) == html_escaped(a) + html_escaped(b),
    decreases b.len(),
{
    if b.len() == 0 {
        assert(a + b =~= a);
        assert(html_escaped(a) + html_escaped(b) =~= html_escaped(a));
    } else {
        escaping_joins(a, b.drop_last());
        assert((a + b).drop_last() =~= a + b.drop_last());
        assert(html_escaped(a) + html_escaped(b.drop_last()) + escaped_char(b.last())
            =~= html_escaped(a) + html_escaped(b));
    }
}

/// Appending one escaped text and another leaves what appending the joined text does.
pub proof fn appending_escaped_texts_joins(output: Seq<char>, a: Seq<char>, b: Seq<char>)
    ensures
        (output + html_escaped(a)) + html_escaped(b) == output + html_escaped(a + b),
{
    escaping_joins(a, b);
    assert((output + html_escaped(a)) + html_escaped(b) =~= output + (html_escaped(a)
        + html_escaped(b)));
}

/// Escaped text shows as the text that was escaped.
pub proof fn escaped_text_comes_back(s: Seq<char>)
    ensures
        html_unescaped(html_escaped(s)) == s,
{
    nothing_escaped_yet_replaced(s);
    one_entity_is_replaced(s, 0);
    one_entity_is_replaced(s, 1);
    one_entity_is_replaced(s, 2);
    one_entity_is_replaced(s, 3);
    one_entity_is_replaced(s, 4);
    everything_replaced(s);
}

/// Different texts stay different when they are escaped.
pub proof fn different_texts_stay_different(a: Seq<char>, b: Seq<char>)
    requires
        a != b,
    ensures
        html_escaped(a) != html_escaped(b),
{
    escaped_text_comes_back(a);
    escaped_text_comes_back(b);
}

} // verus!
