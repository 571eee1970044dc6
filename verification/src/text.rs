//! Small operations on text: the characters of a string, a search for one
//! text inside another, and decimal numerals.

use vstd::prelude::*;
use vstd::string::StrSliceExecFns;
use vstd::string::StringExecFns;

verus! {

/// The texts that a list of strings holds, in order.
pub open spec fn texts(items: Seq<String>) -> Seq<Seq<char>> {
    Seq::new(items.len(), |i: int| items[i]@)
}

/// `pattern` stands in `text` from position `at` on.
pub open spec fn occurs_at(pattern: Seq<char>, text: Seq<char>, at: int) -> bool {
    &&& 0 <= at
    &&& at + pattern.len() <= text.len()
    &&& text.subrange(at, at + pattern.len()) == pattern
}

/// `pattern` stands somewhere in `text`.
pub open spec fn occurs_in(pattern: Seq<char>, text: Seq<char>) -> bool {
    exists|at: int| occurs_at(pattern, text, at)
}

/// The decimal digit for a number below ten.
pub open spec fn digit_char(digit: nat) -> char {
    if digit == 0 {
        '0'
    } else if digit == 1 {
        '1'
    } else if digit == 2 {
        '2'
    } else if digit == 3 {
        '3'
    } else if digit == 4 {
        '4'
    } else if digit == 5 {
        '5'
    } else if digit == 6 {
        '6'
    } else if digit == 7 {
        '7'
    } else if digit == 8 {
        '8'
    } else {
        '9'
    }
}

/// The decimal numeral of `n`, without leading zeros.
pub open spec fn decimal(n: nat) -> Seq<char>
    decreases n,
{
    if n < 10 {
        seq![digit_char(n)]
    } else {
        decimal(n / 10).push(digit_char(n % 10))
    }
}

/// The characters of `text`, in order.
pub fn chars_of(text: &str) -> (chars: Vec<char>)
    ensures
        chars@ == text@,
{
    let n = text.unicode_len();
    let mut chars: Vec<char> = Vec::new();
    let mut i: usize = 0;
    while i < n
        invariant
            n == text@.len(),
            0 <= i <= n,
            chars@ == text@.subrange(0, i as int),
        decreases n - i,
    {
        chars.push(text.get_char(i));
        assert(chars@ =~= text@.subrange(0, i + 1));
        i += 1;
    }
    assert(text@.subrange(0, n as int) =~= text@);
    chars
}

/// Whether `pattern` stands in `text` from position `at` on.
fn matches_at(pattern: &Vec<char>, text: &Vec<char>, at: usize) -> (found: bool)
    requires
        at + pattern.len() <= text.len(),
    ensures
        found == occurs_at(pattern@, text@, at as int),
{
    let mut k: usize = 0;
    while k < pattern.len()
        invariant
            at + pattern.len() <= text.len(),
            0 <= k <= pattern.len(),
            forall|j: int| 0 <= j < k ==> text@[at + j] == pattern@[j],
        decreases pattern.len() - k,
    {
        if text[at + k] != pattern[k] {
            assert(text@.subrange(at as int, at + pattern.len())[k as int] != pattern@[k as int]);
            return false;
        }
        k += 1;
    }
    assert(text@.subrange(at as int, at + pattern.len()) =~= pattern@);
    true
}

/// Whether `pattern` stands somewhere in `text`.
pub fn contains(text: &Vec<char>, pattern: &Vec<char>) -> (found: bool)
    ensures
        found == occurs_in(pattern@, text@),
{
    if pattern.len() > text.len() {
        return false;
    }
    if pattern.len() == 0 {
        assert(text@.subrange(0, 0) =~= pattern@);
        assert(occurs_at(pattern@, text@, 0));
        return true;
    }
    let last = text.len() - pattern.len();
    let mut at: usize = 0;
    while at <= last
        invariant
            last == text.len() - pattern.len(),
            pattern.len() > 0,
            0 <= at <= last + 1,
            forall|i: int| 0 <= i < at ==> !occurs_at(pattern@, text@, i),
        decreases last + 1 - at,
    {
        if matches_at(pattern, text, at) {
            return true;
        }
        at += 1;
    }
    false
}

/// Whether the text `pattern` stands somewhere in the text `text`.
pub fn str_contains(text: &str, pattern: &str) -> (found: bool)
    ensures
        found == occurs_in(pattern@, text@),
{
    let text_chars = chars_of(text);
    let pattern_chars = chars_of(pattern);
    contains(&text_chars, &pattern_chars)
}

/// The text of one decimal digit.
fn digit_text(digit: u16) -> (text: &'static str)
    requires
        digit < 10,
    ensures
        text@ == seq![digit_char(digit as nat)],
{
    proof {
        reveal_strlit("0");
        reveal_strlit("1");
        reveal_strlit("2");
        reveal_strlit("3");
        reveal_strlit("4");
        reveal_strlit("5");
        reveal_strlit("6");
        reveal_strlit("7");
        reveal_strlit("8");
        reveal_strlit("9");
    }
    let text = if digit == 0 {
        "0"
    } else if digit == 1 {
        "1"
    } else if digit == 2 {
        "2"
    } else if digit == 3 {
        "3"
    } else if digit == 4 {
        "4"
    } else if digit == 5 {
        "5"
    } else if digit == 6 {
        "6"
    } else if digit == 7 {
        "7"
    } else if digit == 8 {
        "8"
    } else {
        "9"
    };
    assert(text@ =~= seq![digit_char(digit as nat)]);
    text
}

/// The decimal numeral of `n`, without leading zeros.
pub fn decimal_text(n: u16) -> (text: String)
    ensures
        text@ == decimal(n as nat),
    decreases n,
{
    if n < 10 {
        String::from_str(digit_text(n))
    } else {
        let mut text = decimal_text(n / 10);
        text.append(digit_text(n % 10));
        assert(text@ =~= decimal(n as nat));
        text
    }
}

/// Where `mark` first stands in `text`, or the length of `text` where it
/// stands nowhere.
pub open spec fn index_of(text: Seq<char>, mark: char) -> int
    decreases text.len(),
{
    if text.len() == 0 || text.first() == mark {
        0
    } else {
        1 + index_of(text.drop_first(), mark)
    }
}

/// The query of a URL, as text: of what stands before the first `#`, the part
/// behind the first `?`. Empty where no `?` stands there.
pub open spec fn query_part(url: Seq<char>) -> Seq<char> {
    let head = url.subrange(0, index_of(url, '#'));
    let start = index_of(head, '?');
    if start >= head.len() {
        Seq::empty()
    } else {
        head.subrange(start + 1, head.len() as int)
    }
}

/// A position before which `mark` does not stand, and at which it stands or
/// the text ends, is where `mark` first stands.
proof fn lemma_index_of(text: Seq<char>, mark: char, at: int)
    requires
        0 <= at <= text.len(),
        forall|j: int| 0 <= j < at ==> text[j] != mark,
        at == text.len() || text[at] == mark,
    ensures
        index_of(text, mark) == at,
    decreases at,
{
    if at > 0 {
        let rest = text.drop_first();
        assert forall|j: int| 0 <= j < at - 1 implies rest[j] != mark by {
            assert(rest[j] == text[j + 1]);
        }
        lemma_index_of(rest, mark, at - 1);
    }
}

/// Where `mark` first stands in `text` between `from` and `until`, or `until`
/// where it does not stand there.
fn find_char(text: &Vec<char>, from: usize, until: usize, mark: char) -> (at: usize)
    requires
        from <= until <= text.len(),
    ensures
        from <= at <= until,
        at - from == index_of(text@.subrange(from as int, until as int), mark),
{
    let ghost part = text@.subrange(from as int, until as int);
    let mut at: usize = from;
    while at < until && text[at] != mark
        invariant
            from <= at <= until <= text.len(),
            part == text@.subrange(from as int, until as int),
            forall|j: int| 0 <= j < at - from ==> part[j] != mark,
        decreases until - at,
    {
        at += 1;
    }
    proof {
        lemma_index_of(part, mark, at - from);
    }
    at
}

/// The query of a URL, as text: of what stands before the first `#`, the part
/// behind the first `?`.
pub fn query_of(url: &str) -> (query: String)
    ensures
        query@ == query_part(url@),
{
    let chars = chars_of(url);
    assert(chars@.subrange(0, chars.len() as int) =~= chars@);
    let end = find_char(&chars, 0, chars.len(), '#');
    let start = find_char(&chars, 0, end, '?');
    if start >= end {
        return String::new();
    }
    let query = url.substring_char(start + 1, end);
    assert(query@ =~= query_part(url@));
    String::from_str(query)
}

} // verus!
