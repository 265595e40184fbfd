//! Plain text transformations: title-casing of identifiers and the
//! normalization (trim, spaces to underscores) applied to every operator
//! supplied string before it enters a configuration.

use vstd::prelude::*;
use vstd::string::StrSliceExecFns;
use vstd::string::StringExecFns;
use vstd::utf8::is_ascii_chars;

verus! {

/// Relies on std's String::push: appends the given character to the end of
/// the string.
#[verifier::external_body]
pub(crate) fn push_char(s: &mut String, c: char)
    ensures
        final(s)@ == old(s)@.push(c),
{
    s.push(c);
}

/// The uppercase form of a single character: ASCII lowercase letters map to
/// the corresponding uppercase letter, everything else is unchanged.
pub open spec fn upper_char(c: char) -> char {
    if c == 'a' { 'A' }
    else if c == 'b' { 'B' }
    else if c == 'c' { 'C' }
    else if c == 'd' { 'D' }
    else if c == 'e' { 'E' }
    else if c == 'f' { 'F' }
    else if c == 'g' { 'G' }
    else if c == 'h' { 'H' }
    else if c == 'i' { 'I' }
    else if c == 'j' { 'J' }
    else if c == 'k' { 'K' }
    else if c == 'l' { 'L' }
    else if c == 'm' { 'M' }
    else if c == 'n' { 'N' }
    else if c == 'o' { 'O' }
    else if c == 'p' { 'P' }
    else if c == 'q' { 'Q' }
    else if c == 'r' { 'R' }
    else if c == 's' { 'S' }
    else if c == 't' { 'T' }
    else if c == 'u' { 'U' }
    else if c == 'v' { 'V' }
    else if c == 'w' { 'W' }
    else if c == 'x' { 'X' }
    else if c == 'y' { 'Y' }
    else if c == 'z' { 'Z' }
    else { c }
}

fn to_upper(c: char) -> (r: char)
    ensures
        r == upper_char(c),
{
    match c {
        'a' => 'A',
        'b' => 'B',
        'c' => 'C',
        'd' => 'D',
        'e' => 'E',
        'f' => 'F',
        'g' => 'G',
        'h' => 'H',
        'i' => 'I',
        'j' => 'J',
        'k' => 'K',
        'l' => 'L',
        'm' => 'M',
        'n' => 'N',
        'o' => 'O',
        'p' => 'P',
        'q' => 'Q',
        'r' => 'R',
        's' => 'S',
        't' => 'T',
        'u' => 'U',
        'v' => 'V',
        'w' => 'W',
        'x' => 'X',
        'y' => 'Y',
        'z' => 'Z',
        _ => c,
    }
}

/// Title case of a character sequence: the empty sequence and every sequence
/// holding a non-ASCII character map to the empty sequence; otherwise the
/// first character is uppercased and the rest is unchanged.
pub open spec fn spec_title(s: Seq<char>) -> Seq<char> {
    if s.len() == 0 || !is_ascii_chars(s) {
        Seq::empty()
    } else {
        seq![upper_char(s[0])] + s.skip(1)
    }
}

/// Title-cases an identifier: uppercases the first character of a non-empty
/// ASCII string; empty or non-ASCII input yields the empty string.
pub fn title(s: &str) -> (r: String)
    ensures
        r@ == spec_title(s@),
{
    if !s.is_ascii() {
        return String::new();
    }
    let n = s.unicode_len();
    if n == 0 {
        return String::new();
    }
    let c = s.get_char(0);
    let up = to_upper(c);
    let mut r = String::new();
    push_char(&mut r, up);
    let tail = s.substring_ascii(1, n);
    r.append(tail);
    proof {
        assert(r@ =~= spec_title(s@));
    }
    r
}

/// The whitespace characters recognized when a raw answer is trimmed.
pub open spec fn is_space_char(c: char) -> bool {
    c == ' ' || c == '\t' || c == '\n' || c == '\r'
}

fn is_space(c: char) -> (r: bool)
    ensures
        r == is_space_char(c),
{
    c == ' ' || c == '\t' || c == '\n' || c == '\r'
}

/// The sequence with its leading whitespace removed.
pub open spec fn trim_front(s: Seq<char>) -> Seq<char>
    decreases s.len(),
{
    if s.len() == 0 {
        s
    } else if is_space_char(s[0]) {
        trim_front(s.skip(1))
    } else {
        s
    }
}

/// The sequence with its trailing whitespace removed.
pub open spec fn trim_back(s: Seq<char>) -> Seq<char>
    decreases s.len(),
{
    if s.len() == 0 {
        s
    } else if is_space_char(s[s.len() - 1]) {
        trim_back(s.take(s.len() - 1))
    } else {
        s
    }
}

/// The sequence with every space replaced by an underscore.
pub open spec fn underscored(s: Seq<char>) -> Seq<char> {
    s.map_values(|c: char| if c == ' ' { '_' } else { c })
}

/// Normal form of an operator supplied string: trimmed at both ends, then
/// internal spaces replaced by underscores.
pub open spec fn spec_normalize(s: Seq<char>) -> Seq<char> {
    underscored(trim_back(trim_front(s)))
}

proof fn lemma_trim_front_skip(s: Seq<char>, i: int)
    requires
        0 <= i <= s.len(),
        forall|k: int| 0 <= k < i ==> is_space_char(s[k]),
        i == s.len() || !is_space_char(s[i]),
    ensures
        trim_front(s) == s.skip(i),
    decreases i,
{
    if i == 0 {
        assert(trim_front(s) =~= s.skip(0));
    } else {
        lemma_trim_front_skip(s.skip(1), i - 1);
        assert(s.skip(1).skip(i - 1) =~= s.skip(i));
    }
}

proof fn lemma_trim_back_take(s: Seq<char>, e: int)
    requires
        0 <= e <= s.len(),
        forall|k: int| e <= k < s.len() ==> is_space_char(s[k]),
        e == 0 || !is_space_char(s[e - 1]),
    ensures
        trim_back(s) == s.take(e),
    decreases s.len(),
{
    if e == s.len() {
        assert(trim_back(s) =~= s.take(e));
    } else {
        lemma_trim_back_take(s.take(s.len() - 1), e);
        assert(s.take(s.len() - 1).take(e) =~= s.take(e));
    }
}

/// Normalizes an operator supplied string: removes leading and trailing
/// whitespace and replaces every remaining space with an underscore.
pub fn normalize(s: &str) -> (r: String)
    ensures
        r@ == spec_normalize(s@),
{
    let n = s.unicode_len();
    let mut start: usize = 0;
    while start < n && is_space(s.get_char(start))
        invariant
            n == s@.len(),
            0 <= start <= n,
            forall|k: int| 0 <= k < start ==> is_space_char(s@[k]),
        decreases n - start,
    {
        start += 1;
    }
    let mut end: usize = n;
    while end > start && is_space(s.get_char(end - 1))
        invariant
            n == s@.len(),
            0 <= start <= end <= n,
            forall|k: int| 0 <= k < start ==> is_space_char(s@[k]),
            forall|k: int| end <= k < n ==> is_space_char(s@[k]),
        decreases end,
    {
        end -= 1;
    }
    proof {
        lemma_trim_front_skip(s@, start as int);
        if end == start {
            lemma_trim_back_take(s@.skip(start as int), 0);
        } else {
            lemma_trim_back_take(s@.skip(start as int), end - start);
        }
        assert(trim_back(trim_front(s@)) =~= s@.subrange(start as int, end as int));
    }
    let mut r = String::new();
    let mut i = start;
    while i < end
        invariant
            n == s@.len(),
            0 <= start <= i <= end <= n,
            r@ == underscored(s@.subrange(start as int, i as int)),
        decreases end - i,
    {
        let c = s.get_char(i);
        let mapped = if c == ' ' { '_' } else { c };
        push_char(&mut r, mapped);
        i += 1;
        proof {
            assert(r@ =~= underscored(s@.subrange(start as int, i as int)));
        }
    }
    proof {
        assert(r@ == spec_normalize(s@));
    }
    r
}

proof fn lemma_trim_front_first(s: Seq<char>)
    ensures
        trim_front(s).len() > 0 ==> !is_space_char(trim_front(s)[0]),
    decreases s.len(),
{
    if s.len() > 0 && is_space_char(s[0]) {
        lemma_trim_front_first(s.skip(1));
    }
}

proof fn lemma_trim_back_last(s: Seq<char>)
    ensures
        trim_back(s).len() > 0 ==> !is_space_char(trim_back(s)[trim_back(s).len() - 1]),
    decreases s.len(),
{
    if s.len() > 0 && is_space_char(s[s.len() - 1]) {
        lemma_trim_back_last(s.take(s.len() - 1));
    }
}

proof fn lemma_trim_back_first(s: Seq<char>)
    ensures
        trim_back(s).len() > 0 ==> s.len() > 0 && trim_back(s)[0] == s[0],
    decreases s.len(),
{
    if s.len() > 0 && is_space_char(s[s.len() - 1]) {
        lemma_trim_back_first(s.take(s.len() - 1));
    }
}

/// Normalization is idempotent: a string in normal form stays itself.
pub proof fn lemma_normalize_idempotent(s: Seq<char>)
    ensures
        spec_normalize(spec_normalize(s)) == spec_normalize(s),
{
    let t = trim_back(trim_front(s));
    let r = underscored(t);
    lemma_trim_front_first(s);
    lemma_trim_back_first(trim_front(s));
    lemma_trim_back_last(trim_front(s));
    if r.len() > 0 {
        assert(r[0] == (if t[0] == ' ' {
            '_'
        } else {
            t[0]
        }));
        assert(!is_space_char(r[0]));
        let e = r.len() - 1;
        assert(r[e] == (if t[e] == ' ' {
            '_'
        } else {
            t[e]
        }));
        assert(!is_space_char(r[e]));
    }
    assert(trim_front(r) == r);
    assert(trim_back(r) == r);
    assert forall|i: int| 0 <= i < r.len() implies #[trigger] r[i] != ' ' by {
        assert(r[i] == (if t[i] == ' ' {
            '_'
        } else {
            t[i]
        }));
    }
    assert(underscored(r) =~= r);
}

/// The laws of title-casing: the empty string titles to the empty string, a
/// string led by a non-ASCII character titles to the empty string, and
/// title-casing twice gives the same result as title-casing once.
pub proof fn lemma_title_laws(s: Seq<char>)
    ensures
        spec_title(Seq::<char>::empty()) == Seq::<char>::empty(),
        s.len() > 0 && !('\0' <= s[0] <= '\u{7f}') ==> spec_title(s) == Seq::<char>::empty(),
        spec_title(spec_title(s)) == spec_title(s),
{
    assert(spec_title(Seq::<char>::empty()) =~= Seq::<char>::empty());
    if s.len() > 0 && !('\0' <= s[0] <= '\u{7f}') {
        assert(!is_ascii_chars(s));
    }
    if s.len() == 0 || !is_ascii_chars(s) {
        assert(spec_title(s) == Seq::<char>::empty());
        assert(spec_title(spec_title(s)) =~= spec_title(s));
    } else {
        let t = spec_title(s);
        assert(t[0] == upper_char(s[0]));
        assert('\0' <= upper_char(s[0]) <= '\u{7f}');
        assert forall|k: int| 0 <= k < t.len() implies '\0' <= #[trigger] t[k] <= '\u{7f}' by {
            if k > 0 {
                assert(t[k] == s[k]);
            }
        }
        assert(is_ascii_chars(t));
        assert(upper_char(upper_char(s[0])) == upper_char(s[0]));
        assert(spec_title(t) =~= t);
    }
}

} // verus!
