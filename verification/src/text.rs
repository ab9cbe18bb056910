//! Text as sequences of characters: case-insensitive comparison, ordering, searching, decimals.

use vstd::prelude::*;

verus! {

/// Appends one character at the end of the string.
pub assume_specification[ String::push ](s: &mut String, c: char)
    ensures
        final(s)@ == old(s)@.push(c),
;

/// The code point of `c`, with the 26 ASCII capitals moved onto their small letters.
pub open spec fn folded(c: char) -> int {
    if 'A' <= c && c <= 'Z' {
        c as int + 32
    } else {
        c as int
    }
}

/// Two texts that differ at most in the case of ASCII letters.
pub open spec fn same_ignoring_case(a: Seq<char>, b: Seq<char>) -> bool {
    &&& a.len() == b.len()
    &&& forall|i: int| 0 <= i < a.len() ==> folded(#[trigger] a[i]) == folded(b[i])
}

/// The characters of a string, in order.
pub fn chars_of(s: &str) -> (r: Vec<char>)
    ensures
        r@ == s@,
{
    let mut out: Vec<char> = Vec::new();
    for c in it: s.chars()
        invariant
            out@ == s@.take(it.index()),
            it.seq() == s@,
    {
        assert(s@.take(it.index() + 1) == s@.take(it.index()).push(c));
        out.push(c);
    }
    assert(s@.take(s@.len() as int) == s@);
    out
}

/// The number of a character.
pub fn code_point(c: char) -> (r: u32)
    ensures
        r == c as int,
{
    c as u32
}

fn fold(c: char) -> (r: u32)
    ensures
        r == folded(c),
{
    let n: u32 = c as u32;
    if 65 <= n && n <= 90 {
        n + 32
    } else {
        n
    }
}

/// Whether two names are equal up to the case of ASCII letters.
pub fn eq_ignore_ascii_case(a: &str, b: &str) -> (r: bool)
    ensures
        r == same_ignoring_case(a@, b@),
{
    let x = chars_of(a);
    let y = chars_of(b);
    if x.len() != y.len() {
        return false;
    }
    let mut i: usize = 0;
    while i < x.len()
        invariant
            i <= x.len(),
            x.len() == y.len(),
            x@ == a@,
            y@ == b@,
            forall|j: int| 0 <= j < i ==> folded(#[trigger] x@[j]) == folded(y@[j]),
        decreases x.len() - i,
    {
        if fold(x[i]) != fold(y[i]) {
            assert(folded(a@[i as int]) != folded(b@[i as int]));
            return false;
        }
        i = i + 1;
    }
    true
}

pub open spec fn digit(n: int) -> char {
    (48 + n) as char
}

/// `n` written in base ten, without leading zeros.
pub open spec fn decimal_text(n: nat) -> Seq<char>
    decreases n,
{
    if n < 10 {
        seq![digit(n as int)]
    } else {
        decimal_text(n / 10).push(digit((n % 10) as int))
    }
}

/// A count as the user reads it.
pub fn decimal(n: usize) -> (r: String)
    ensures
        r@ == decimal_text(n as nat),
    decreases n,
{
    let d: u8 = (n % 10) as u8;
    let c: char = (48 + d) as char;
    let mut s = if n < 10 {
        String::new()
    } else {
        decimal(n / 10)
    };
    s.push(c);
    s
}

/// The three pieces joined into one text.
pub fn joined(a: &str, b: &str, c: &str) -> (r: String)
    ensures
        r@ == a@ + b@ + c@,
{
    let mut s = String::new();
    s.append(a);
    s.append(b);
    s.append(c);
    assert(s@ == a@ + b@ + c@);
    s
}

pub open spec fn ends_with(s: Seq<char>, suffix: Seq<char>) -> bool {
    suffix.len() <= s.len() && s.skip(s.len() - suffix.len()) == suffix
}

/// `s` without `suffix` at its end, or `s` itself where it does not end so.
pub open spec fn without_suffix(s: Seq<char>, suffix: Seq<char>) -> Seq<char> {
    if ends_with(s, suffix) {
        s.take(s.len() - suffix.len())
    } else {
        s
    }
}

/// What stands behind the last character of this sort, or everything where there is none.
pub open spec fn behind_last(s: Seq<char>, sort: spec_fn(char) -> bool) -> Seq<char>
    decreases s.len(),
{
    if s.len() == 0 || sort(s.last()) {
        Seq::empty()
    } else {
        behind_last(s.drop_last(), sort).push(s.last())
    }
}

/// Whether `needle` occurs in `hay` from position `at` on.
pub open spec fn occurs_at(hay: Seq<char>, needle: Seq<char>, at: int) -> bool {
    &&& 0 <= at <= hay.len() - needle.len()
    &&& hay.subrange(at, at + needle.len()) == needle
}

pub open spec fn contains_text(hay: Seq<char>, needle: Seq<char>) -> bool {
    exists|at: int| occurs_at(hay, needle, at)
}

/// Whether the characters of `needle` stand in `hay` from `at` on.
fn matches_at(hay: &Vec<char>, needle: &Vec<char>, at: usize) -> (r: bool)
    requires
        at + needle.len() <= hay.len(),
    ensures
        r == occurs_at(hay@, needle@, at as int),
{
    let mut i: usize = 0;
    while i < needle.len()
        invariant
            i <= needle.len(),
            at + needle.len() <= hay.len(),
            forall|j: int| 0 <= j < i ==> hay@[at + j] == #[trigger] needle@[j],
        decreases needle.len() - i,
    {
        if hay[at + i] != needle[i] {
            assert(hay@.subrange(at as int, at + needle@.len())[i as int] != needle@[i as int]);
            return false;
        }
        i = i + 1;
    }
    assert(hay@.subrange(at as int, at + needle@.len()) == needle@);
    true
}

/// Whether `needle` occurs somewhere in `hay`.
pub fn contains(hay: &str, needle: &str) -> (r: bool)
    ensures
        r == contains_text(hay@, needle@),
{
    let h = chars_of(hay);
    let n = chars_of(needle);
    if n.len() > h.len() {
        return false;
    }
    let last: usize = h.len() - n.len();
    let mut at: usize = 0;
    while at < last
        invariant
            at <= last,
            last == h.len() - n.len(),
            h@ == hay@,
            n@ == needle@,
            forall|k: int| 0 <= k < at ==> !occurs_at(hay@, needle@, k),
        decreases last - at,
    {
        if matches_at(&h, &n, at) {
            return true;
        }
        at = at + 1;
    }
    matches_at(&h, &n, last)
}

/// `s` with `suffix` taken off its end, where it is there.
pub fn strip_suffix(s: &str, suffix: &str) -> (r: String)
    ensures
        r@ == without_suffix(s@, suffix@),
{
    let h = chars_of(s);
    let n = chars_of(suffix);
    if n.len() <= h.len() {
        let at: usize = h.len() - n.len();
        let found = matches_at(&h, &n, at);
        assert(s@.subrange(at as int, at + suffix@.len()) == s@.skip(at as int));
        if found {
            return s.substring_char(0, at).to_owned();
        }
    }
    s.to_owned()
}

/// Where the last dot stands, or -1 where there is none.
pub open spec fn last_dot(s: Seq<char>) -> int
    decreases s.len(),
{
    if s.len() == 0 {
        -1
    } else if s.last() == '.' {
        s.len() - 1
    } else {
        last_dot(s.drop_last())
    }
}

/// A file name without its extension: what stands before the last dot, or the whole name where
/// it has no dot but at its beginning.
pub open spec fn stem_text(name: Seq<char>) -> Seq<char> {
    if last_dot(name) > 0 {
        name.take(last_dot(name))
    } else {
        name
    }
}

/// A file name without its extension.
pub fn stem(name: &str) -> (r: String)
    ensures
        r@ == stem_text(name@),
{
    let chars = chars_of(name);
    let mut i: usize = chars.len();
    assert(name@.take(i as int) == name@);
    while i > 0
        invariant
            i <= chars.len(),
            chars@ == name@,
            last_dot(name@) == last_dot(name@.take(i as int)),
        decreases i,
    {
        i = i - 1;
        assert(name@.take(i + 1).drop_last() == name@.take(i as int));
        if chars[i] == '.' {
            if i > 0 {
                return name.substring_char(0, i).to_owned();
            }
            return name.to_owned();
        }
    }
    name.to_owned()
}

/// `a` comes strictly before `b` in dictionary order of code points.
pub open spec fn precedes(a: Seq<char>, b: Seq<char>) -> bool {
    exists|k: int| differ_at(a, b, k)
}

/// `a` and `b` agree on their first `k` characters, and there `a` ends or has the smaller one.
pub open spec fn differ_at(a: Seq<char>, b: Seq<char>, k: int) -> bool {
    &&& 0 <= k <= a.len()
    &&& k < b.len()
    &&& forall|i: int| 0 <= i < k ==> a[i] == #[trigger] b[i]
    &&& k < a.len() ==> a[k] < b[k]
}

/// How two texts stand in dictionary order.
#[derive(Clone, Copy, Debug, PartialEq, Eq, Structural)]
pub enum Rank {
    Before,
    Same,
    After,
}

/// Compares two texts by their code points, which is how their UTF-8 bytes compare too.
pub fn rank(a: &str, b: &str) -> (r: Rank)
    ensures
        r == Rank::Before <==> precedes(a@, b@),
        r == Rank::Same <==> a@ == b@,
        r == Rank::After <==> precedes(b@, a@),
{
    let x = chars_of(a);
    let y = chars_of(b);
    let mut i: usize = 0;
    while i < x.len() && i < y.len() && x[i] == y[i]
        invariant
            i <= x.len(),
            i <= y.len(),
            x@ == a@,
            y@ == b@,
            forall|j: int| 0 <= j < i ==> x@[j] == #[trigger] y@[j],
        decreases x.len() - i,
    {
        i = i + 1;
    }
    proof {
        lemma_precedes_excludes(a@, b@);
    }
    if i == x.len() && i == y.len() {
        assert(a@ == b@);
        Rank::Same
    } else if i == x.len() {
        assert(differ_at(a@, b@, i as int));
        Rank::Before
    } else if i == y.len() {
        assert(differ_at(b@, a@, i as int));
        Rank::After
    } else if code_point(x[i]) < code_point(y[i]) {
        assert(differ_at(a@, b@, i as int));
        Rank::Before
    } else {
        assert(differ_at(b@, a@, i as int));
        Rank::After
    }
}

/// What stands behind a character stands at the end.
pub proof fn lemma_behind_last_ends(s: Seq<char>, sort: spec_fn(char) -> bool)
    ensures
        ends_with(s, behind_last(s, sort)),
    decreases s.len(),
{
    if s.len() > 0 && !sort(s.last()) {
        let rest = s.drop_last();
        lemma_behind_last_ends(rest, sort);
        let tail = behind_last(rest, sort);
        assert(s.skip(s.len() - (tail.len() + 1)) == rest.skip(rest.len() - tail.len()).push(
            s.last(),
        ));
    } else {
        assert(s.skip(s.len() as int) == Seq::<char>::empty());
    }
}

/// What stands behind the last character of a sort holds none of them, and that character, where
/// there is one, stands right before it.
pub proof fn law_behind_last(s: Seq<char>, sort: spec_fn(char) -> bool)
    ensures
        ({
            let tail = behind_last(s, sort);
            let at = s.len() - tail.len();
            &&& ends_with(s, tail)
            &&& forall|i: int| 0 <= i < tail.len() ==> !sort(#[trigger] tail[i])
            &&& at > 0 ==> sort(s[at - 1])
        }),
    decreases s.len(),
{
    lemma_behind_last_ends(s, sort);
    if s.len() > 0 && !sort(s.last()) {
        let rest = s.drop_last();
        law_behind_last(rest, sort);
        let tail = behind_last(rest, sort);
        assert(behind_last(s, sort) == tail.push(s.last()));
    }
}

/// Only the last part of a text counts for what stands behind, where it holds such a character.
pub proof fn lemma_behind_last_joined(a: Seq<char>, b: Seq<char>, sort: spec_fn(char) -> bool)
    requires
        a.len() == 0 || sort(a.last()),
    ensures
        behind_last(a + b, sort) == behind_last(b, sort),
    decreases b.len(),
{
    if b.len() == 0 {
        assert(a + b == a);
    } else {
        assert((a + b).drop_last() == a + b.drop_last());
        if !sort(b.last()) {
            lemma_behind_last_joined(a, b.drop_last(), sort);
        }
    }
}

/// The end of an end is an end, and two texts that end in each other are the same.
pub proof fn lemma_ends_with_order(a: Seq<char>, b: Seq<char>, c: Seq<char>)
    requires
        ends_with(a, b),
        ends_with(b, c),
    ensures
        ends_with(a, c),
        a == c ==> a == b,
{
    assert(a.skip(a.len() - c.len()) == a.skip(a.len() - b.len()).skip(b.len() - c.len()));
    if a == c {
        assert(a.skip(0) == a);
    }
}

/// No text comes both before and after another, nor before itself.
pub proof fn lemma_precedes_excludes(a: Seq<char>, b: Seq<char>)
    ensures
        !(precedes(a, b) && precedes(b, a)),
        !precedes(a, a),
        !precedes(b, b),
{
    if precedes(a, b) && precedes(b, a) {
        let k = choose|k: int| differ_at(a, b, k);
        let m = choose|m: int| differ_at(b, a, m);
        assert(k < b.len() && m < a.len());
        if k < m {
            assert(b[k] == a[k]);
        } else if m < k {
            assert(a[m] == b[m]);
        }
    }
}

/// Dictionary order can be chained.
pub proof fn law_precedes_transitive(a: Seq<char>, b: Seq<char>, c: Seq<char>)
    requires
        precedes(a, b),
        precedes(b, c),
    ensures
        precedes(a, c),
{
    let k = choose|k: int| differ_at(a, b, k);
    let m = choose|m: int| differ_at(b, c, m);
    let l = if k <= m { k } else { m };
    assert forall|i: int| 0 <= i < l implies a[i] == #[trigger] c[i] by {
        assert(b[i] == c[i]);
        assert(a[i] == b[i]);
    }
    if k < m {
        assert(b[k] == c[k]);
    } else if m < k {
        assert(a[m] == b[m]);
    }
    assert(differ_at(a, c, l));
}

/// Of two different texts one comes before the other, and only one.
pub proof fn law_precedes_total(a: Seq<char>, b: Seq<char>)
    requires
        a != b,
    ensures
        precedes(a, b) != precedes(b, a),
    decreases a.len(),
{
    lemma_precedes_excludes(a, b);
    if a.len() == 0 {
        if b.len() == 0 {
            assert(a == b);
        }
        assert(differ_at(a, b, 0));
    } else if b.len() == 0 {
        assert(differ_at(b, a, 0));
    } else if a[0] != b[0] {
        if a[0] < b[0] {
            assert(differ_at(a, b, 0));
        } else {
            assert(differ_at(b, a, 0));
        }
    } else {
        let x = a.skip(1);
        let y = b.skip(1);
        if x == y {
            assert(a == seq![a[0]] + x);
            assert(b == seq![b[0]] + y);
        }
        law_precedes_total(x, y);
        if precedes(x, y) {
            let k = choose|k: int| differ_at(x, y, k);
            assert forall|i: int| 0 <= i < k + 1 implies a[i] == #[trigger] b[i] by {
                if i > 0 {
                    assert(x[i - 1] == y[i - 1]);
                }
            }
            assert(differ_at(a, b, k + 1));
        } else {
            let k = choose|k: int| differ_at(y, x, k);
            assert forall|i: int| 0 <= i < k + 1 implies b[i] == #[trigger] a[i] by {
                if i > 0 {
                    assert(y[i - 1] == x[i - 1]);
                }
            }
            assert(differ_at(b, a, k + 1));
        }
    }
}

/// Comparing without regard to case is an equivalence: every text matches itself, and
/// matching works both ways and can be chained.
pub proof fn law_same_ignoring_case_equivalence(a: Seq<char>, b: Seq<char>, c: Seq<char>)
    ensures
        same_ignoring_case(a, a),
        same_ignoring_case(a, b) ==> same_ignoring_case(b, a),
        same_ignoring_case(a, b) && same_ignoring_case(b, c) ==> same_ignoring_case(a, c),
{
    if same_ignoring_case(a, b) {
        assert forall|i: int| 0 <= i < b.len() implies folded(#[trigger] b[i]) == folded(a[i]) by {
            assert(folded(a[i]) == folded(b[i]));
        }
        if same_ignoring_case(b, c) {
            assert forall|i: int| 0 <= i < a.len() implies folded(#[trigger] a[i]) == folded(
                c[i],
            ) by {
                assert(folded(b[i]) == folded(c[i]));
            }
        }
    }
}

/// Texts match without regard to case exactly where they are as long as each other and each
/// character is the same, or the capital or small letter of the same one of the 26.
pub proof fn law_case_is_ignored(a: Seq<char>, b: Seq<char>, x: char, y: char)
    ensures
        same_ignoring_case(seq![x], seq![y]) <==> x == y || ('A' <= x <= 'Z' && y as int == x as int
            + 32) || ('A' <= y <= 'Z' && x as int == y as int + 32),
        same_ignoring_case(a.push(x), b.push(y)) <==> same_ignoring_case(a, b)
            && same_ignoring_case(seq![x], seq![y]),
        same_ignoring_case(a, b) ==> a.len() == b.len(),
        same_ignoring_case(Seq::empty(), Seq::empty()),
{
    let (p, q) = (a.push(x), b.push(y));
    let (s, t) = (seq![x], seq![y]);
    if same_ignoring_case(s, t) {
        assert(folded(s[0]) == folded(t[0]));
    }
    if same_ignoring_case(p, q) {
        assert forall|i: int| 0 <= i < a.len() implies folded(#[trigger] a[i]) == folded(b[i]) by {
            assert(folded(p[i]) == folded(q[i]));
        }
        assert(folded(p[a.len() as int]) == folded(q[a.len() as int]));
    }
    if same_ignoring_case(a, b) && same_ignoring_case(s, t) {
        assert forall|i: int| 0 <= i < p.len() implies folded(#[trigger] p[i]) == folded(q[i]) by {
            if i < a.len() {
                assert(folded(a[i]) == folded(b[i]));
            }
        }
    }
}

/// The number that a text of digits stands for.
pub open spec fn read_decimal(s: Seq<char>) -> int
    decreases s.len(),
{
    if s.len() == 0 {
        0
    } else {
        10 * read_decimal(s.drop_last()) + (s.last() as int - 48)
    }
}

/// A count is written in digits only, without leading zeros, and reads back as the same count.
pub proof fn law_decimal_reads_back(n: nat)
    ensures
        read_decimal(decimal_text(n)) == n,
        decimal_text(n).len() > 0,
        forall|i: int| 0 <= i < decimal_text(n).len() ==> '0' <= #[trigger] decimal_text(n)[i] <= '9',
        n > 0 ==> decimal_text(n)[0] != '0',
        n == 0 ==> decimal_text(n).len() == 1,
    decreases n,
{
    let s = decimal_text(n);
    if n < 10 {
        assert(s.drop_last() == Seq::<char>::empty());
        assert(s.last() as int == 48 + n);
        assert(read_decimal(s.drop_last()) == 0);
    } else {
        law_decimal_reads_back(n / 10);
        assert(s.drop_last() == decimal_text(n / 10));
        assert(s.last() as int == 48 + n % 10);
        assert(s[0] == decimal_text(n / 10)[0]);
    }
}

/// A suffix comes off exactly where it is.
pub proof fn law_suffix_comes_off(s: Seq<char>, suffix: Seq<char>)
    ensures
        without_suffix(s + suffix, suffix) == s,
        (forall|t: Seq<char>| s != #[trigger] (t + suffix)) ==> without_suffix(s, suffix) == s,
{
    assert((s + suffix).skip((s + suffix).len() - suffix.len()) == suffix);
    assert((s + suffix).take((s + suffix).len() - suffix.len()) == s);
    if ends_with(s, suffix) {
        let t = s.take(s.len() - suffix.len());
        assert(t + suffix == s);
    }
}

/// A text occurs in another exactly where that is something, then the text, then something.
pub proof fn law_contains_pieces(a: Seq<char>, b: Seq<char>, c: Seq<char>, hay: Seq<char>)
    ensures
        contains_text(a + b + c, b),
        contains_text(hay, b) ==> exists|x: Seq<char>, y: Seq<char>| hay == #[trigger] (x + b + y),
{
    let whole = a + b + c;
    assert(whole.subrange(a.len() as int, (a.len() + b.len()) as int) == b);
    assert(occurs_at(whole, b, a.len() as int));
    if contains_text(hay, b) {
        let at = choose|at: int| occurs_at(hay, b, at);
        let x = hay.take(at);
        let y = hay.skip(at + b.len());
        assert(hay == x + b + y);
    }
}

proof fn lemma_last_dot(s: Seq<char>, rest: Seq<char>)
    requires
        !rest.contains('.'),
    ensures
        last_dot(s + rest) == last_dot(s),
    decreases rest.len(),
{
    if rest.len() == 0 {
        assert(s + rest == s);
    } else {
        assert(rest.contains(rest.last()));
        assert((s + rest).drop_last() == s + rest.drop_last());
        assert forall|c: char| #[trigger] rest.drop_last().contains(c) implies rest.contains(c) by {
            let i = choose|i: int| 0 <= i < rest.drop_last().len() && rest.drop_last()[i] == c;
            assert(rest[i] == c);
        }
        lemma_last_dot(s, rest.drop_last());
    }
}

/// A file name is shown without its last dot and what follows, unless nothing would be left, and
/// whole where it has no dot.
pub proof fn law_stem_drops_extension(name: Seq<char>, extension: Seq<char>)
    requires
        !extension.contains('.'),
    ensures
        name.len() > 0 ==> stem_text(name.push('.') + extension) == name,
        stem_text(seq!['.'] + extension) == seq!['.'] + extension,
        stem_text(extension) == extension,
{
    let whole = name.push('.') + extension;
    lemma_last_dot(name.push('.'), extension);
    assert(whole.take(name.len() as int) == name);
    lemma_last_dot(seq!['.'], extension);
    lemma_last_dot(Seq::empty(), extension);
    assert(Seq::<char>::empty() + extension == extension);
}

/// Dictionary order goes by the first difference: the smaller character comes first, and a text
/// comes before all that go on from it.
pub proof fn law_precedes_by_first_difference(
    same: Seq<char>,
    x: char,
    y: char,
    s: Seq<char>,
    t: Seq<char>,
)
    ensures
        x < y ==> precedes(same.push(x) + s, same.push(y) + t),
        precedes(same, same.push(x) + s),
{
    let k = same.len() as int;
    if x < y {
        assert(differ_at(same.push(x) + s, same.push(y) + t, k));
    }
    assert(differ_at(same, same.push(x) + s, k));
}

} // verus!
