//! Character classes and the string transformations built on them.

use vstd::prelude::*;

verus! {

/// The Unicode `White_Space` property.
pub open spec fn white_space(c: char) -> bool {
    let u = c as u32;
    ||| 0x09 <= u <= 0x0D
    ||| u == 0x20
    ||| u == 0x85
    ||| u == 0xA0
    ||| u == 0x1680
    ||| 0x2000 <= u <= 0x200A
    ||| u == 0x2028
    ||| u == 0x2029
    ||| u == 0x202F
    ||| u == 0x205F
    ||| u == 0x3000
}

/// The Unicode general category `Cc` (control codes).
pub open spec fn control_char(c: char) -> bool {
    let u = c as u32;
    u <= 0x1F || (0x7F <= u && u <= 0x9F)
}

/// Whether `c` is Unicode white space.
pub fn is_white_space(c: char) -> (b: bool)
    ensures
        b == white_space(c),
{
    let u = c as u32;
    (0x09 <= u && u <= 0x0D) || u == 0x20 || u == 0x85 || u == 0xA0 || u == 0x1680
        || (0x2000 <= u && u <= 0x200A) || u == 0x2028 || u == 0x2029 || u == 0x202F
        || u == 0x205F || u == 0x3000
}

/// Whether `c` is a control code.
pub fn is_control(c: char) -> (b: bool)
    ensures
        b == control_char(c),
{
    let u = c as u32;
    u <= 0x1F || (0x7F <= u && u <= 0x9F)
}

/// The characters of `s`, in order.
pub fn chars_of(s: &str) -> (v: Vec<char>)
    ensures
        v@ == s@,
{
    let mut v: Vec<char> = Vec::new();
    for c in it: s.chars()
        invariant
            it.seq() == s@,
            v@ == it.seq().take(it.index()),
    {
        v.push(c);
    }
    v
}


/// `s` without its leading white space.
pub open spec fn trim_start(s: Seq<char>) -> Seq<char>
    decreases s.len(),
{
    if s.len() > 0 && white_space(s[0]) {
        trim_start(s.drop_first())
    } else {
        s
    }
}

/// `s` without its trailing white space.
pub open spec fn trim_end(s: Seq<char>) -> Seq<char>
    decreases s.len(),
{
    if s.len() > 0 && white_space(s.last()) {
        trim_end(s.drop_last())
    } else {
        s
    }
}

/// `s` without leading and trailing white space.
pub open spec fn trim(s: Seq<char>) -> Seq<char> {
    trim_end(trim_start(s))
}

/// The bounds `(a, b)` such that `v[a..b]` is `v` trimmed of white space.
pub fn trim_bounds(v: &Vec<char>) -> (r: (usize, usize))
    ensures
        r.0 <= r.1 <= v.len(),
        v@.subrange(r.0 as int, r.1 as int) == trim(v@),
{
    let n = v.len();
    let mut a: usize = 0;
    assert(v@.subrange(0, n as int) =~= v@);
    while a < n && is_white_space(v[a])
        invariant
            a <= n == v.len(),
            trim_start(v@.subrange(a as int, n as int)) == trim_start(v@),
        decreases n - a,
    {
        assert(v@.subrange(a as int, n as int).drop_first() =~= v@.subrange(a + 1, n as int));
        a = a + 1;
    }
    let mut b: usize = n;
    while b > a && is_white_space(v[b - 1])
        invariant
            a <= b <= n == v.len(),
            trim_end(v@.subrange(a as int, b as int)) == trim(v@),
        decreases b,
    {
        assert(v@.subrange(a as int, b as int).drop_last() =~= v@.subrange(a as int, b - 1));
        b = b - 1;
    }
    (a, b)
}

/// The characters of `s` trimmed of leading and trailing white space.
pub fn trimmed_chars(s: &str) -> (v: Vec<char>)
    ensures
        v@ == trim(s@),
{
    let all = chars_of(s);
    let (a, b) = trim_bounds(&all);
    let mut v: Vec<char> = Vec::new();
    let mut i = a;
    while i < b
        invariant
            a <= i <= b <= all.len(),
            v@ == all@.subrange(a as int, i as int),
        decreases b - i,
    {
        v.push(all[i]);
        assert(all@.subrange(a as int, i + 1) =~= all@.subrange(a as int, i as int).push(all@[i as int]));
        i = i + 1;
    }
    v
}


/// `s` with its control characters left out.
pub open spec fn without_controls(s: Seq<char>) -> Seq<char>
    decreases s.len(),
{
    if s.len() == 0 {
        s
    } else if control_char(s.last()) {
        without_controls(s.drop_last())
    } else {
        without_controls(s.drop_last()).push(s.last())
    }
}

/// The first `n` characters of `s`, or all of `s` where it is shorter.
pub open spec fn first_chars(s: Seq<char>, n: nat) -> Seq<char> {
    if s.len() <= n {
        s
    } else {
        s.take(n as int)
    }
}

/// `s` trimmed, without control characters, cut to at most `max` characters.
pub open spec fn compacted(s: Seq<char>, max: nat) -> Seq<char> {
    first_chars(without_controls(trim(s)), max)
}

/// Appends `c` to `s` (`String::push`).
#[verifier::external_body]
pub(crate) fn push_char(s: &mut String, c: char)
    ensures
        final(s)@ == old(s)@.push(c),
{
    s.push(c);
}

/// Trims `value`, drops its control characters and keeps at most
/// `max_chars` of what is left.
pub fn compact(value: &str, max_chars: usize) -> (r: String)
    ensures
        r@ == compacted(value@, max_chars as nat),
{
    let t = trimmed_chars(value);
    let mut out = String::new();
    let mut count: usize = 0;
    let mut i: usize = 0;
    while i < t.len()
        invariant
            i <= t.len(),
            t@ == trim(value@),
            out@ == first_chars(without_controls(t@.take(i as int)), max_chars as nat),
            count == out@.len(),
            count <= max_chars,
        decreases t.len() - i,
    {
        let c = t[i];
        let ghost w = without_controls(t@.take(i as int));
        assert(t@.take(i + 1).drop_last() =~= t@.take(i as int));
        assert(t@.take(i + 1).last() == c);
        if !is_control(c) {
            assert(without_controls(t@.take(i + 1)) == w.push(c));
            if count < max_chars {
                push_char(&mut out, c);
                count = count + 1;
            } else {
                assert(w.push(c).take(max_chars as int) =~= first_chars(w, max_chars as nat));
            }
        }
        i = i + 1;
    }
    assert(t@.take(t.len() as int) =~= t@);
    out
}


/// The code of `c` with ASCII upper-case letters mapped to lower case.
pub open spec fn ascii_folded(c: char) -> int {
    let u = c as u32;
    if 0x41 <= u <= 0x5A {
        u + 32
    } else {
        u as int
    }
}

/// `a` and `b` are equal up to the case of ASCII letters.
pub open spec fn eq_ignoring_ascii_case(a: Seq<char>, b: Seq<char>) -> bool {
    &&& a.len() == b.len()
    &&& forall|i: int| 0 <= i < a.len() ==> #[trigger] ascii_folded(a[i]) == ascii_folded(b[i])
}

/// Whether `a` and `b` are equal up to the case of ASCII letters.
pub fn chars_eq_ignoring_ascii_case(a: &Vec<char>, b: &Vec<char>) -> (r: bool)
    ensures
        r == eq_ignoring_ascii_case(a@, b@),
{
    if a.len() != b.len() {
        return false;
    }
    let mut i: usize = 0;
    while i < a.len()
        invariant
            i <= a.len() == b.len(),
            forall|j: int| 0 <= j < i ==> #[trigger] ascii_folded(a@[j]) == ascii_folded(b@[j]),
        decreases a.len() - i,
    {
        let x = a[i] as u32;
        let y = b[i] as u32;
        let fx: u32 = if 0x41 <= x && x <= 0x5A { x + 32 } else { x };
        let fy: u32 = if 0x41 <= y && y <= 0x5A { y + 32 } else { y };
        if fx != fy {
            assert(ascii_folded(a@[i as int]) != ascii_folded(b@[i as int]));
            return false;
        }
        i = i + 1;
    }
    true
}


/// No character of `s` is a control character.
pub open spec fn free_of_controls(s: Seq<char>) -> bool {
    forall|i: int| 0 <= i < s.len() ==> !control_char(#[trigger] s[i])
}

proof fn lemma_without_controls_free(s: Seq<char>)
    ensures
        free_of_controls(without_controls(s)),
        without_controls(s).len() <= s.len(),
    decreases s.len(),
{
    if s.len() > 0 {
        lemma_without_controls_free(s.drop_last());
    }
}

proof fn lemma_without_controls_keeps_free(s: Seq<char>)
    requires
        free_of_controls(s),
    ensures
        without_controls(s) == s,
    decreases s.len(),
{
    if s.len() > 0 {
        assert(free_of_controls(s.drop_last()));
        lemma_without_controls_keeps_free(s.drop_last());
        assert(s.drop_last().push(s.last()) =~= s);
    }
}

/// Normalized text has at most `max` characters and no control characters.
pub proof fn lemma_compacted_shape(s: Seq<char>, max: nat)
    ensures
        compacted(s, max).len() <= max,
        free_of_controls(compacted(s, max)),
{
    lemma_without_controls_free(trim(s));
}

/// Text that has no surrounding white space, no control characters and at
/// most `max` characters is left as it is.
pub proof fn lemma_compacted_keeps_clean(s: Seq<char>, max: nat)
    requires
        trim(s) == s,
        free_of_controls(s),
        s.len() <= max,
    ensures
        compacted(s, max) == s,
{
    lemma_without_controls_keeps_free(s);
}

/// Normalizing twice gives what normalizing once gave, wherever the first
/// result has no surrounding white space.
pub proof fn lemma_compacted_twice(s: Seq<char>, max: nat)
    requires
        trim(compacted(s, max)) == compacted(s, max),
    ensures
        compacted(compacted(s, max), max) == compacted(s, max),
{
    lemma_compacted_shape(s, max);
    lemma_compacted_keeps_clean(compacted(s, max), max);
}

/// Equality up to ASCII case is an equivalence.
pub proof fn lemma_eq_ignoring_ascii_case_equivalence(a: Seq<char>, b: Seq<char>, c: Seq<char>)
    ensures
        eq_ignoring_ascii_case(a, a),
        eq_ignoring_ascii_case(a, b) ==> eq_ignoring_ascii_case(b, a),
        eq_ignoring_ascii_case(a, b) && eq_ignoring_ascii_case(b, c) ==> eq_ignoring_ascii_case(a, c),
{
    if eq_ignoring_ascii_case(a, b) && eq_ignoring_ascii_case(b, c) {
        assert forall|i: int| 0 <= i < a.len() implies #[trigger] ascii_folded(a[i]) == ascii_folded(c[i]) by {
            assert(ascii_folded(a[i]) == ascii_folded(b[i]));
            assert(ascii_folded(b[i]) == ascii_folded(c[i]));
        }
    }
}


/// `c` is an ASCII upper-case letter.
pub open spec fn ascii_upper(c: char) -> bool {
    0x41 <= c as u32 && c as u32 <= 0x5A
}

/// Two texts are equal up to ASCII case exactly when they have the same
/// length and, at each position, the same character, or an ASCII upper-case
/// letter facing its own lower-case letter.
pub proof fn lemma_eq_ignoring_ascii_case_letterwise(a: Seq<char>, b: Seq<char>)
    ensures
        eq_ignoring_ascii_case(a, b) <==> {
            &&& a.len() == b.len()
            &&& forall|i: int| #![trigger a[i]] 0 <= i < a.len() ==> {
                ||| a[i] as u32 == b[i] as u32
                ||| ascii_upper(a[i]) && b[i] as u32 == a[i] as u32 + 32
                ||| ascii_upper(b[i]) && a[i] as u32 == b[i] as u32 + 32
            }
        },
{
    if eq_ignoring_ascii_case(a, b) {
        assert forall|i: int| #![trigger a[i]] 0 <= i < a.len() implies {
            ||| a[i] as u32 == b[i] as u32
            ||| ascii_upper(a[i]) && b[i] as u32 == a[i] as u32 + 32
            ||| ascii_upper(b[i]) && a[i] as u32 == b[i] as u32 + 32
        } by {
            assert(ascii_folded(a[i]) == ascii_folded(b[i]));
        }
    }
    if a.len() == b.len() && forall|i: int| #![trigger a[i]] 0 <= i < a.len() ==> {
        ||| a[i] as u32 == b[i] as u32
        ||| ascii_upper(a[i]) && b[i] as u32 == a[i] as u32 + 32
        ||| ascii_upper(b[i]) && a[i] as u32 == b[i] as u32 + 32
    } {
        assert forall|i: int| 0 <= i < a.len() implies #[trigger] ascii_folded(a[i]) == ascii_folded(b[i]) by {
            assert(a[i] as u32 == b[i] as u32 || ascii_upper(a[i]) && b[i] as u32 == a[i] as u32 + 32
                || ascii_upper(b[i]) && a[i] as u32 == b[i] as u32 + 32);
        }
    }
}

/// Trimming keeps a contiguous part of the text and drops only white space
/// around it; what it keeps neither starts nor ends with white space.
pub proof fn lemma_trim_shape(s: Seq<char>)
    ensures
        exists|a: int, b: int| {
            &&& 0 <= a <= b <= s.len()
            &&& #[trigger] s.subrange(a, b) == trim(s)
            &&& forall|i: int| 0 <= i < a ==> white_space(#[trigger] s[i])
            &&& forall|i: int| b <= i < s.len() ==> white_space(#[trigger] s[i])
        },
        trim(s).len() > 0 ==> !white_space(trim(s)[0]) && !white_space(trim(s).last()),
{
    lemma_trim_start_shape(s);
    let a = s.len() - trim_start(s).len();
    let t = trim_start(s);
    lemma_trim_end_shape(t);
    let b = a + trim_end(t).len();
    assert(s.subrange(a, b) =~= trim(s));
    assert forall|i: int| b <= i < s.len() implies white_space(#[trigger] s[i]) by {
        assert(s[i] == t[i - a]);
    }
    assert(0 <= a <= b <= s.len() && s.subrange(a, b) == trim(s)
        && (forall|i: int| 0 <= i < a ==> white_space(#[trigger] s[i]))
        && (forall|i: int| b <= i < s.len() ==> white_space(#[trigger] s[i])));
}

proof fn lemma_trim_start_shape(s: Seq<char>)
    ensures
        trim_start(s).len() <= s.len(),
        trim_start(s) == s.subrange(s.len() - trim_start(s).len(), s.len() as int),
        forall|i: int| 0 <= i < s.len() - trim_start(s).len() ==> white_space(#[trigger] s[i]),
        trim_start(s).len() > 0 ==> !white_space(trim_start(s)[0]),
    decreases s.len(),
{
    if s.len() > 0 && white_space(s[0]) {
        lemma_trim_start_shape(s.drop_first());
        let k = s.len() - trim_start(s).len();
        assert(s.drop_first().subrange(k - 1, s.len() - 1) =~= s.subrange(k, s.len() as int));
        assert forall|i: int| 0 <= i < k implies white_space(#[trigger] s[i]) by {
            if i > 0 {
                assert(s[i] == s.drop_first()[i - 1]);
            }
        }
    } else {
        assert(s.subrange(0, s.len() as int) =~= s);
    }
}

proof fn lemma_trim_end_shape(s: Seq<char>)
    ensures
        trim_end(s).len() <= s.len(),
        trim_end(s) == s.subrange(0, trim_end(s).len() as int),
        forall|i: int| trim_end(s).len() <= i < s.len() ==> white_space(#[trigger] s[i]),
        trim_end(s).len() > 0 ==> !white_space(trim_end(s).last()),
    decreases s.len(),
{
    if s.len() > 0 && white_space(s.last()) {
        lemma_trim_end_shape(s.drop_last());
        let k = trim_end(s).len();
        assert(s.drop_last().subrange(0, k as int) =~= s.subrange(0, k as int));
        assert forall|i: int| k <= i < s.len() implies white_space(#[trigger] s[i]) by {
            if i < s.len() - 1 {
                assert(s[i] == s.drop_last()[i]);
            }
        }
    } else {
        assert(s.subrange(0, s.len() as int) =~= s);
    }
}

} // verus!
