use vstd::prelude::*;
use vstd::string::*;

verus! {

/// The characters that count as white space: those with the Unicode
/// property White_Space.
pub open spec fn is_whitespace(c: char) -> bool {
    let n = c as u32;
    ||| 0x09 <= n <= 0x0D
    ||| n == 0x20
    ||| n == 0x85
    ||| n == 0xA0
    ||| n == 0x1680
    ||| 0x2000 <= n <= 0x200A
    ||| n == 0x2028
    ||| n == 0x2029
    ||| n == 0x202F
    ||| n == 0x205F
    ||| n == 0x3000
}

/// The number of white space characters at the start of `s`.
pub open spec fn leading_whitespace(s: Seq<char>) -> nat
    decreases s.len(),
{
    if s.len() > 0 && is_whitespace(s[0]) {
        1 + leading_whitespace(s.drop_first())
    } else {
        0
    }
}

/// The number of white space characters at the end of `s`.
pub open spec fn trailing_whitespace(s: Seq<char>) -> nat
    decreases s.len(),
{
    if s.len() > 0 && is_whitespace(s.last()) {
        1 + trailing_whitespace(s.drop_last())
    } else {
        0
    }
}

/// `s` without its leading white space.
pub open spec fn trimmed_start(s: Seq<char>) -> Seq<char> {
    s.skip(leading_whitespace(s) as int)
}

/// `s` without its trailing white space.
pub open spec fn trimmed_end(s: Seq<char>) -> Seq<char> {
    s.take(s.len() - trailing_whitespace(s))
}

/// `s` without its leading and trailing white space.
pub open spec fn trimmed(s: Seq<char>) -> Seq<char> {
    trimmed_end(trimmed_start(s))
}

/// The white space that `leading_whitespace` counts is there, and it ends
/// where the count ends.
pub proof fn lemma_leading_whitespace(s: Seq<char>)
    ensures
        leading_whitespace(s) <= s.len(),
        forall|k: int| 0 <= k < leading_whitespace(s) ==> is_whitespace(#[trigger] s[k]),
        leading_whitespace(s) < s.len() ==> !is_whitespace(s[leading_whitespace(s) as int]),
    decreases s.len(),
{
    if s.len() > 0 && is_whitespace(s[0]) {
        let rest = s.drop_first();
        lemma_leading_whitespace(rest);
        assert forall|k: int| 0 <= k < leading_whitespace(s) implies is_whitespace(
            #[trigger] s[k],
        ) by {
            if k > 0 {
                assert(s[k] == rest[k - 1]);
            }
        }
        if leading_whitespace(s) < s.len() {
            assert(s[leading_whitespace(s) as int] == rest[leading_whitespace(rest) as int]);
        }
    }
}

/// The white space that `trailing_whitespace` counts is there, and it begins
/// where the count begins.
pub proof fn lemma_trailing_whitespace(s: Seq<char>)
    ensures
        trailing_whitespace(s) <= s.len(),
        forall|k: int|
            s.len() - trailing_whitespace(s) <= k < s.len() ==> is_whitespace(#[trigger] s[k]),
        trailing_whitespace(s) < s.len() ==> !is_whitespace(
            s[s.len() - trailing_whitespace(s) - 1],
        ),
    decreases s.len(),
{
    if s.len() > 0 && is_whitespace(s.last()) {
        let rest = s.drop_last();
        lemma_trailing_whitespace(rest);
        assert forall|k: int| s.len() - trailing_whitespace(s) <= k < s.len() implies is_whitespace(
            #[trigger] s[k],
        ) by {
            if k < s.len() - 1 {
                assert(s[k] == rest[k]);
            }
        }
        if trailing_whitespace(s) < s.len() {
            assert(s[s.len() - trailing_whitespace(s) - 1] == rest[rest.len()
                - trailing_whitespace(rest) - 1]);
        }
    }
}

/// Trimming takes white space away at both ends and nothing else: `s` is
/// white space, then `trimmed(s)`, then white space, and `trimmed(s)` neither
/// begins nor ends with white space.
pub proof fn trimmed_is_the_core(s: Seq<char>)
    ensures
        ({
            let lead = leading_whitespace(s) as int;
            let core = trimmed(s);
            &&& lead + core.len() <= s.len()
            &&& core == s.subrange(lead, lead + core.len())
            &&& forall|k: int| 0 <= k < lead ==> is_whitespace(#[trigger] s[k])
            &&& forall|k: int| lead + core.len() <= k < s.len() ==> is_whitespace(#[trigger] s[k])
            &&& core.len() > 0 ==> !is_whitespace(core.first()) && !is_whitespace(core.last())
        }),
{
    let lead = leading_whitespace(s) as int;
    lemma_leading_whitespace(s);
    let rest = s.skip(lead);
    lemma_trailing_whitespace(rest);
    let core = trimmed(s);
    assert(core =~= s.subrange(lead, lead + core.len()));
    assert forall|k: int| lead + core.len() <= k < s.len() implies is_whitespace(
        #[trigger] s[k],
    ) by {
        assert(s[k] == rest[k - lead]);
    }
    if core.len() > 0 {
        assert(core.first() == s[lead]);
        assert(core.last() == rest[rest.len() - trailing_whitespace(rest) - 1]);
    }
}

/// Whether `c` is a white space character.
pub fn char_is_whitespace(c: char) -> (r: bool)
    ensures
        r == is_whitespace(c),
{
    let n: u32 = c as u32;
    (0x09 <= n && n <= 0x0D) || n == 0x20 || n == 0x85 || n == 0xA0 || n == 0x1680 || (0x2000
        <= n && n <= 0x200A) || n == 0x2028 || n == 0x2029 || n == 0x202F || n == 0x205F || n
        == 0x3000
}

/// If the first `i` characters of `s` are white space and the next one, if
/// there is one, is not, then `s` starts with exactly `i` of them.
pub proof fn lemma_leading_whitespace_is(s: Seq<char>, i: nat)
    requires
        i <= s.len(),
        forall|k: int| 0 <= k < i ==> is_whitespace(#[trigger] s[k]),
        i < s.len() ==> !is_whitespace(s[i as int]),
    ensures
        leading_whitespace(s) == i,
    decreases i,
{
    if i > 0 {
        let rest = s.drop_first();
        assert forall|k: int| 0 <= k < i - 1 implies is_whitespace(#[trigger] rest[k]) by {
            assert(rest[k] == s[k + 1]);
        }
        lemma_leading_whitespace_is(rest, (i - 1) as nat);
    }
}

/// If the last `c` characters of `s` are white space and the one before them,
/// if there is one, is not, then `s` ends with exactly `c` of them.
pub proof fn lemma_trailing_whitespace_is(s: Seq<char>, c: nat)
    requires
        c <= s.len(),
        forall|k: int| s.len() - c <= k < s.len() ==> is_whitespace(#[trigger] s[k]),
        c < s.len() ==> !is_whitespace(s[s.len() - c - 1]),
    ensures
        trailing_whitespace(s) == c,
    decreases c,
{
    if c > 0 {
        let rest = s.drop_last();
        assert forall|k: int| rest.len() - (c - 1) <= k < rest.len() implies is_whitespace(
            #[trigger] rest[k],
        ) by {
            assert(rest[k] == s[k]);
        }
        lemma_trailing_whitespace_is(rest, (c - 1) as nat);
    }
}

/// The part of `s` that is left when the white space at both ends is taken
/// away. Characters are reached by counting from the start, so the time
/// grows with the square of the amount of white space.
pub fn trim(s: &str) -> (r: &str)
    ensures
        r@ == trimmed(s@),
{
    let n: usize = s.unicode_len();
    let mut i: usize = 0;
    while i < n && char_is_whitespace(s.get_char(i))
        invariant
            n == s@.len(),
            i <= n,
            forall|k: int| 0 <= k < i ==> is_whitespace(#[trigger] s@[k]),
        decreases n - i,
    {
        i += 1;
    }
    let mut j: usize = n;
    while j > i && char_is_whitespace(s.get_char(j - 1))
        invariant
            n == s@.len(),
            i <= j <= n,
            forall|k: int| j <= k < n ==> is_whitespace(#[trigger] s@[k]),
        decreases j,
    {
        j -= 1;
    }
    proof {
        lemma_leading_whitespace_is(s@, i as nat);
        let rest = s@.skip(i as int);
        assert forall|k: int| rest.len() - (n - j) <= k < rest.len() implies is_whitespace(
            #[trigger] rest[k],
        ) by {
            assert(rest[k] == s@[k + i]);
        }
        lemma_trailing_whitespace_is(rest, (n - j) as nat);
        assert(rest.take(rest.len() - (n - j)) =~= s@.subrange(i as int, j as int));
    }
    s.substring_char(i, j)
}

} // verus!
