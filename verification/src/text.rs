use vstd::prelude::*;
use vstd::string::*;

verus! {

/// `needle` occurs in `haystack` as a contiguous run of characters (the empty needle occurs
/// everywhere).
pub open spec fn text_contains(haystack: Seq<char>, needle: Seq<char>) -> bool {
    exists|i: int|
        0 <= i && i + needle.len() <= haystack.len() && #[trigger] haystack.subrange(
            i,
            i + needle.len(),
        ) == needle
}

/// What `str::to_lowercase` gives for a string: the Unicode lowercase mapping of each
/// character, with the final-sigma rule.
pub uninterp spec fn lowercase(s: Seq<char>) -> Seq<char>;

/// `str::to_lowercase`. Claimed: the result is `lowercase` of the argument's characters, a
/// function of those characters alone, and it is empty exactly when the argument is (each
/// character lowercases to one or more characters, as `char::to_lowercase` documents). What
/// that mapping is, character by character, is left unsaid here: it is Unicode's own table.
#[verifier::external_body]
pub(crate) fn to_lowercase(s: &str) -> (r: String)
    ensures
        r@ == lowercase(s@),
        r@.len() == 0 <==> s@.len() == 0,
{
    s.to_lowercase()
}

/// The characters that carry Unicode's `White_Space` property.
pub open spec fn is_white_space(c: char) -> bool {
    let u = c as u32;
    (0x09 <= u && u <= 0x0D) || u == 0x20 || u == 0x85 || u == 0xA0 || u == 0x1680 || (0x2000
        <= u && u <= 0x200A) || u == 0x2028 || u == 0x2029 || u == 0x202F || u == 0x205F || u
        == 0x3000
}

/// Whether `c` is white space, as `char::is_whitespace` answers it: the characters with
/// Unicode's `White_Space` property.
pub(crate) fn char_is_whitespace(c: char) -> (r: bool)
    ensures
        r == is_white_space(c),
{
    let u = c as u32;
    (0x09 <= u && u <= 0x0D) || u == 0x20 || u == 0x85 || u == 0xA0 || u == 0x1680 || (0x2000
        <= u && u <= 0x200A) || u == 0x2028 || u == 0x2029 || u == 0x202F || u == 0x205F || u
        == 0x3000
}

/// `s` holds nothing but white space: `s.trim()` would be empty.
pub open spec fn is_blank(s: Seq<char>) -> bool {
    forall|i: int| 0 <= i < s.len() ==> is_white_space(#[trigger] s[i])
}

/// The characters of `s`, in order.
pub fn chars_of(s: &str) -> (v: Vec<char>)
    ensures
        v@ == s@,
{
    let n = s.unicode_len();
    let mut v: Vec<char> = Vec::new();
    let mut i: usize = 0;
    while i < n
        invariant
            n == s@.len(),
            i <= n,
            v@ == s@.subrange(0, i as int),
        decreases n - i,
    {
        let c = s.get_char(i);
        v.push(c);
        i = i + 1;
        assert(v@ =~= s@.subrange(0, i as int));
    }
    assert(v@ =~= s@);
    v
}

/// Whether `needle` occurs in `haystack`, as `str::contains` with a string pattern answers it.
pub fn contains_chars(haystack: &Vec<char>, needle: &Vec<char>) -> (found: bool)
    ensures
        found == text_contains(haystack@, needle@),
{
    let h = haystack.len();
    let n = needle.len();
    if n > h {
        assert forall|i: int|
            0 <= i && i + n <= h implies #[trigger] haystack@.subrange(i, i + n) != needle@ by {}
        return false;
    }
    let mut start: usize = 0;
    while start <= h - n
        invariant
            h == haystack@.len(),
            n == needle@.len(),
            n <= h,
            start <= h - n + 1,
            forall|i: int|
                0 <= i < start ==> #[trigger] haystack@.subrange(i, i + n) != needle@,
        decreases h - n + 1 - start,
    {
        let mut k: usize = 0;
        let mut same = true;
        while k < n
            invariant
                h == haystack@.len(),
                n == needle@.len(),
                start + n <= h,
                k <= n,
                same == (forall|j: int| 0 <= j < k ==> haystack@[start + j] == needle@[j]),
            decreases n - k,
        {
            if haystack[start + k] != needle[k] {
                same = false;
            }
            k = k + 1;
        }
        if same {
            assert(haystack@.subrange(start as int, start + n) =~= needle@);
            return true;
        }
        proof {
            let j = choose|j: int| 0 <= j < n && haystack@[start + j] != needle@[j];
            assert(haystack@.subrange(start as int, start + n)[j] != needle@[j]);
        }
        start = start + 1;
    }
    false
}

/// Whether `s` holds nothing but white space, as `s.trim().is_empty()` answers it.
pub fn is_blank_text(s: &str) -> (blank: bool)
    ensures
        blank == is_blank(s@),
{
    let chars = chars_of(s);
    let mut i: usize = 0;
    while i < chars.len()
        invariant
            chars@ == s@,
            i <= chars@.len(),
            forall|j: int| 0 <= j < i ==> is_white_space(#[trigger] s@[j]),
        decreases chars@.len() - i,
    {
        if !char_is_whitespace(chars[i]) {
            return false;
        }
        i = i + 1;
    }
    true
}

} // verus!
