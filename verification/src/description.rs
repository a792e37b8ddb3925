use vstd::prelude::*;
use vstd::string::StrSliceExecFns;

verus! {

/// Whether `c` is white space: the code points that Unicode gives the
/// property `White_Space`.
pub open spec fn is_white_space(c: char) -> bool {
    let u = c as u32;
    ||| 0x09 <= u <= 0x0D
    ||| u == 0x20
    ||| u == 0x85
    ||| u == 0xA0
    ||| u == 0x1680
    ||| 0x2000 <= u <= 0x200A
    ||| u == 0x2028
    ||| u == 0x2029
    ||| u == 0x202F
    ||| u == 0x205F
    ||| u == 0x3000
}

/// How many characters of white space stand at the start of `text`.
pub open spec fn leading_white_space(text: Seq<char>) -> nat
    decreases text.len(),
{
    if text.len() > 0 && is_white_space(text[0]) {
        1 + leading_white_space(text.drop_first())
    } else {
        0
    }
}

/// How many characters of white space stand at the end of `text`.
pub open spec fn trailing_white_space(text: Seq<char>) -> nat
    decreases text.len(),
{
    if text.len() > 0 && is_white_space(text.last()) {
        1 + trailing_white_space(text.drop_last())
    } else {
        0
    }
}

/// `text` without the white space at its start and at its end.
pub open spec fn trimmed(text: Seq<char>) -> Seq<char> {
    let rest = text.skip(leading_white_space(text) as int);
    rest.take(rest.len() - trailing_white_space(rest))
}

/// The description that is filed for a file whose first line is
/// `first_line`: the line without the white space around it, its line end
/// included.
pub open spec fn description_of(first_line: Seq<char>) -> Seq<char> {
    trimmed(first_line)
}

proof fn lemma_leading_white_space(text: Seq<char>, k: int)
    requires
        0 <= k <= text.len(),
        forall|j: int| 0 <= j < k ==> is_white_space(#[trigger] text[j]),
        k == text.len() || !is_white_space(text[k]),
    ensures
        leading_white_space(text) == k,
    decreases k,
{
    if k > 0 {
        let rest = text.drop_first();
        assert forall|j: int| 0 <= j < k - 1 implies is_white_space(#[trigger] rest[j]) by {
            assert(rest[j] == text[j + 1]);
        }
        lemma_leading_white_space(rest, k - 1);
    }
}

proof fn lemma_trailing_white_space(text: Seq<char>, k: int)
    requires
        0 <= k <= text.len(),
        forall|j: int| text.len() - k <= j < text.len() ==> is_white_space(#[trigger] text[j]),
        k == text.len() || !is_white_space(text[text.len() - k - 1]),
    ensures
        trailing_white_space(text) == k,
    decreases k,
{
    if k > 0 {
        let rest = text.drop_last();
        assert forall|j: int| rest.len() - (k - 1) <= j < rest.len() implies is_white_space(
            #[trigger] rest[j],
        ) by {
            assert(rest[j] == text[j]);
        }
        lemma_trailing_white_space(rest, k - 1);
    }
}

/// Whether `c` is white space.
pub fn is_white_space_char(c: char) -> (white: bool)
    ensures
        white == is_white_space(c),
{
    let u: u32 = c as u32;
    (0x09 <= u && u <= 0x0D) || u == 0x20 || u == 0x85 || u == 0xA0 || u == 0x1680 || (0x2000 <= u
        && u <= 0x200A) || u == 0x2028 || u == 0x2029 || u == 0x202F || u == 0x205F || u == 0x3000
}

/// The description to file for a file whose first line is `first_line`.
pub fn describe(first_line: &str) -> (description: String)
    ensures
        description@ == description_of(first_line@),
{
    let n: usize = first_line.unicode_len();
    let mut from: usize = 0;
    while from < n && is_white_space_char(first_line.get_char(from))
        invariant
            from <= n,
            n == first_line@.len(),
            forall|j: int| 0 <= j < from ==> is_white_space(#[trigger] first_line@[j]),
        decreases n - from,
    {
        from += 1;
    }
    let mut to: usize = n;
    while to > from && is_white_space_char(first_line.get_char(to - 1))
        invariant
            from <= to <= n,
            n == first_line@.len(),
            forall|j: int| to <= j < n ==> is_white_space(#[trigger] first_line@[j]),
        decreases to,
    {
        to -= 1;
    }
    proof {
        let text = first_line@;
        lemma_leading_white_space(text, from as int);
        let rest = text.skip(from as int);
        assert forall|j: int| rest.len() - (n - to) <= j < rest.len() implies is_white_space(
            #[trigger] rest[j],
        ) by {
            assert(rest[j] == text[j + from]);
        }
        if to > from {
            assert(rest[rest.len() - (n - to) - 1] == text[to - 1]);
        }
        lemma_trailing_white_space(rest, n - to);
        assert(rest.take(rest.len() - (n - to)) =~= text.subrange(from as int, to as int));
    }
    first_line.substring_char(from, to).to_owned()
}

} // verus!
