//! Output file naming: the encoded image is named after the input path's
//! final component with a `.png` extension appended, or after a default name
//! when the component is empty.

use vstd::prelude::*;

verus! {

pub open spec fn is_sep(c: char) -> bool {
    c == '/' || c == '\\'
}

/// The path with its trailing separators removed.
pub open spec fn trim_trailing_seps(s: Seq<char>) -> Seq<char>
    decreases s,
{
    if s.len() > 0 && is_sep(s.last()) {
        trim_trailing_seps(s.drop_last())
    } else {
        s
    }
}

/// The suffix after the last separator.
pub open spec fn last_component(s: Seq<char>) -> Seq<char>
    decreases s,
{
    if s.len() == 0 {
        s
    } else if is_sep(s.last()) {
        Seq::empty()
    } else {
        last_component(s.drop_last()).push(s.last())
    }
}

/// The output file name for an input path: the final component of the path
/// (ignoring trailing separators) with `.png` appended, or the default name
/// when that component is empty.
pub open spec fn spec_output_name(s: Seq<char>) -> Seq<char> {
    let comp = last_component(trim_trailing_seps(s));
    if comp.len() == 0 {
        "oculurised.png"@
    } else {
        comp + ".png"@
    }
}

/// Whether the character at `i` is a path separator.
fn is_sep_at(s: &str, i: usize) -> (r: bool)
    requires
        i < s@.len(),
    ensures
        r == is_sep(s@[i as int]),
{
    let c = s.get_char(i);
    c == '/' || c == '\\'
}

/// A stretch of non-separators that runs to the end of the path and starts
/// right after a separator (or at the start) is the last component.
proof fn lemma_last_component_range(s: Seq<char>, start: int)
    requires
        0 <= start <= s.len(),
        forall|k: int| start <= k < s.len() ==> !is_sep(s[k]),
        start == 0 || is_sep(s[start - 1]),
    ensures
        last_component(s) == s.subrange(start, s.len() as int),
    decreases s.len(),
{
    if s.len() == start {
        if start == 0 {
            assert(last_component(s) =~= s.subrange(0, 0));
        } else {
            assert(is_sep(s.last()));
            assert(last_component(s) =~= s.subrange(start, s.len() as int));
        }
    } else {
        assert(!is_sep(s.last()));
        lemma_last_component_range(s.drop_last(), start);
        assert(last_component(s.drop_last()).push(s.last()) =~= s.subrange(
            start,
            s.len() as int,
        ));
    }
}

/// Derives the output file name from the input path.
pub fn derive_output_name(input: &str) -> (r: String)
    ensures
        r@ == spec_output_name(input@),
{
    let len = input.unicode_len();
    let mut end: usize = len;
    proof {
        assert(input@.take(len as int) =~= input@);
    }
    while end > 0 && is_sep_at(input, end - 1)
        invariant
            end <= len,
            len == input@.len(),
            trim_trailing_seps(input@) == trim_trailing_seps(input@.take(end as int)),
        decreases end,
    {
        proof {
            assert(input@.take(end as int).drop_last() =~= input@.take(end - 1));
        }
        end = end - 1;
    }
    let ghost t = input@.take(end as int);
    proof {
        if end == 0 {
            assert(t =~= Seq::<char>::empty());
        }
        assert(trim_trailing_seps(input@) == t);
    }
    let mut start: usize = end;
    while start > 0 && !is_sep_at(input, start - 1)
        invariant
            start <= end <= len,
            len == input@.len(),
            forall|k: int| start <= k < end ==> !is_sep(input@[k]),
        decreases start,
    {
        start = start - 1;
    }
    proof {
        assert(forall|k: int| start <= k < t.len() ==> t[k] == input@[k]);
        if start > 0 {
            assert(is_sep(input@[start - 1]));
        }
        lemma_last_component_range(t, start as int);
        assert(t.subrange(start as int, end as int) =~= input@.subrange(
            start as int,
            end as int,
        ));
    }
    if start == end {
        String::from_str("oculurised.png")
    } else {
        let comp = input.substring_char(start, end);
        let mut out = comp.to_owned();
        out.append(".png");
        out
    }
}

} // verus!
