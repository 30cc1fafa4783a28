//! Project names and the text derived from them.

use vstd::prelude::*;

verus! {

/// The separator between the segments of a project name.
pub open spec fn is_separator(c: char) -> bool {
    c == '/'
}

/// Index of the last separator in `s`, or -1 where it holds none.
pub open spec fn last_separator(s: Seq<char>) -> int
    decreases s.len(),
{
    if s.len() == 0 {
        -1
    } else if is_separator(s.last()) {
        s.len() - 1
    } else {
        last_separator(s.drop_last())
    }
}

/// What follows the last separator of `s`: the whole of `s` where it holds none.
pub open spec fn last_segment(s: Seq<char>) -> Seq<char> {
    s.subrange(last_separator(s) + 1, s.len() as int)
}

/// Where the last separator stands: at `at`, a separator, with none behind
/// it; or nowhere, `at` being -1.
pub proof fn lemma_last_separator_is(s: Seq<char>, at: int)
    requires
        -1 <= at < s.len(),
        at >= 0 ==> is_separator(s[at]),
        forall|j: int| at < j < s.len() ==> !is_separator(#[trigger] s[j]),
    ensures
        last_separator(s) == at,
    decreases s.len(),
{
    if s.len() > 0 && at < s.len() - 1 {
        assert(!is_separator(s[s.len() - 1]));
        let shorter = s.drop_last();
        assert forall|j: int| at < j < shorter.len() implies !is_separator(
            #[trigger] shorter[j],
        ) by {
            assert(shorter[j] == s[j]);
        }
        lemma_last_separator_is(shorter, at);
    }
}

/// The last separator stands inside the text or nowhere, and no separator
/// stands behind it.
pub proof fn lemma_last_separator_bounds(s: Seq<char>)
    ensures
        -1 <= last_separator(s) < s.len(),
        last_separator(s) >= 0 ==> is_separator(s[last_separator(s)]),
        forall|j: int| last_separator(s) < j < s.len() ==> !is_separator(#[trigger] s[j]),
    decreases s.len(),
{
    if s.len() > 0 && !is_separator(s.last()) {
        let shorter = s.drop_last();
        lemma_last_separator_bounds(shorter);
        assert forall|j: int| last_separator(s) < j < s.len() implies !is_separator(
            #[trigger] s[j],
        ) by {
            if j < shorter.len() {
                assert(shorter[j] == s[j]);
            }
        }
    }
}

/// The last segment is the one end of the name that holds no separator and
/// has a separator, or nothing at all, before it: the name is some text
/// followed by the segment, the segment holds no separator, and the text
/// before it is empty or ends in a separator.
pub proof fn law_last_segment(name: Seq<char>)
    ensures
        last_segment(name).len() <= name.len(),
        name == name.subrange(0, name.len() - last_segment(name).len()) + last_segment(name),
        forall|i: int|
            0 <= i < last_segment(name).len() ==> !is_separator(#[trigger] last_segment(name)[i]),
        name.len() == last_segment(name).len() || is_separator(
            name[name.len() - last_segment(name).len() - 1],
        ),
{
    lemma_last_separator_bounds(name);
    let cut = last_separator(name) + 1;
    assert(name =~= name.subrange(0, cut) + last_segment(name));
    assert forall|i: int| 0 <= i < last_segment(name).len() implies !is_separator(
        #[trigger] last_segment(name)[i],
    ) by {
        assert(last_segment(name)[i] == name[cut + i]);
    }
}

/// The last `/`-delimited segment of a project name: the name under which the
/// project is shown. A name without a separator is its own last segment, and
/// a name that ends in a separator has the empty one.
pub fn extract_project_name(project_name: &str) -> (segment: &str)
    ensures
        segment@ == last_segment(project_name@),
{
    let total: usize = project_name.unicode_len();
    let mut start: usize = 0;
    let mut seen: usize = 0;
    for c in it: project_name.chars()
        invariant
            total == project_name@.len(),
            it.seq() == project_name@,
            seen == it.index(),
            start <= seen <= total,
            start == last_separator(project_name@.subrange(0, seen as int)) + 1,
    {
        proof {
            let before = project_name@.subrange(0, seen as int);
            let now = project_name@.subrange(0, seen + 1);
            assert(now.drop_last() == before);
            assert(now.last() == c);
        }
        seen = seen + 1;
        if c == '/' {
            start = seen;
        }
    }
    assert(project_name@.subrange(0, seen as int) == project_name@);
    project_name.substring_char(start, seen)
}

} // verus!
