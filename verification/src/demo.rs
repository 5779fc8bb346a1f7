//! The multi-pane demo variant: navigation among named seed samples, and
//! the shortening of sample names for the sidebar.

use vstd::prelude::*;

use crate::input::InputType;

verus! {

/// The sample index selected after an intent: `Down` moves forward and
/// `Up` backward, each wrapping modulo the sample count; any other intent
/// keeps the selection.
pub open spec fn spec_next_sample(cur: int, count: int, input: InputType) -> int {
    match input {
        InputType::Down => if cur + 1 >= count {
            0
        } else {
            cur + 1
        },
        InputType::Up => if cur == 0 {
            count - 1
        } else {
            cur - 1
        },
        _ => cur,
    }
}

/// Navigating down from the last sample wraps to the first, and
/// navigating up from the first wraps to the last.
pub proof fn lemma_sample_wraparound(count: int)
    requires
        count >= 1,
    ensures
        spec_next_sample(count - 1, count, InputType::Down) == 0,
        spec_next_sample(0, count, InputType::Up) == count - 1,
{
}

/// Applies a navigation intent to the selected sample index, wrapping
/// modulo the number of samples.
pub fn next_sample(cur: usize, count: usize, input: InputType) -> (r: usize)
    requires
        cur < count,
    ensures
        r == spec_next_sample(cur as int, count as int, input),
        r < count,
{
    match input {
        InputType::Down => {
            if cur + 1 >= count {
                0
            } else {
                cur + 1
            }
        },
        InputType::Up => {
            if cur == 0 {
                count - 1
            } else {
                cur - 1
            }
        },
        _ => cur,
    }
}

/// Shortens a sample name so it fits a sidebar `limit` characters wide:
/// a name longer than `limit - 4` is cut to `limit - 7` characters with a
/// three-dot ellipsis appended; a shorter name is returned unchanged.
#[verifier::loop_isolation(false)]
pub fn truncate_label(name: &Vec<char>, limit: usize) -> (r: Vec<char>)
    requires
        limit >= 7,
    ensures
        name@.len() <= limit - 4 ==> r@ == name@,
        name@.len() > limit - 4 ==> r@ == name@.subrange(0, limit - 7) + seq!['.', '.', '.'],
{
    let keep = if name.len() <= limit - 4 {
        name.len()
    } else {
        limit - 7
    };
    let mut r: Vec<char> = Vec::new();
    let mut t: usize = 0;
    while t < keep
        invariant
            t <= keep,
            keep <= name@.len(),
            r@ == name@.subrange(0, t as int),
        decreases keep - t,
    {
        let c = name[t];
        proof {
            assert(name@.subrange(0, t + 1) =~= name@.subrange(0, t as int).push(c));
        }
        r.push(c);
        t += 1;
    }
    if name.len() > limit - 4 {
        r.push('.');
        r.push('.');
        r.push('.');
        proof {
            assert(r@ =~= name@.subrange(0, limit - 7) + seq!['.', '.', '.']);
        }
    } else {
        proof {
            assert(r@ =~= name@);
        }
    }
    r
}

} // verus!
