//! The reminder prompts and the choice of the next one.
//!
//! A prompt is drawn at random, but never the one that was shown last: a draw
//! that repeats it is moved on by a second draw into the other prompts.

use rand::Rng;
use vstd::arithmetic::div_mod::{lemma_fundamental_div_mod_converse, lemma_small_mod};
use vstd::prelude::*;

verus! {

/// Number of prompts.
pub const REMINDER_PROMPT_COUNT: usize = 15;

/// The prompt at `index`; an index past the end wraps round.
pub open spec fn tip_text(index: int) -> Seq<char> {
    let i = index % (REMINDER_PROMPT_COUNT as int);
    if i == 0 {
        "Smelly butt, smelly butt, please stand up!"@
    } else if i == 1 {
        "Your chakras are literally flattening. Stand up!"@
    } else if i == 2 {
        "The chair is NOT your lobster. Move!"@
    } else if i == 3 {
        "My spirit says your butt needs freedom!"@
    } else if i == 4 {
        "Could you BE sitting any longer?"@
    } else if i == 5 {
        "Could your butt BE any flatter? Stand!"@
    } else if i == 6 {
        "Could this chair BE more attached to you?"@
    } else if i == 7 {
        "So, I'm just gonna DIE here sitting?"@
    } else if i == 8 {
        "Could sitting here BE any sadder? Move!"@
    } else if i == 9 {
        "Your posture is a MESS. Stand up."@
    } else if i == 10 {
        "If you won't move, I'll MAKE you move!"@
    } else if i == 11 {
        "How YOU sittin'? Get up already!"@
    } else if i == 12 {
        "Stand up or your sandwich gets it!"@
    } else if i == 13 {
        "Oh. My. God. You're STILL sitting?!"@
    } else {
        "Nooo, you can't sit forever. It's like... so bad!"@
    }
}

/// The text of the prompt at `index`.
pub fn reminder_tip(index: usize) -> (tip: &'static str)
    ensures
        tip@ == tip_text(index as int),
{
    let i = index % REMINDER_PROMPT_COUNT;
    if i == 0 {
        "Smelly butt, smelly butt, please stand up!"
    } else if i == 1 {
        "Your chakras are literally flattening. Stand up!"
    } else if i == 2 {
        "The chair is NOT your lobster. Move!"
    } else if i == 3 {
        "My spirit says your butt needs freedom!"
    } else if i == 4 {
        "Could you BE sitting any longer?"
    } else if i == 5 {
        "Could your butt BE any flatter? Stand!"
    } else if i == 6 {
        "Could this chair BE more attached to you?"
    } else if i == 7 {
        "So, I'm just gonna DIE here sitting?"
    } else if i == 8 {
        "Could sitting here BE any sadder? Move!"
    } else if i == 9 {
        "Your posture is a MESS. Stand up."
    } else if i == 10 {
        "If you won't move, I'll MAKE you move!"
    } else if i == 11 {
        "How YOU sittin'? Get up already!"
    } else if i == 12 {
        "Stand up or your sandwich gets it!"
    } else if i == 13 {
        "Oh. My. God. You're STILL sitting?!"
    } else {
        "Nooo, you can't sit forever. It's like... so bad!"
    }
}

/// The index that is shown, given the one shown last and two draws.
///
/// The first draw stands unless it repeats the last index; then it is moved on by one
/// more than the second draw, round the `count` prompts.
pub open spec fn selected_index(last: Option<usize>, count: int, first: int, second: int) -> int {
    if count > 1 && last == Some(first as usize) {
        (first + 1 + second) % count
    } else {
        first
    }
}

/// A repeated draw that is moved on never lands on itself again.
pub proof fn lemma_moved_index_differs(count: int, first: int, second: int)
    requires
        count > 1,
        0 <= first < count,
        0 <= second < count - 1,
    ensures
        0 <= (first + 1 + second) % count < count,
        (first + 1 + second) % count != first,
        (first + 1 + second) % count == if first + 1 + second < count {
            first + 1 + second
        } else {
            first + 1 + second - count
        },
{
    let k = first + 1 + second;
    if k < count {
        lemma_small_mod(k as nat, count as nat);
    } else {
        lemma_fundamental_div_mod_converse(k, count, 1, k - count);
    }
}

/// Chooses the next prompt from two draws, and remembers it.
///
/// `first` is a draw among all `count` prompts, `second` a draw among the `count - 1`
/// others. With more than one prompt the result differs from the one chosen last.
pub fn select_tip_index(last: &mut Option<usize>, count: usize, first: usize, second: usize) -> (index:
    usize)
    requires
        first < count,
        count > 1 ==> second < count - 1,
    ensures
        index == selected_index(*old(last), count as int, first as int, second as int),
        *final(last) == Some(index),
        index < count,
        count > 1 ==> *old(last) != Some(index),
{
    let mut index = first;
    let repeated = match *last {
        Some(prev) => prev == first,
        None => false,
    };
    if count > 1 && repeated {
        proof {
            lemma_moved_index_differs(count as int, first as int, second as int);
        }
        let room = count - 1 - first;
        if second < room {
            index = first + 1 + second;
        } else {
            index = second - room;
        }
    }
    *last = Some(index);
    index
}

/// `rand::Rng::gen_range` over `0..bound` on the thread-local generator of
/// `rand::thread_rng`: some index below `bound`. The range must not be empty, since
/// `gen_range` panics on an empty one. (`thread_rng` panics where the system has no
/// source of randomness.)
#[verifier::external_body]
fn random_below(bound: usize) -> (index: usize)
    requires
        bound > 0,
    ensures
        index < bound,
{
    rand::thread_rng().gen_range(0..bound)
}

/// The number of prompts that a draw is made among: at least one.
pub open spec fn effective_count(count: int) -> int {
    if count < 1 {
        1
    } else {
        count
    }
}

/// Makes the draws for the next prompt among `count`: one among all of them and, only
/// if that one repeats `last`, a second among the others.
pub(crate) fn draw_tips(last: Option<usize>, count: usize) -> (draws: (usize, usize))
    requires
        count >= 1,
    ensures
        draws.0 < count,
        count > 1 ==> draws.1 < count - 1,
{
    let first = random_below(count);
    let repeated = match last {
        Some(prev) => prev == first,
        None => false,
    };
    let second = if count > 1 && repeated {
        random_below(count - 1)
    } else {
        0
    };
    (first, second)
}

/// Draws the next prompt at random among `count` prompts (among one, if `count` is 0).
///
/// Whatever is drawn, the result is a valid index, it is remembered in `last`, and with
/// more than one prompt it is not the index that `last` held before.
pub fn next_tip_index(last: &mut Option<usize>, count: usize) -> (index: usize)
    ensures
        index < effective_count(count as int),
        *final(last) == Some(index),
        count > 1 ==> *old(last) != Some(index),
        exists|first: int, second: int|
            0 <= first < effective_count(count as int) && 0 <= second && (count > 1 ==> second
                < count - 1) && index == #[trigger] selected_index(
                *old(last),
                effective_count(count as int),
                first,
                second,
            ),
{
    let ghost before = *last;
    let n = if count < 1 {
        1
    } else {
        count
    };
    let (first, second) = draw_tips(*last, n);
    let index = select_tip_index(last, n, first, second);
    assert(index == selected_index(before, effective_count(count as int), first as int, second as int));
    index
}

} // verus!
