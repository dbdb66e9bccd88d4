//! Sub-tab selection shared by the pages with a sidebar: moving the
//! selection forwards and backwards through a list that wraps around.

use vstd::prelude::*;

verus! {

/// The selection after moving forwards through `count` tabs: the next
/// index, back to 0 after the last one; unchanged when there are no tabs.
pub open spec fn spec_cycle_forward(selected: usize, count: usize) -> usize {
    if count == 0 {
        selected
    } else if selected == usize::MAX {
        0
    } else {
        ((selected + 1) % (count as int)) as usize
    }
}

/// The selection after moving backwards through `count` tabs: the
/// previous index, the last one before 0; unchanged when there are no tabs.
pub open spec fn spec_cycle_backward(selected: usize, count: usize) -> usize {
    if count == 0 {
        selected
    } else if selected == 0 {
        (count - 1) as usize
    } else {
        ((selected - 1) % (count as int)) as usize
    }
}

/// The selection after moving forwards through `count` tabs.
pub fn cycle_forward(selected: usize, count: usize) -> (r: usize)
    ensures
        r == spec_cycle_forward(selected, count),
{
    if count == 0 {
        return selected;
    }
    match selected.checked_add(1) {
        Some(v) => v % count,
        None => 0,
    }
}

/// The selection after moving backwards through `count` tabs.
pub fn cycle_backward(selected: usize, count: usize) -> (r: usize)
    ensures
        r == spec_cycle_backward(selected, count),
{
    if count == 0 {
        return selected;
    }
    let prev = match selected.checked_sub(1) {
        Some(v) => v,
        None => count - 1,
    };
    proof {
        lemma_small_mod((count - 1) as nat, count as nat);
    }
    prev % count
}

/// `x % m == x` for `x < m`.
proof fn lemma_small_mod(x: nat, m: nat)
    requires
        x < m,
    ensures
        x % m == x,
{
    vstd::arithmetic::div_mod::lemma_small_mod(x, m);
}

/// Moving through a non-empty list of tabs always lands on one of them.
pub proof fn lemma_cycle_in_range(selected: usize, count: usize)
    requires
        count > 0,
    ensures
        spec_cycle_forward(selected, count) < count,
        spec_cycle_backward(selected, count) < count,
{
    vstd::arithmetic::div_mod::lemma_mod_bound((selected + 1) as int, count as int);
    vstd::arithmetic::div_mod::lemma_mod_bound((selected - 1) as int, count as int);
}

/// Moving forwards and then backwards (or backwards and then forwards)
/// returns to the tab that was selected.
pub proof fn lemma_cycle_round_trip(selected: usize, count: usize)
    requires
        selected < count,
    ensures
        spec_cycle_backward(spec_cycle_forward(selected, count), count) == selected,
        spec_cycle_forward(spec_cycle_backward(selected, count), count) == selected,
{
    if selected + 1 < count {
        lemma_small_mod((selected + 1) as nat, count as nat);
        lemma_small_mod(selected as nat, count as nat);
    } else {
        vstd::arithmetic::div_mod::lemma_mod_self_0(count as int);
    }
    if selected > 0 {
        lemma_small_mod((selected - 1) as nat, count as nat);
        lemma_small_mod(selected as nat, count as nat);
    } else {
        vstd::arithmetic::div_mod::lemma_mod_self_0(count as int);
    }
}

/// Moving forwards from the last tab wraps to the first, and moving
/// backwards from the first wraps to the last.
pub proof fn lemma_cycle_wraps(count: usize)
    requires
        count > 0,
    ensures
        spec_cycle_forward((count - 1) as usize, count) == 0,
        spec_cycle_backward(0, count) == count - 1,
{
    vstd::arithmetic::div_mod::lemma_mod_self_0(count as int);
}

/// On a tab of a non-empty list, moving forwards selects the next tab (the
/// first after the last) and moving backwards the previous one (the last
/// before the first).
pub proof fn lemma_cycle_steps(selected: usize, count: usize)
    requires
        selected < count,
    ensures
        spec_cycle_forward(selected, count) == (if selected + 1 == count { 0 } else { selected + 1 }),
        spec_cycle_backward(selected, count) == (if selected == 0 { count - 1 } else { selected - 1 }),
{
    if selected + 1 < count {
        lemma_small_mod((selected + 1) as nat, count as nat);
    } else {
        vstd::arithmetic::div_mod::lemma_mod_self_0(count as int);
    }
    if selected > 0 {
        lemma_small_mod((selected - 1) as nat, count as nat);
    }
}

} // verus!
