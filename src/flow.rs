//! Control flow: `if` chains, `loop` with a value, labelled loops, `while`
//! and reversed `for` ranges. Each routine returns what its loop produces.
use vstd::prelude::*;

verus! {

/// The first of 4, 3 and 2 that divides `number`, tried in that order, or
/// `None` when none of them does.
pub open spec fn divisibility_spec(number: int) -> Option<int> {
    if number % 4 == 0 {
        Some(4)
    } else if number % 3 == 0 {
        Some(3)
    } else if number % 2 == 0 {
        Some(2)
    } else {
        None
    }
}

/// Picks the first divisor among 4, 3 and 2 (in that order) of `number`.
pub fn divisibility(number: i32) -> (r: Option<i32>)
    ensures
        r matches Some(d) ==> divisibility_spec(number as int) == Some(d as int),
        r is None <==> divisibility_spec(number as int) is None,
{
    if number % 4 == 0 {
        Some(4)
    } else if number % 3 == 0 {
        Some(3)
    } else if number % 2 == 0 {
        Some(2)
    } else {
        None
    }
}

/// Counts up from zero until the counter reaches `limit`, then leaves the
/// loop with twice the counter as its result.
pub fn loop_break_value(limit: u32) -> (r: u32)
    requires
        1 <= limit <= u32::MAX / 2,
    ensures
        r == 2 * limit,
{
    let mut counter: u32 = 0;
    let mut result: u32 = 0;
    loop
        invariant_except_break
            counter < limit,
        invariant
            limit <= u32::MAX / 2,
        ensures
            result == 2 * limit,
        decreases limit - counter,
    {
        counter += 1;
        if counter == limit {
            result = counter * 2;
            break;
        }
    }
    result
}

/// One step of the labelled counting loop: the outer count, or the inner
/// remaining value.
#[derive(Clone, Copy, Debug, PartialEq, Eq, Structural)]
pub enum Tick {
    Count(u32),
    Remaining(u32),
}

/// The steps of `k` complete outer rounds: each shows its count, then the
/// inner values 10 and 9.
pub open spec fn full_rounds(k: nat) -> Seq<Tick>
    decreases k,
{
    if k == 0 {
        Seq::empty()
    } else {
        full_rounds((k - 1) as nat) + seq![
            Tick::Count((k - 1) as u32),
            Tick::Remaining(10),
            Tick::Remaining(9),
        ]
    }
}

/// All steps of the labelled loop that stops at count `stop`: `stop` full
/// rounds, then the last count and the inner value 10, where the inner loop
/// leaves both loops.
pub open spec fn counting_up_spec(stop: nat) -> Seq<Tick> {
    full_rounds(stop) + seq![Tick::Count(stop as u32), Tick::Remaining(10)]
}

/// Runs two nested loops: the outer one counts up from zero, the inner one
/// counts down from 10 and ends after 9, or ends both loops once the outer
/// count is `stop`. Returns every step in order.
pub fn counting_up(stop: u32) -> (r: Vec<Tick>)
    ensures
        r@ == counting_up_spec(stop as nat),
{
    let mut ticks: Vec<Tick> = Vec::new();
    let mut count: u32 = 0;
    'counting_up: loop
        invariant_except_break
            count <= stop,
            ticks@ == full_rounds(count as nat),
        ensures
            ticks@ == counting_up_spec(stop as nat),
        decreases stop - count,
    {
        ticks.push(Tick::Count(count));
        let mut remaining: u32 = 10;
        loop
            invariant_except_break
                remaining == 10 || remaining == 9,
                remaining == 10 ==> ticks@ == full_rounds(count as nat) + seq![Tick::Count(count)],
                remaining == 9 ==> count < stop && ticks@ == full_rounds(count as nat) + seq![
                    Tick::Count(count),
                    Tick::Remaining(10),
                ],
            invariant
                count <= stop,
            ensures
                count < stop,
                ticks@ == full_rounds(count as nat) + seq![
                    Tick::Count(count),
                    Tick::Remaining(10),
                    Tick::Remaining(9),
                ],
            decreases remaining,
        {
            ticks.push(Tick::Remaining(remaining));
            if remaining == 9 {
                assert(ticks@ =~= full_rounds(count as nat) + seq![
                    Tick::Count(count),
                    Tick::Remaining(10),
                    Tick::Remaining(9),
                ]);
                break;
            }
            if count == stop {
                assert(ticks@ =~= counting_up_spec(stop as nat));
                break 'counting_up;
            }
            remaining -= 1;
            assert(ticks@ =~= full_rounds(count as nat) + seq![Tick::Count(count), Tick::Remaining(10)]);
        }
        assert(ticks@ =~= full_rounds((count + 1) as nat));
        count += 1;
    }
    ticks
}

/// Counts down from `start` with a `while` loop and returns the values seen,
/// `start` first and 1 last.
pub fn countdown(start: u32) -> (r: Vec<u32>)
    ensures
        r@.len() == start,
        forall|k: int| 0 <= k < start ==> r@[k] == start - k,
{
    let mut seen: Vec<u32> = Vec::new();
    let mut number: u32 = start;
    while number != 0
        invariant
            number <= start,
            seen@.len() == start - number,
            forall|k: int| 0 <= k < seen@.len() ==> seen@[k] == start - k,
        decreases number,
    {
        seen.push(number);
        number -= 1;
    }
    seen
}

/// The values of the range `low..high` in reverse order: `high - 1` first
/// and `low` last.
pub fn reversed_range(low: u32, high: u32) -> (r: Vec<u32>)
    ensures
        low <= high ==> r@.len() == high - low,
        high < low ==> r@.len() == 0,
        forall|k: int| 0 <= k < r@.len() ==> r@[k] == high - 1 - k,
{
    let mut seen: Vec<u32> = Vec::new();
    if high <= low {
        return seen;
    }
    let mut number: u32 = high;
    while number > low
        invariant
            low <= number <= high,
            seen@.len() == high - number,
            forall|k: int| 0 <= k < seen@.len() ==> seen@[k] == high - 1 - k,
        decreases number,
    {
        number -= 1;
        seen.push(number);
    }
    seen
}

} // verus!
