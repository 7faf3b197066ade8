use vstd::prelude::*;

use vstd::string::StringExecFns;

use crate::handler::ConnectAddr;

verus! {

/// One child's behaviour in a race: whether its dial attempt would
/// succeed and how long it runs after its delayed start, in milliseconds.
#[derive(Clone, Copy, Debug, PartialEq, Eq, Structural)]
pub struct ChildRun {
    pub ok: bool,
    pub duration_ms: u64,
}

/// When child `i`'s task starts dialing: the delay staircase gives every
/// child a head start over the next one, so network jitter cannot pick a
/// worse path while a preferred one is healthy.
pub open spec fn start_delay(delay_base: u32, i: int) -> int {
    delay_base * i
}

/// When child `i`'s attempt completes, measured from the race's start.
pub open spec fn completion_time(delay_base: u32, i: int, runs: Seq<ChildRun>) -> int {
    start_delay(delay_base, i) + runs[i].duration_ms
}

/// Computes the delay before child `i` starts dialing.
pub fn staircase_delay(delay_base: u32, i: usize) -> (d: u64)
    requires
        delay_base * i <= u64::MAX,
    ensures
        d == start_delay(delay_base, i as int),
{
    (delay_base as u64) * (i as u64)
}

/// The contract of `race_winner`: the winner is a successful attempt
/// that completes no later than any other success, and strictly earlier
/// than any success at a lower index; absence of a winner means no
/// attempt succeeds.
pub open spec fn race_winner_post(delay_base: u32, runs: Seq<ChildRun>, w: Option<usize>) -> bool {
    match w {
        Some(i) => {
            &&& (i as int) < runs.len()
            &&& runs[i as int].ok
            &&& forall|j: int|
                0 <= j < runs.len() && (#[trigger] runs[j]).ok ==> completion_time(
                    delay_base,
                    i as int,
                    runs,
                ) <= completion_time(delay_base, j, runs)
            &&& forall|j: int|
                0 <= j < i as int && (#[trigger] runs[j]).ok ==> completion_time(
                    delay_base,
                    i as int,
                    runs,
                ) < completion_time(delay_base, j, runs)
        },
        None => forall|j: int| 0 <= j < runs.len() ==> !(#[trigger] runs[j]).ok,
    }
}

/// Which child wins a race with the given behaviours: the first-completed
/// success, a tie going to the lower index.
pub fn race_winner(delay_base: u32, runs: &Vec<ChildRun>) -> (w: Option<usize>)
    ensures
        race_winner_post(delay_base, runs@, w),
{
    let mut w: Option<usize> = None;
    let mut best: u128 = 0;
    let mut j: usize = 0;
    while j < runs.len()
        invariant
            j <= runs@.len(),
            match w {
                Some(i) => {
                    &&& (i as int) < j
                    &&& runs@[i as int].ok
                    &&& best == completion_time(delay_base, i as int, runs@)
                    &&& forall|k: int|
                        0 <= k < j && (#[trigger] runs@[k]).ok ==> best <= completion_time(
                            delay_base,
                            k,
                            runs@,
                        )
                    &&& forall|k: int|
                        0 <= k < i as int && (#[trigger] runs@[k]).ok ==> best < completion_time(
                            delay_base,
                            k,
                            runs@,
                        )
                },
                None => forall|k: int| 0 <= k < j ==> !(#[trigger] runs@[k]).ok,
            },
        decreases runs@.len() - j,
    {
        if runs[j].ok {
            proof {
                assert((delay_base as int) * (j as int) <= 0xFFFF_FFFFi128 * 0xFFFF_FFFF_FFFF_FFFFi128)
                    by (nonlinear_arith)
                    requires
                        0 <= delay_base as int <= 0xFFFF_FFFFi128,
                        0 <= j as int <= 0xFFFF_FFFF_FFFF_FFFFi128,
                ;
            }
            let c: u128 = (delay_base as u128) * (j as u128) + (runs[j].duration_ms as u128);
            match w {
                Option::None => {
                    w = Some(j);
                    best = c;
                },
                Option::Some(_) => {
                    if c < best {
                        w = Some(j);
                        best = c;
                    }
                },
            }
        }
        j += 1;
    }
    w
}

/// With a positive delay base, a first child that completes successfully
/// before the second child's head start always wins: the second child has
/// not even started dialing when the first one finishes.
pub proof fn lemma_head_start_wins(delay_base: u32, runs: Seq<ChildRun>, w: Option<usize>)
    requires
        race_winner_post(delay_base, runs, w),
        runs.len() == 2,
        delay_base > 0,
        runs[0].ok,
        runs[0].duration_ms < delay_base,
    ensures
        w == Some(0usize),
{
    assert(completion_time(delay_base, 0, runs) < completion_time(delay_base, 1, runs));
}


/// The kind name this handler reports for telemetry.
pub fn name() -> (n: String)
    ensures
        n@ == "tryall"@,
{
    String::from_str("tryall")
}

/// A composite handler opens no observable upstream socket of its own.
pub fn connect_addr() -> (r: Option<ConnectAddr>)
    ensures
        r is None,
{
    None
}

} // verus!
