//! Splitting a channel's members into a fixed number of teams.
use rand::seq::SliceRandom;
use vstd::prelude::*;
use crate::render::{render_teams, team_lines};

verus! {

/// Why a partition was refused.
#[derive(Debug, Clone, Copy, PartialEq, Eq, Structural)]
pub enum TeamError {
    /// Zero teams were asked for.
    InvalidTeamCount,
}

/// Members that every team but the last receives: `n / k`.
pub open spec fn base_size(n: nat, k: nat) -> nat {
    n / k
}

/// Start of team `i` (0-based) in the shuffled order.
pub open spec fn team_start(n: nat, k: nat, i: int) -> int {
    i * base_size(n, k)
}

/// End (exclusive) of team `i`: the last team runs to the end of the order,
/// so it also takes the `n % k` members left over.
pub open spec fn team_end(n: nat, k: nat, i: int) -> int {
    if i == k - 1 {
        n as int
    } else {
        (i + 1) * base_size(n, k)
    }
}

/// Team `i` of `k` cut from `order`: a contiguous chunk of it.
pub open spec fn team_of<T>(order: Seq<T>, k: nat, i: int) -> Seq<T> {
    order.subrange(team_start(order.len(), k, i), team_end(order.len(), k, i))
}

/// The members of the given teams, one team after the other.
pub open spec fn joined<T>(teams: Seq<Vec<T>>) -> Seq<T>
    decreases teams.len(),
{
    if teams.len() == 0 {
        Seq::empty()
    } else {
        joined(teams.drop_last()) + teams.last()@
    }
}

/// `teams` is `order` cut into `k` teams.
pub open spec fn is_split_of<T>(teams: Seq<Vec<T>>, order: Seq<T>, k: nat) -> bool {
    &&& teams.len() == k
    &&& forall|i: int| 0 <= i < k ==> #[trigger] teams[i]@ == team_of(order, k, i)
}

/// `teams` is a shuffle of `members` cut into `k` teams.
pub open spec fn is_shuffled_split(teams: Seq<Vec<String>>, members: Seq<String>, k: nat) -> bool {
    exists|order: Seq<String>|
        order.to_multiset() == members.to_multiset() && is_split_of(teams, order, k)
}

proof fn lemma_team_bounds(n: nat, k: nat, i: nat)
    requires
        k > 0,
        i < k,
    ensures
        0 <= team_start(n, k, i as int) <= team_end(n, k, i as int) <= n,
        team_end(n, k, i as int) - team_start(n, k, i as int) == if i == k - 1 {
            (base_size(n, k) + n % k) as int
        } else {
            base_size(n, k) as int
        },
        i + 1 < k ==> team_end(n, k, i as int) == team_start(n, k, i + 1 as int),
{
    let s = base_size(n, k);
    assert(n == k * s + n % k) by (nonlinear_arith)
        requires
            s == n / k,
            k > 0,
    ;
    assert(0 <= i * s <= (i + 1) * s <= k * s) by (nonlinear_arith)
        requires
            i < k,
    ;
    assert((k - 1) * s + s == k * s) by (nonlinear_arith);
    assert((i + 1) * s == i * s + s) by (nonlinear_arith);
}

/// Cuts `order` into `team_count` contiguous teams: each holds
/// `order.len() / team_count` members, and the last one also takes the
/// `order.len() % team_count` left over. Refuses zero teams.
pub fn partition_shuffled(order: &Vec<String>, team_count: usize) -> (r: Result<
    Vec<Vec<String>>,
    TeamError,
>)
    ensures
        team_count == 0 <==> r == Err::<Vec<Vec<String>>, TeamError>(TeamError::InvalidTeamCount),
        r is Ok <==> team_count > 0,
        r matches Ok(teams) ==> is_split_of(teams@, order@, team_count as nat),
        r matches Ok(teams) ==> joined(teams@) == order@,
{
    if team_count == 0 {
        return Err(TeamError::InvalidTeamCount);
    }
    let n = order.len();
    let size = n / team_count;
    let ghost k = team_count as nat;
    let mut teams: Vec<Vec<String>> = Vec::new();
    let mut i: usize = 0;
    while i < team_count
        invariant
            0 < k == team_count,
            n == order@.len(),
            size == base_size(n as nat, k),
            i <= team_count,
            teams@.len() == i,
            forall|j: int| 0 <= j < i ==> #[trigger] teams@[j]@ == team_of(order@, k, j),
            i < team_count ==> joined(teams@) == order@.subrange(0, team_start(n as nat, k, i as int)),
            i == team_count ==> joined(teams@) == order@,
        decreases team_count - i,
    {
        proof {
            lemma_team_bounds(n as nat, k, i as nat);
        }
        let start: usize = i * size;
        let end: usize = if i + 1 == team_count {
            n
        } else {
            start + size
        };
        let mut team: Vec<String> = Vec::new();
        let mut j: usize = start;
        while j < end
            invariant
                start <= j <= end <= n == order@.len(),
                team@ == order@.subrange(start as int, j as int),
            decreases end - j,
        {
            team.push(order[j].clone());
            j += 1;
            assert(team@ =~= order@.subrange(start as int, j as int));
        }
        let ghost before = teams@;
        teams.push(team);
        proof {
            assert(teams@.drop_last() =~= before);
            assert(order@.subrange(0, start as int) + order@.subrange(start as int, end as int)
                =~= order@.subrange(0, end as int));
            if i + 1 < team_count {
                lemma_team_bounds(n as nat, k, (i + 1) as nat);
            } else {
                assert(order@.subrange(0, n as int) =~= order@);
            }
        }
        i += 1;
    }
    Ok(teams)
}

/// Relies on rand's `SliceRandom::shuffle`, drawing from `rand::thread_rng()`:
/// it only swaps elements of the slice, so what comes back is a permutation
/// of what went in. Which permutation is left to chance.
#[verifier::external_body]
fn shuffle_in_place(v: &mut Vec<String>)
    ensures
        final(v)@.len() == old(v)@.len(),
        final(v)@.to_multiset() == old(v)@.to_multiset(),
{
    v.as_mut_slice().shuffle(&mut rand::thread_rng());
}

/// Shuffles `members` uniformly at random and cuts the result into
/// `team_count` teams: every team holds `n / team_count` members, but the
/// last, which holds `n / team_count + n % team_count`. Every member lands in
/// exactly one team. Refuses zero teams, whatever the members.
pub fn partition(members: Vec<String>, team_count: usize) -> (r: Result<
    Vec<Vec<String>>,
    TeamError,
>)
    ensures
        team_count == 0 <==> r == Err::<Vec<Vec<String>>, TeamError>(TeamError::InvalidTeamCount),
        r is Ok <==> team_count > 0,
        r matches Ok(teams) ==> {
            &&& teams@.len() == team_count
            &&& forall|i: int|
                0 <= i < team_count - 1 ==> #[trigger] teams@[i]@.len() == members@.len()
                    / team_count as nat
            &&& teams@[team_count - 1]@.len() == members@.len() / team_count as nat
                + members@.len() % team_count as nat
            &&& joined(teams@).to_multiset() == members@.to_multiset()
            &&& is_shuffled_split(teams@, members@, team_count as nat)
        },
{
    if team_count == 0 {
        return Err(TeamError::InvalidTeamCount);
    }
    let mut order = members;
    shuffle_in_place(&mut order);
    let r = partition_shuffled(&order, team_count);
    if let Ok(teams) = &r {
        proof {
            let n = order@.len();
            let k = team_count as nat;
            assert forall|i: int| 0 <= i < k implies #[trigger] teams@[i]@.len() == (if i == k
                - 1 {
                n / k + n % k
            } else {
                n / k
            }) by {
                lemma_team_bounds(n, k, i as nat);
            }
            assert(teams@[k - 1]@.len() == n / k + n % k);
            assert(is_shuffled_split(teams@, members@, k));
        }
    }
    r
}

/// The reply to a request for `team_count` teams out of `members`: the
/// members shuffled and split as `partition` does, one line per team.
pub fn teams_message(members: Vec<String>, team_count: usize) -> (r: Result<String, TeamError>)
    ensures
        team_count == 0 <==> r == Err::<String, TeamError>(TeamError::InvalidTeamCount),
        r is Ok <==> team_count > 0,
        r matches Ok(text) ==> exists|teams: Seq<Vec<String>>|
            is_shuffled_split(teams, members@, team_count as nat) && text@ == team_lines(teams),
{
    match partition(members, team_count) {
        Ok(teams) => Ok(render_teams(&teams)),
        Err(e) => Err(e),
    }
}

} // verus!
