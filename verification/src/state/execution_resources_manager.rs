//! Counting what the calls of a transaction use.
use crate::definitions::block_context::SyscallSteps;
use crate::execution::ExecutionResources;
use crate::state::list_map::ListMap;
use crate::syscalls::syscall_request::{Count, SyscallKind};
use vstd::prelude::*;

verus! {

/// How often a system call was made according to a counter.
pub open spec fn syscall_count(counter: Map<SyscallKind, nat>, kind: SyscallKind) -> nat {
    if counter.contains_key(kind) {
        counter[kind]
    } else {
        0
    }
}

/// The counters of one transaction: the system calls made, by kind, and
/// what the virtual machine used in the runs that have ended.
#[derive(Debug)]
pub struct ExecutionResourcesManager {
    pub syscall_counter: ListMap<SyscallKind, Count>,
    pub cairo_usage: ExecutionResources,
}

impl ExecutionResourcesManager {
    /// Counters that have counted nothing.
    pub fn new() -> (r: ExecutionResourcesManager)
        ensures
            r.syscall_counter@ == Map::<SyscallKind, nat>::empty(),
            r.cairo_usage == ExecutionResources::zero(),
    {
        ExecutionResourcesManager {
            syscall_counter: ListMap::new(),
            cairo_usage: ExecutionResources::new(),
        }
    }

    /// How often a system call was made.
    pub fn get_syscall_counter(&self, kind: SyscallKind) -> (r: u64)
        ensures
            r == syscall_count(self.syscall_counter@, kind),
    {
        match self.syscall_counter.get(&kind) {
            Some(c) => c.0,
            None => 0,
        }
    }

    /// Counts `amount` more calls of a kind. Where the count cannot be held,
    /// nothing changes and the answer is `false`.
    pub fn increment_syscall_counter(&mut self, kind: SyscallKind, amount: u64) -> (r: bool)
        ensures
            r == (syscall_count(old(self).syscall_counter@, kind) + amount <= u64::MAX),
            final(self).cairo_usage == old(self).cairo_usage,
            final(self).syscall_counter@ == (if r {
                old(self).syscall_counter@.insert(
                    kind,
                    (syscall_count(old(self).syscall_counter@, kind) + amount) as nat,
                )
            } else {
                old(self).syscall_counter@
            }),
    {
        let current = self.get_syscall_counter(kind);
        match current.checked_add(amount) {
            Some(next) => {
                self.syscall_counter.insert(kind, Count(next));
                true
            },
            None => false,
        }
    }

    /// How many system calls were made in all, as far as the sum can be held.
    pub fn total_syscalls(&self) -> (r: Option<u64>)
        ensures
            r matches Some(n) ==> n == total_count(self.syscall_counter@, self.syscall_counter.keys()),
            r is None ==> total_count(self.syscall_counter@, self.syscall_counter.keys()) > u64::MAX,
    {
        let n = self.syscall_counter.len();
        let mut total: u64 = 0;
        let mut i: usize = 0;
        while i < n
            invariant
                0 <= i <= n,
                n == self.syscall_counter.keys().len(),
                total == total_count(
                    self.syscall_counter@,
                    self.syscall_counter.keys().subrange(0, i as int),
                ),
            decreases n - i,
        {
            let c = self.syscall_counter.value_at(i);
            proof {
                let keys = self.syscall_counter.keys();
                assert(keys.subrange(0, i + 1).drop_last() =~= keys.subrange(0, i as int));
                lemma_total_count_monotone(self.syscall_counter@, keys, i + 1);
            }
            match total.checked_add(c.0) {
                Some(t) => {
                    total = t;
                },
                None => {
                    return None;
                },
            }
            i += 1;
        }
        assert(self.syscall_counter.keys().subrange(0, n as int) =~= self.syscall_counter.keys());
        Some(total)
    }

    /// The steps that the system calls made stand for, as far as the sum
    /// can be held.
    pub fn weighted_syscalls(&self, steps: &SyscallSteps) -> (r: Option<usize>)
        ensures
            r matches Some(n) ==> n == weighted_count(
                self.syscall_counter@,
                self.syscall_counter.keys(),
                *steps,
            ),
            r is None ==> weighted_count(
                self.syscall_counter@,
                self.syscall_counter.keys(),
                *steps,
            ) > usize::MAX,
    {
        let n = self.syscall_counter.len();
        let mut total: usize = 0;
        let mut i: usize = 0;
        while i < n
            invariant
                0 <= i <= n,
                n == self.syscall_counter.keys().len(),
                total == weighted_count(
                    self.syscall_counter@,
                    self.syscall_counter.keys().subrange(0, i as int),
                    *steps,
                ),
            decreases n - i,
        {
            let kind = self.syscall_counter.key_at(i);
            let count = self.syscall_counter.value_at(i);
            proof {
                let keys = self.syscall_counter.keys();
                assert(keys.subrange(0, i + 1).drop_last() =~= keys.subrange(0, i as int));
                assert(keys.subrange(0, i + 1).last() == kind);
                lemma_weighted_count_monotone(self.syscall_counter@, keys, *steps, i + 1);
            }
            let weight = steps.of(kind);
            let term = match (count.0 as u128).checked_mul(weight as u128) {
                Some(t) => t,
                None => {
                    return None;
                },
            };
            total = match (total as u128).checked_add(term) {
                Some(t) if t <= usize::MAX as u128 => t as usize,
                _ => {
                    return None;
                },
            };
            i += 1;
        }
        assert(self.syscall_counter.keys().subrange(0, n as int) =~= self.syscall_counter.keys());
        Some(total)
    }
}

/// The sum of the counts of a list of kinds.
pub open spec fn total_count(counter: Map<SyscallKind, nat>, kinds: Seq<SyscallKind>) -> nat
    decreases kinds.len(),
{
    if kinds.len() == 0 {
        0
    } else {
        total_count(counter, kinds.drop_last()) + counter[kinds.last()]
    }
}

/// The sum over a prefix of a list of kinds is at most the sum over the list.
pub proof fn lemma_total_count_monotone(
    counter: Map<SyscallKind, nat>,
    kinds: Seq<SyscallKind>,
    n: int,
)
    requires
        0 <= n <= kinds.len(),
    ensures
        total_count(counter, kinds.subrange(0, n)) <= total_count(counter, kinds),
    decreases kinds.len() - n,
{
    if n == kinds.len() {
        assert(kinds.subrange(0, n) =~= kinds);
    } else {
        lemma_total_count_monotone(counter, kinds.drop_last(), n);
        assert(kinds.drop_last().subrange(0, n) =~= kinds.subrange(0, n));
    }
}

/// The steps that the counted system calls of a list of kinds stand for.
pub open spec fn weighted_count(
    counter: Map<SyscallKind, nat>,
    kinds: Seq<SyscallKind>,
    steps: SyscallSteps,
) -> nat
    decreases kinds.len(),
{
    if kinds.len() == 0 {
        0
    } else {
        weighted_count(counter, kinds.drop_last(), steps) + counter[kinds.last()] * steps.spec_of(
            kinds.last(),
        ) as nat
    }
}

/// The steps of a prefix of a list of kinds are at most those of the list.
pub proof fn lemma_weighted_count_monotone(
    counter: Map<SyscallKind, nat>,
    kinds: Seq<SyscallKind>,
    steps: SyscallSteps,
    n: int,
)
    requires
        0 <= n <= kinds.len(),
    ensures
        weighted_count(counter, kinds.subrange(0, n), steps) <= weighted_count(
            counter,
            kinds,
            steps,
        ),
    decreases kinds.len() - n,
{
    if n == kinds.len() {
        assert(kinds.subrange(0, n) =~= kinds);
    } else {
        lemma_weighted_count_monotone(counter, kinds.drop_last(), steps, n);
        assert(kinds.drop_last().subrange(0, n) =~= kinds.subrange(0, n));
        assert(counter[kinds.last()] * steps.spec_of(kinds.last()) as nat >= 0)
            by (nonlinear_arith);
    }
}

} // verus!
