//! What a load generator decides: how to share the invocations out among its
//! workers, and what to make of each response.

use vstd::prelude::*;
use vstd::string::StringSliceAdditionalSpecFns;

verus! {

/// Whether `needle` stands in `haystack` at position `at`.
pub open spec fn occurs_at(haystack: Seq<u8>, needle: Seq<u8>, at: int) -> bool {
    &&& 0 <= at
    &&& at + needle.len() <= haystack.len()
    &&& haystack.subrange(at, at + needle.len()) == needle
}

/// Whether `needle` stands somewhere in `haystack`.
pub open spec fn contains_bytes(haystack: Seq<u8>, needle: Seq<u8>) -> bool {
    exists|at: int| occurs_at(haystack, needle, at)
}

fn matches_at(haystack: &[u8], needle: &[u8], at: usize) -> (found: bool)
    requires
        at + needle@.len() <= haystack@.len(),
    ensures
        found == occurs_at(haystack@, needle@, at as int),
{
    let length: usize = haystack.len();
    let mut i: usize = 0;
    while i < needle.len()
        invariant
            at + needle@.len() <= haystack@.len(),
            haystack@.len() == length,
            i <= needle@.len(),
            forall|k: int| 0 <= k < i ==> haystack@[at + k] == needle@[k],
        decreases needle@.len() - i,
    {
        if haystack[at + i] != needle[i] {
            proof {
                let part = haystack@.subrange(at as int, at + needle@.len());
                assert(part[i as int] == haystack@[at + i]);
            }
            return false;
        }
        i = i + 1;
    }
    proof {
        assert(haystack@.subrange(at as int, at + needle@.len()) =~= needle@);
    }
    true
}

/// Whether `needle` stands somewhere in `haystack`.
pub fn contains(haystack: &[u8], needle: &[u8]) -> (found: bool)
    ensures
        found == contains_bytes(haystack@, needle@),
{
    if needle.len() > haystack.len() {
        return false;
    }
    let last: usize = haystack.len() - needle.len();
    let mut at: usize = 0;
    while at < last
        invariant
            last + needle@.len() == haystack@.len(),
            at <= last,
            forall|k: int| 0 <= k < at ==> !occurs_at(haystack@, needle@, k),
        decreases last - at,
    {
        if matches_at(haystack, needle, at) {
            return true;
        }
        at = at + 1;
    }
    matches_at(haystack, needle, last)
}

/// Whether the text `word` stands somewhere in the text `payload`.
pub fn mentions(payload: &str, word: &str) -> (found: bool)
    ensures
        found == contains_bytes(payload.spec_bytes(), word.spec_bytes()),
{
    contains(payload.as_bytes(), word.as_bytes())
}

/// What a response turned out to be.
#[derive(Clone, Copy, Debug, PartialEq, Eq, Structural)]
pub enum Outcome {
    /// The transfer went through.
    Success,
    /// The transfer failed for want of funds.
    InsufficientBalance,
    /// The transfer failed otherwise.
    Error,
}

/// What a response is taken for. One that reads as a success is one. Any
/// other is an error if it mentions `errorType` or `errorMessage`, for want
/// of funds if it also mentions `Insufficient balance`; one that mentions
/// neither counts as a success.
pub open spec fn outcome_of(reads_as_success: bool, payload: Seq<u8>) -> Outcome {
    if reads_as_success {
        Outcome::Success
    } else if contains_bytes(payload, "errorType".spec_bytes()) || contains_bytes(
        payload,
        "errorMessage".spec_bytes(),
    ) {
        if contains_bytes(payload, "Insufficient balance".spec_bytes()) {
            Outcome::InsufficientBalance
        } else {
            Outcome::Error
        }
    } else {
        Outcome::Success
    }
}

/// Takes a response for what it is; `reads_as_success` says whether it could
/// be read as the response of a transfer that went through.
pub fn classify_response(reads_as_success: bool, payload: &str) -> (outcome: Outcome)
    ensures
        outcome == outcome_of(reads_as_success, payload.spec_bytes()),
{
    if reads_as_success {
        Outcome::Success
    } else if mentions(payload, "errorType") || mentions(payload, "errorMessage") {
        if mentions(payload, "Insufficient balance") {
            Outcome::InsufficientBalance
        } else {
            Outcome::Error
        }
    } else {
        Outcome::Success
    }
}

/// How many responses of each kind have come in.
#[derive(Clone, Copy, Debug, PartialEq, Eq, Structural)]
pub struct Stats {
    pub success_count: usize,
    pub error_count: usize,
    pub insufficient_balance_count: usize,
}

/// `stats` with one more response of kind `outcome`.
pub open spec fn counted(stats: Stats, outcome: Outcome) -> Stats {
    match outcome {
        Outcome::Success => Stats { success_count: (stats.success_count + 1) as usize, ..stats },
        Outcome::InsufficientBalance => Stats {
            insufficient_balance_count: (stats.insufficient_balance_count + 1) as usize,
            ..stats
        },
        Outcome::Error => Stats { error_count: (stats.error_count + 1) as usize, ..stats },
    }
}

impl Stats {
    /// No responses yet.
    pub fn new() -> (stats: Stats)
        ensures
            stats == (Stats { success_count: 0, error_count: 0, insufficient_balance_count: 0 }),
    {
        Stats { success_count: 0, error_count: 0, insufficient_balance_count: 0 }
    }

    /// Whether one more response of kind `outcome` can be counted.
    pub open spec fn has_room(self, outcome: Outcome) -> bool {
        match outcome {
            Outcome::Success => self.success_count < usize::MAX,
            Outcome::InsufficientBalance => self.insufficient_balance_count < usize::MAX,
            Outcome::Error => self.error_count < usize::MAX,
        }
    }

    /// Counts one response.
    pub fn record(&mut self, outcome: Outcome)
        requires
            old(self).has_room(outcome),
        ensures
            *final(self) == counted(*old(self), outcome),
    {
        match outcome {
            Outcome::Success => {
                self.success_count = self.success_count + 1;
            },
            Outcome::InsufficientBalance => {
                self.insufficient_balance_count = self.insufficient_balance_count + 1;
            },
            Outcome::Error => {
                self.error_count = self.error_count + 1;
            },
        }
    }
}

/// The invocations of worker `worker`, counted from zero, when `iters`
/// invocations numbered from one are shared out among `threads` workers:
/// the first and the last of its numbers. Each worker takes the same number
/// of them, rounded down, one after the other; the last takes the rest too.
/// A worker with nothing to do has a last number one below its first.
pub open spec fn share(iters: nat, threads: nat, worker: nat) -> (nat, nat) {
    let each = iters / threads;
    let first = 1 + worker * each;
    if worker + 1 == threads {
        (first, iters)
    } else {
        (first, (first + each - 1) as nat)
    }
}

/// Shares `iters` invocations out among `threads` workers.
pub fn partition(iters: usize, threads: usize) -> (shares: Vec<(usize, usize)>)
    requires
        threads > 0,
    ensures
        shares@.len() == threads,
        forall|worker: int|
            0 <= worker < threads ==> {
                &&& (#[trigger] shares@[worker]).0 == share(iters as nat, threads as nat, worker as nat).0
                &&& shares@[worker].1 == share(iters as nat, threads as nat, worker as nat).1
            },
{
    let each: usize = iters / threads;
    let remainder: usize = iters % threads;
    let mut shares: Vec<(usize, usize)> = Vec::new();
    let mut start: usize = 1;
    let mut worker: usize = 0;
    proof {
        assert(each * threads + remainder == iters) by (nonlinear_arith)
            requires
                each == iters / threads,
                remainder == iters % threads,
                threads > 0,
        ;
    }
    while worker < threads - 1
        invariant
            threads > 0,
            worker <= threads - 1,
            each == iters / threads,
            each * threads + remainder == iters,
            start == 1 + worker * each,
            shares@.len() == worker,
            forall|w: int|
                0 <= w < worker ==> {
                    &&& (#[trigger] shares@[w]).0 == share(iters as nat, threads as nat, w as nat).0
                    &&& shares@[w].1 == share(iters as nat, threads as nat, w as nat).1
                },
        decreases threads - 1 - worker,
    {
        proof {
            assert((worker + 1) * each <= (threads - 1) * each) by (nonlinear_arith)
                requires
                    worker + 1 <= threads - 1,
                    each >= 0,
            ;
            assert((threads - 1) * each + each == each * threads) by (nonlinear_arith);
            assert((worker + 1) * each == worker * each + each) by (nonlinear_arith);
        }
        let end: usize = start + each - 1;
        shares.push((start, end));
        start = end + 1;
        worker = worker + 1;
    }
    proof {
        assert(worker * each <= each * threads) by (nonlinear_arith)
            requires
                worker <= threads,
                each >= 0,
        ;
    }
    shares.push((start, iters));
    shares
}

} // verus!
