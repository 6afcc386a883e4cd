//! The single-connection guard: the connection has one holder at a time, and
//! those who find it taken wait in the order in which they came.
//!
//! The guard hands out tickets and keeps the order; it does not block. Whoever
//! is told to wait does so by its own means until a release names its ticket.

use vstd::prelude::*;

verus! {

/// One entry in the record of who held the connection.
pub enum Turn {
    /// The connection was handed to the caller with this ticket.
    Granted(u64),
    /// The caller with this ticket gave the connection back.
    Released(u64),
}

/// Who holds the connection after the turns of `history`, read from the
/// first; `None` where the record is broken: a grant while the connection was
/// held, or a release by one who did not hold it.
pub open spec fn holder_after(history: Seq<Turn>) -> Option<Option<u64>>
    decreases history.len(),
{
    if history.len() == 0 {
        Some(None)
    } else {
        match (holder_after(history.drop_last()), history.last()) {
            (Some(None), Turn::Granted(ticket)) => Some(Some(ticket)),
            (Some(Some(holder)), Turn::Released(ticket)) => if holder == ticket {
                Some(None)
            } else {
                None
            },
            _ => None,
        }
    }
}

/// Whether every grant in `history` found the connection free and every
/// release came from its holder.
pub open spec fn exclusive(history: Seq<Turn>) -> bool {
    holder_after(history) is Some
}

/// The guard of one connection.
pub struct Guard {
    holder: Option<u64>,
    waiting: Vec<u64>,
    issued: u64,
    history: Ghost<Seq<Turn>>,
}

/// The mathematical content of a [`Guard`].
pub struct GuardView {
    /// The ticket that holds the connection.
    pub holder: Option<u64>,
    /// The tickets that wait, the one that came first in front.
    pub waiting: Seq<u64>,
    /// The number of tickets handed out.
    pub issued: nat,
    /// Every grant and release so far.
    pub history: Seq<Turn>,
}

impl GuardView {
    /// The record is sound and agrees with the holder; nobody waits while the
    /// connection is free; tickets are those handed out, each at most once,
    /// and who came earlier stands further in front.
    pub open spec fn wf(self) -> bool {
        &&& holder_after(self.history) == Some(self.holder)
        &&& self.holder is None ==> self.waiting.len() == 0
        &&& self.holder matches Some(holder) ==> holder < self.issued
        &&& forall|i: int| 0 <= i < self.waiting.len() ==> #[trigger] self.waiting[i] < self.issued
        &&& forall|i: int, j: int|
            0 <= i < j < self.waiting.len() ==> #[trigger] self.waiting[i] < #[trigger] self.waiting[j]
        &&& forall|i: int|
            0 <= i < self.waiting.len() ==> self.holder->Some_0 < #[trigger] self.waiting[i]
    }
}

impl View for Guard {
    type V = GuardView;

    closed spec fn view(&self) -> GuardView {
        GuardView {
            holder: self.holder,
            waiting: self.waiting@,
            issued: self.issued as nat,
            history: self.history@,
        }
    }
}

impl Guard {
    /// A guard whose connection is free.
    pub fn new() -> (guard: Guard)
        ensures
            guard@ == (GuardView {
                holder: None,
                waiting: Seq::<u64>::empty(),
                issued: 0,
                history: Seq::<Turn>::empty(),
            }),
            guard@.wf(),
    {
        Guard { holder: None, waiting: Vec::new(), issued: 0, history: Ghost(Seq::empty()) }
    }

    /// The ticket that holds the connection.
    pub fn holder(&self) -> (holder: Option<u64>)
        ensures
            holder == self@.holder,
    {
        self.holder
    }

    /// The number of tickets that wait.
    pub fn waiting(&self) -> (count: usize)
        ensures
            count == self@.waiting.len(),
    {
        self.waiting.len()
    }

    /// Whether another ticket can be handed out.
    pub fn has_tickets(&self) -> (any: bool)
        ensures
            any == (self@.issued < u64::MAX),
    {
        self.issued < u64::MAX
    }

    /// Takes in a caller: hands it a fresh ticket and, where the connection
    /// is free, the connection with it. Otherwise the caller waits behind
    /// those who came before.
    pub fn arrive(&mut self) -> (admission: (u64, bool))
        requires
            old(self)@.wf(),
            old(self)@.issued < u64::MAX,
        ensures
            final(self)@.wf(),
            admission.0 == old(self)@.issued,
            admission.1 == (old(self)@.holder is None),
            final(self)@ == if old(self)@.holder is None {
                GuardView {
                    holder: Some(admission.0),
                    issued: old(self)@.issued + 1,
                    history: old(self)@.history.push(Turn::Granted(admission.0)),
                    ..old(self)@
                }
            } else {
                GuardView {
                    waiting: old(self)@.waiting.push(admission.0),
                    issued: old(self)@.issued + 1,
                    ..old(self)@
                }
            },
    {
        let ticket: u64 = self.issued;
        self.issued = self.issued + 1;
        match self.holder {
            None => {
                self.holder = Some(ticket);
                proof {
                    let grown = self.history@.push(Turn::Granted(ticket));
                    assert(grown.drop_last() =~= self.history@);
                }
                self.history = Ghost(self.history@.push(Turn::Granted(ticket)));
                (ticket, true)
            },
            Some(_) => {
                self.waiting.push(ticket);
                (ticket, false)
            },
        }
    }

    /// Takes the connection back from `ticket`, or takes `ticket` out of the
    /// line if it still waits. Where the holder releases and someone waits,
    /// the connection goes to the one in front, whose ticket is returned.
    /// A ticket that neither holds nor waits changes nothing.
    pub fn release(&mut self, ticket: u64) -> (next: Option<u64>)
        requires
            old(self)@.wf(),
        ensures
            final(self)@.wf(),
            old(self)@.holder == Some(ticket) && old(self)@.waiting.len() > 0 ==> {
                &&& next == Some(old(self)@.waiting[0])
                &&& final(self)@ == (GuardView {
                    holder: next,
                    waiting: old(self)@.waiting.subrange(1, old(self)@.waiting.len() as int),
                    history: old(self)@.history.push(Turn::Released(ticket)).push(
                        Turn::Granted(old(self)@.waiting[0]),
                    ),
                    ..old(self)@
                })
            },
            old(self)@.holder == Some(ticket) && old(self)@.waiting.len() == 0 ==> {
                &&& next is None
                &&& final(self)@ == (GuardView {
                    holder: None,
                    history: old(self)@.history.push(Turn::Released(ticket)),
                    ..old(self)@
                })
            },
            old(self)@.holder != Some(ticket) ==> {
                &&& next is None
                &&& final(self)@.holder == old(self)@.holder
                &&& final(self)@.issued == old(self)@.issued
                &&& final(self)@.history == old(self)@.history
                &&& !old(self)@.waiting.contains(ticket) ==> final(self)@.waiting == old(self)@.waiting
                &&& old(self)@.waiting.contains(ticket) ==> exists|i: int|
                    0 <= i < old(self)@.waiting.len() && old(self)@.waiting[i] == ticket && final(self)@.waiting == old(self)@.waiting.remove(i)
            },
    {
        if self.holder == Some(ticket) {
            proof {
                let released = self.history@.push(Turn::Released(ticket));
                assert(released.drop_last() =~= self.history@);
            }
            self.history = Ghost(self.history@.push(Turn::Released(ticket)));
            assert(holder_after(self.history@) == Some(None::<u64>));
            if self.waiting.len() > 0 {
                let front = self.waiting.remove(0);
                proof {
                    let granted = self.history@.push(Turn::Granted(front));
                    assert(granted.drop_last() =~= self.history@);
                    assert(self.waiting@ =~= old(self)@.waiting.subrange(
                        1,
                        old(self)@.waiting.len() as int,
                    ));
                    assert forall|i: int| 0 <= i < self.waiting@.len() implies front
                        < #[trigger] self.waiting@[i] by {
                        assert(self.waiting@[i] == old(self)@.waiting[i + 1]);
                    }
                    assert forall|i: int, j: int| 0 <= i < j < self.waiting@.len() implies
                        #[trigger] self.waiting@[i] < #[trigger] self.waiting@[j] by {
                        assert(self.waiting@[i] == old(self)@.waiting[i + 1]);
                        assert(self.waiting@[j] == old(self)@.waiting[j + 1]);
                    }
                }
                self.history = Ghost(self.history@.push(Turn::Granted(front)));
                self.holder = Some(front);
                assert(holder_after(self.history@) == Some(Some(front)));
                assert(self@.wf());
                Some(front)
            } else {
                self.holder = None;
                assert(self@.wf());
                None
            }
        } else {
            let mut at: usize = 0;
            while at < self.waiting.len()
                invariant
                    old(self)@.wf(),
                    old(self)@.holder != Some(ticket),
                    at <= self.waiting@.len(),
                    self.waiting@ == old(self)@.waiting,
                    self.holder == old(self)@.holder,
                    self.issued == old(self)@.issued,
                    self.history@ == old(self)@.history,
                    forall|i: int| 0 <= i < at ==> self.waiting@[i] != ticket,
                decreases self.waiting@.len() - at,
            {
                if self.waiting[at] == ticket {
                    self.waiting.remove(at);
                    proof {
                        let before = old(self)@.waiting;
                        assert(before.contains(ticket));
                        assert forall|i: int, j: int|
                            0 <= i < j < self.waiting@.len() implies #[trigger] self.waiting@[i]
                            < #[trigger] self.waiting@[j] by {
                            let from_i = if i < at as int {
                                i
                            } else {
                                i + 1
                            };
                            let from_j = if j < at as int {
                                j
                            } else {
                                j + 1
                            };
                            assert(self.waiting@[i] == before[from_i]);
                            assert(self.waiting@[j] == before[from_j]);
                        }
                        assert forall|i: int| 0 <= i < self.waiting@.len() implies {
                            &&& #[trigger] self.waiting@[i] < self.issued
                            &&& self.holder->Some_0 < self.waiting@[i]
                        } by {
                            let from_i = if i < at as int {
                                i
                            } else {
                                i + 1
                            };
                            assert(self.waiting@[i] == before[from_i]);
                        }
                    }
                    return None;
                }
                at = at + 1;
            }
            proof {
                let before = old(self)@.waiting;
                if before.contains(ticket) {
                    let i = choose|i: int| 0 <= i < before.len() && before[i] == ticket;
                    assert(self.waiting@[i] != ticket);
                }
            }
            None
        }
    }
}

/// A sound record stays sound when its last turns are left out.
pub proof fn lemma_exclusive_prefix(history: Seq<Turn>, n: int)
    requires
        exclusive(history),
        0 <= n <= history.len(),
    ensures
        exclusive(history.take(n)),
    decreases history.len(),
{
    if n == history.len() {
        assert(history.take(n) =~= history);
    } else {
        assert(history.drop_last().take(n) =~= history.take(n));
        lemma_exclusive_prefix(history.drop_last(), n);
    }
}

/// In a sound record, the one who was granted the connection holds it until
/// the record shows the release.
proof fn lemma_holds_until_released(history: Seq<Turn>, i: int, m: int)
    requires
        exclusive(history),
        0 <= i < m <= history.len(),
        history[i] is Granted,
        forall|k: int| i < k < m ==> history[k] != Turn::Released(history[i]->Granted_0),
    ensures
        holder_after(history.take(m)) == Some(Some(history[i]->Granted_0)),
    decreases m - i,
{
    let prefix = history.take(m);
    lemma_exclusive_prefix(history, m);
    assert(prefix.drop_last() =~= history.take(m - 1));
    assert(prefix.last() == history[m - 1]);
    if m == i + 1 {
    } else {
        lemma_holds_until_released(history, i, m - 1);
    }
}

/// The spans in which the connection is held never overlap: in a sound
/// record, between any two grants lies the release of the first.
pub proof fn lemma_held_spans_never_overlap(history: Seq<Turn>, i: int, j: int)
    requires
        exclusive(history),
        0 <= i < j < history.len(),
        history[i] is Granted,
        history[j] is Granted,
    ensures
        exists|k: int| i < k < j && history[k] == Turn::Released(history[i]->Granted_0),
{
    if forall|k: int| i < k < j ==> history[k] != Turn::Released(history[i]->Granted_0) {
        lemma_holds_until_released(history, i, j);
        lemma_exclusive_prefix(history, j + 1);
        let prefix = history.take(j + 1);
        assert(prefix.drop_last() =~= history.take(j));
        assert(prefix.last() == history[j]);
    }
}

} // verus!
