//! The cancellation registry: one cancellation signal per effect group.

use tokio_util::sync::CancellationToken;
use vstd::prelude::*;

verus! {

/// What the registry knows of one effect group.
struct Signal {
    /// The group's name.
    name: String,
    /// The signal handed to every effect of the group.
    token: CancellationToken,
    /// Whether the registry has fired the signal.
    fired: bool,
}

/// The mathematical value of a registered group: its signal, and whether
/// the registry has fired it.
pub struct SignalState {
    pub token: CancellationToken,
    pub fired: bool,
}

/// Maps each group name to its cancellation signal. An entry appears when
/// the group is first registered and is never removed or replaced; a fired
/// signal stays fired.
pub struct Registry {
    entries: Vec<Signal>,
}

/// Whether some entry of `entries` is named `name`.
spec fn has_name(entries: Seq<Signal>, name: Seq<char>) -> bool {
    exists|i: int| 0 <= i < entries.len() && (#[trigger] entries[i]).name@ == name
}

/// An index at which `entries` holds the name `name`.
spec fn index_of_name(entries: Seq<Signal>, name: Seq<char>) -> int {
    choose|i: int| 0 <= i < entries.len() && (#[trigger] entries[i]).name@ == name
}

/// No two entries share a name.
spec fn distinct_names(entries: Seq<Signal>) -> bool {
    forall|i: int, j: int|
        0 <= i < entries.len() && 0 <= j < entries.len() && (#[trigger] entries[i]).name@ == (
        #[trigger] entries[j]).name@ ==> i == j
}

/// The map that a list of entries with distinct names stands for.
spec fn entries_map(entries: Seq<Signal>) -> Map<Seq<char>, SignalState> {
    Map::new(
        |name: Seq<char>| has_name(entries, name),
        |name: Seq<char>|
            SignalState {
                token: entries[index_of_name(entries, name)].token,
                fired: entries[index_of_name(entries, name)].fired,
            },
    )
}

/// `m` with every signal fired.
pub open spec fn all_fired(m: Map<Seq<char>, SignalState>) -> Map<Seq<char>, SignalState> {
    Map::new(
        |name: Seq<char>| m.dom().contains(name),
        |name: Seq<char>| SignalState { token: m[name].token, fired: true },
    )
}

/// `m` with the signal of `name` fired, if `name` is registered.
pub open spec fn fired_one(m: Map<Seq<char>, SignalState>, name: Seq<char>) -> Map<
    Seq<char>,
    SignalState,
> {
    if m.dom().contains(name) {
        m.insert(name, SignalState { token: m[name].token, fired: true })
    } else {
        m
    }
}

/// Calls `CancellationToken::new`. The new token is in the non-cancelled
/// state, which no clause can express: a token's state is shared and mutable.
#[verifier::external_body]
pub(crate) fn fresh_token() -> CancellationToken {
    CancellationToken::new()
}

/// Calls `CancellationToken::clone`. The clone shares the state of the
/// token it was made from and compares equal to it under the token's own
/// `==`: cancelling either cancels both.
#[verifier::external_body]
pub(crate) fn clone_token(token: &CancellationToken) -> (copy: CancellationToken)
    ensures
        copy == *token,
{
    token.clone()
}

/// Calls `CancellationToken::cancel`, which latches the token, and every
/// clone of it, in the cancelled state, and then asks the token with
/// `CancellationToken::is_cancelled`. Once `cancel` has returned the token
/// answers that it is cancelled, and goes on doing so.
#[verifier::external_body]
pub(crate) fn fire_token(token: &CancellationToken) -> (cancelled: bool)
    ensures
        cancelled,
{
    token.cancel();
    token.is_cancelled()
}

impl View for Registry {
    type V = Map<Seq<char>, SignalState>;

    closed spec fn view(&self) -> Map<Seq<char>, SignalState> {
        entries_map(self.entries@)
    }
}

impl Registry {
    /// The registry's invariant: no two entries share a name.
    pub closed spec fn wf(&self) -> bool {
        distinct_names(self.entries@)
    }

    /// An empty registry.
    pub fn new() -> (r: Registry)
        ensures
            r.wf(),
            r@ == Map::<Seq<char>, SignalState>::empty(),
    {
        let r = Registry { entries: Vec::new() };
        assert(r@ =~= Map::<Seq<char>, SignalState>::empty());
        r
    }

    /// The position of the entry named `name`.
    fn find(&self, name: &String) -> (found: Option<usize>)
        ensures
            match found {
                Some(i) => i < self.entries@.len() && self.entries@[i as int].name@ == name@,
                None => !has_name(self.entries@, name@),
            },
    {
        let mut i: usize = 0;
        while i < self.entries.len()
            invariant
                i <= self.entries@.len(),
                forall|j: int| 0 <= j < i ==> (#[trigger] self.entries@[j]).name@ != name@,
            decreases self.entries@.len() - i,
        {
            if self.entries[i].name == *name {
                return Some(i);
            }
            i += 1;
        }
        None
    }

    /// Whether a group named `name` is registered.
    pub fn contains(&self, name: &str) -> (b: bool)
        ensures
            b == self@.dom().contains(name@),
    {
        let owned = name.to_owned();
        self.find(&owned).is_some()
    }

    /// Whether the registry has fired the signal of `name`; `None` when no
    /// such group is registered.
    pub fn is_fired(&self, name: &str) -> (fired: Option<bool>)
        requires
            self.wf(),
        ensures
            fired == if self@.dom().contains(name@) {
                Some(self@[name@].fired)
            } else {
                None
            },
    {
        let owned = name.to_owned();
        match self.find(&owned) {
            Some(i) => Some(self.entries[i].fired),
            None => None,
        }
    }

    /// A clone of the signal of group `name`; `None` when no such group is
    /// registered. Every call for one name hands out the same signal.
    pub fn token(&self, name: &str) -> (token: Option<CancellationToken>)
        requires
            self.wf(),
        ensures
            token == if self@.dom().contains(name@) {
                Some(self@[name@].token)
            } else {
                None
            },
    {
        let owned = name.to_owned();
        match self.find(&owned) {
            Some(i) => Some(clone_token(&self.entries[i].token)),
            None => None,
        }
    }

    /// Makes sure that group `name` has a signal: an absent group gets a
    /// fresh, unfired one, a present group keeps what it has. Returns whether
    /// an entry was added.
    pub fn register(&mut self, name: &str) -> (added: bool)
        requires
            old(self).wf(),
        ensures
            final(self).wf(),
            added == !old(self)@.dom().contains(name@),
            final(self)@.dom() == old(self)@.dom().insert(name@),
            forall|n: Seq<char>| old(self)@.dom().contains(n) ==> final(self)@[n] == old(self)@[n],
            added ==> !final(self)@[name@].fired,
    {
        let owned = name.to_owned();
        if self.find(&owned).is_some() {
            assert(self@.dom() =~= old(self)@.dom().insert(name@));
            return false;
        }
        let ghost before = self.entries@;
        self.entries.push(Signal { name: owned, token: fresh_token(), fired: false });
        proof {
            let after = self.entries@;
            assert(forall|i: int| 0 <= i < before.len() ==> after[i] == before[i]);
            assert(after[before.len() as int].name@ == name@);
            assert(distinct_names(after));
            assert forall|n: Seq<char>| has_name(after, n) <==> (has_name(before, n) || n == name@) by {
                if has_name(before, n) {
                    let i = index_of_name(before, n);
                    assert(after[i].name@ == n);
                }
            }
            assert(self@.dom() =~= old(self)@.dom().insert(name@));
            assert forall|n: Seq<char>| old(self)@.dom().contains(n) implies self@[n] == old(self)@[n] by {
                let i = index_of_name(before, n);
                let j = index_of_name(after, n);
                assert(after[i].name@ == n);
                assert(i == j);
            }
            let k = index_of_name(after, name@);
            assert(k == before.len());
        }
        true
    }

    /// Fires the signal of group `name`, if it is registered, and returns
    /// whether it is. A fired signal stays fired; other groups are untouched.
    pub fn cancel(&mut self, name: &str) -> (found: bool)
        requires
            old(self).wf(),
        ensures
            final(self).wf(),
            found == old(self)@.dom().contains(name@),
            final(self)@ == fired_one(old(self)@, name@),
    {
        let owned = name.to_owned();
        match self.find(&owned) {
            Some(i) => {
                let ghost before = self.entries@;
                let fired = fire_token(&self.entries[i].token);
                self.entries[i].fired = fired;
                proof {
                    let after = self.entries@;
                    lemma_same_names(before, after);
                    assert forall|n: Seq<char>| has_name(before, n) implies #[trigger] self@[n]
                        == fired_one(old(self)@, name@)[n] by {
                        let j = index_of_name(before, n);
                        assert(index_of_name(after, n) == j);
                    }
                    assert(self@ =~= fired_one(old(self)@, name@));
                }
                true
            },
            None => false,
        }
    }

    /// Fires every registered signal.
    pub fn cancel_all(&mut self)
        requires
            old(self).wf(),
        ensures
            final(self).wf(),
            final(self)@ == all_fired(old(self)@),
    {
        let ghost before = self.entries@;
        let mut i: usize = 0;
        while i < self.entries.len()
            invariant
                i <= self.entries@.len(),
                self.entries@.len() == before.len(),
                distinct_names(before),
                forall|j: int|
                    0 <= j < before.len() ==> (#[trigger] self.entries@[j]).name == before[j].name
                        && self.entries@[j].token == before[j].token,
                forall|j: int| 0 <= j < i ==> (#[trigger] self.entries@[j]).fired,
            decreases self.entries@.len() - i,
        {
            let fired = fire_token(&self.entries[i].token);
            self.entries[i].fired = fired;
            i += 1;
        }
        proof {
            let after = self.entries@;
            lemma_same_names(before, after);
            assert forall|n: Seq<char>| has_name(before, n) implies #[trigger] self@[n] == all_fired(
                old(self)@,
            )[n] by {
                let j = index_of_name(before, n);
                assert(index_of_name(after, n) == j);
            }
            assert(self@ =~= all_fired(old(self)@));
        }
    }
}

/// Two lists that hold the same names at the same positions have the same
/// names, found at the same positions.
proof fn lemma_same_names(before: Seq<Signal>, after: Seq<Signal>)
    requires
        before.len() == after.len(),
        distinct_names(before),
        forall|j: int| 0 <= j < before.len() ==> (#[trigger] after[j]).name@ == before[j].name@,
    ensures
        distinct_names(after),
        forall|n: Seq<char>| has_name(after, n) == has_name(before, n),
        forall|n: Seq<char>|
            has_name(before, n) ==> #[trigger] index_of_name(after, n) == index_of_name(before, n),
{
    assert forall|n: Seq<char>| has_name(after, n) == has_name(before, n) by {
        if has_name(after, n) {
            let i = index_of_name(after, n);
            assert(before[i].name@ == n);
        }
        if has_name(before, n) {
            let i = index_of_name(before, n);
            assert(after[i].name@ == n);
        }
    }
    assert forall|n: Seq<char>| has_name(before, n) implies #[trigger] index_of_name(after, n)
        == index_of_name(before, n) by {
        let i = index_of_name(before, n);
        assert(after[i].name@ == n);
        let j = index_of_name(after, n);
        assert(before[j].name@ == n);
    }
}

} // verus!
