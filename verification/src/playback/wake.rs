//! Wake-ups that the media side asks of the event loop, coalesced until they are taken.

use vstd::prelude::*;

verus! {

#[derive(Clone, Copy, Debug, PartialEq, Eq, Structural)]
pub enum PlaybackWakeKind {
    Audio,
    Video,
    Control,
}

impl PlaybackWakeKind {
    pub open spec fn mask(self) -> u8 {
        match self {
            PlaybackWakeKind::Audio => 1,
            PlaybackWakeKind::Video => 2,
            PlaybackWakeKind::Control => 4,
        }
    }

    pub fn bit(self) -> (bit: u8)
        ensures
            bit == self.mask(),
    {
        match self {
            PlaybackWakeKind::Audio => 1,
            PlaybackWakeKind::Video => 2,
            PlaybackWakeKind::Control => 4,
        }
    }
}

/// A set of kinds of wake-up.
#[derive(Clone, Copy, Debug, PartialEq, Eq, Structural)]
pub struct PendingPlaybackWakes {
    pub bits: u8,
}

impl PendingPlaybackWakes {
    pub open spec fn has(self, kind: PlaybackWakeKind) -> bool {
        self.bits & kind.mask() != 0
    }

    /// Only the bits of the three kinds are set.
    pub open spec fn valid(self) -> bool {
        self.bits < 8
    }

    pub open spec fn none() -> Self {
        PendingPlaybackWakes { bits: 0 }
    }

    pub fn contains(self, kind: PlaybackWakeKind) -> (contains: bool)
        ensures
            contains == self.has(kind),
    {
        self.bits & kind.bit() != 0
    }

    pub fn is_empty(self) -> (empty: bool)
        ensures
            empty == (self == Self::none()),
    {
        self.bits == 0
    }
}

impl Default for PendingPlaybackWakes {
    fn default() -> (pending: Self)
        ensures
            pending == Self::none(),
    {
        PendingPlaybackWakes { bits: 0 }
    }
}

/// The pending wake-ups, and whether anyone is to be notified of them. Whoever wakes and
/// whoever takes share one value; it cannot be copied.
#[derive(Debug, PartialEq, Eq, Structural)]
pub struct PlaybackWake {
    pub pending: PendingPlaybackWakes,
    pub notifies: bool,
}

impl Default for PlaybackWake {
    fn default() -> (wake: Self)
        ensures
            wake == (PlaybackWake { pending: PendingPlaybackWakes::none(), notifies: false }),
    {
        PlaybackWake::noop()
    }
}

impl PlaybackWake {
    pub fn new() -> (wake: Self)
        ensures
            wake == (PlaybackWake { pending: PendingPlaybackWakes::none(), notifies: true }),
    {
        PlaybackWake { pending: PendingPlaybackWakes { bits: 0 }, notifies: true }
    }

    /// One that never asks for a notification.
    pub fn noop() -> (wake: Self)
        ensures
            wake == (PlaybackWake { pending: PendingPlaybackWakes::none(), notifies: false }),
    {
        PlaybackWake { pending: PendingPlaybackWakes { bits: 0 }, notifies: false }
    }

    /// Records a wake-up and says whether to notify: only the first one since the pending
    /// ones were taken does.
    pub fn wake(&mut self, kind: PlaybackWakeKind) -> (notify: bool)
        ensures
            forall|caller: nat|
                *final(self) == #[trigger] old(self).called(WakeCall::Wake { caller, kind }),
            final(self).pending.bits == old(self).pending.bits | kind.mask(),
            notify == old(self).would_notify(),
    {
        let previous: u8 = self.pending.bits;
        self.pending = PendingPlaybackWakes { bits: previous | kind.bit() };
        self.notifies && previous == 0
    }

    /// Takes the pending wake-ups, so that none are left.
    pub fn take_pending(&mut self) -> (pending: PendingPlaybackWakes)
        ensures
            pending == old(self).pending,
            forall|caller: nat|
                *final(self) == #[trigger] old(self).called(WakeCall::Take { caller }),
            *final(self) == (PlaybackWake {
                pending: PendingPlaybackWakes::none(),
                notifies: old(self).notifies,
            }),
    {
        let pending = self.pending;
        self.pending = PendingPlaybackWakes { bits: 0 };
        pending
    }
}

/// A call on the shared wake-ups, by whichever of those who share them.
pub enum WakeCall {
    Wake { caller: nat, kind: PlaybackWakeKind },
    Take { caller: nat },
}

impl PlaybackWake {
    /// Only the bits of the three kinds are pending.
    pub open spec fn wf(self) -> bool {
        self.pending.valid()
    }

    /// The wake-ups after a call, as `wake` and `take_pending` leave them.
    pub open spec fn called(self, call: WakeCall) -> PlaybackWake {
        match call {
            WakeCall::Wake { kind, .. } => PlaybackWake {
                pending: PendingPlaybackWakes { bits: self.pending.bits | kind.mask() },
                ..self
            },
            WakeCall::Take { .. } => PlaybackWake { pending: PendingPlaybackWakes::none(), ..self },
        }
    }

    /// The wake-ups after a number of calls.
    pub open spec fn after_calls(self, calls: Seq<WakeCall>) -> PlaybackWake
        decreases calls.len(),
    {
        if calls.len() == 0 {
            self
        } else {
            self.after_calls(calls.drop_last()).called(calls.last())
        }
    }

    /// Whether the next wake-up is to be notified of.
    pub open spec fn would_notify(self) -> bool {
        self.notifies && self.pending == PendingPlaybackWakes::none()
    }
}

/// Whether somebody woke with `kind` in `calls`, and nobody has taken the pending ones since.
pub open spec fn woken_since_taken(calls: Seq<WakeCall>, kind: PlaybackWakeKind) -> bool {
    exists|i: int|
        #![trigger calls[i]]
        0 <= i < calls.len() && (calls[i] matches WakeCall::Wake { kind: woken, .. } && woken == kind)
            && (forall|j: int| i < j < calls.len() ==> calls[j] is Wake)
}

/// The pending kinds are those that were woken with, by whomever, since the pending ones were
/// last taken, and no others.
pub proof fn pending_kinds_are_those_woken(
    calls: Seq<WakeCall>,
    notifies: bool,
    kind: PlaybackWakeKind,
)
    ensures
        ({
            let fresh = PlaybackWake { pending: PendingPlaybackWakes::none(), notifies };
            let wake = fresh.after_calls(calls);
            &&& wake.wf()
            &&& wake.notifies == notifies
            &&& wake.pending.has(kind) == woken_since_taken(calls, kind)
        }),
    decreases calls.len(),
{
    let fresh = PlaybackWake { pending: PendingPlaybackWakes::none(), notifies };
    let mask = kind.mask();
    assert(0u8 & mask == 0u8) by (bit_vector);
    if calls.len() > 0 {
        let earlier = calls.drop_last();
        pending_kinds_are_those_woken(earlier, notifies, kind);
        match calls.last() {
            WakeCall::Wake { kind: woken, .. } => {
                wake_adds_its_kind(fresh.after_calls(earlier).pending.bits, woken, kind);
                if woken == kind {
                    assert(calls[calls.len() - 1] is Wake);
                }
                if woken_since_taken(earlier, kind) {
                    let i = choose|i: int|
                        #![trigger earlier[i]]
                        0 <= i < earlier.len() && (earlier[i] matches WakeCall::Wake {
                            kind: woken,
                            ..
                        } && woken == kind) && (forall|j: int|
                            i < j < earlier.len() ==> earlier[j] is Wake);
                    assert(calls[i] == earlier[i]);
                    assert forall|j: int| i < j < calls.len() implies calls[j] is Wake by {
                        if j < earlier.len() {
                            assert(earlier[j] is Wake);
                        }
                    }
                }
                if woken_since_taken(calls, kind) && woken != kind {
                    let i = choose|i: int|
                        #![trigger calls[i]]
                        0 <= i < calls.len() && (calls[i] matches WakeCall::Wake {
                            kind: woken,
                            ..
                        } && woken == kind) && (forall|j: int|
                            i < j < calls.len() ==> calls[j] is Wake);
                    assert(earlier[i] == calls[i]);
                    assert forall|j: int| i < j < earlier.len() implies earlier[j] is Wake by {
                        assert(calls[j] is Wake);
                    }
                }
            },
            WakeCall::Take { .. } => {
                assert(calls[calls.len() - 1] is Take);
            },
        }
    }
}

/// After any calls, a wake-up is notified of if and only if nobody has woken since the pending
/// ones were last taken; it is then pending, and taking leaves nothing.
pub proof fn first_wake_notifies(calls: Seq<WakeCall>, caller: nat, kind: PlaybackWakeKind)
    ensures
        ({
            let fresh = PlaybackWake { pending: PendingPlaybackWakes::none(), notifies: true };
            let wake = fresh.after_calls(calls);
            &&& wake.would_notify() == (forall|other: PlaybackWakeKind|
                !#[trigger] woken_since_taken(calls, other))
            &&& wake.called(WakeCall::Wake { caller, kind }).pending.has(kind)
            &&& !wake.called(WakeCall::Wake { caller, kind }).would_notify()
            &&& wake.called(WakeCall::Take { caller }).pending == PendingPlaybackWakes::none()
        }),
{
    let fresh = PlaybackWake { pending: PendingPlaybackWakes::none(), notifies: true };
    let wake = fresh.after_calls(calls);
    pending_kinds_are_those_woken(calls, true, PlaybackWakeKind::Audio);
    pending_kinds_are_those_woken(calls, true, PlaybackWakeKind::Video);
    pending_kinds_are_those_woken(calls, true, PlaybackWakeKind::Control);
    empty_means_no_kind(wake.pending);
    wake_adds_its_kind(wake.pending.bits, kind, kind);
    assert forall|other: PlaybackWakeKind| wake.would_notify() implies !#[trigger] woken_since_taken(
        calls,
        other,
    ) by {
        pending_kinds_are_those_woken(calls, true, other);
    }
    if forall|other: PlaybackWakeKind| !#[trigger] woken_since_taken(calls, other) {
        assert(!woken_since_taken(calls, PlaybackWakeKind::Audio));
        assert(!woken_since_taken(calls, PlaybackWakeKind::Video));
        assert(!woken_since_taken(calls, PlaybackWakeKind::Control));
    }
}

/// A wake-up adds its own kind and leaves the others as they are.
pub proof fn wake_adds_its_kind(bits: u8, kind: PlaybackWakeKind, other: PlaybackWakeKind)
    ensures
        ({
            let after = PendingPlaybackWakes { bits: bits | kind.mask() };
            &&& after.has(kind)
            &&& after != PendingPlaybackWakes::none()
            &&& other != kind ==> after.has(other) == (PendingPlaybackWakes { bits }).has(other)
            &&& (PendingPlaybackWakes { bits }).valid() ==> after.valid()
        }),
{
    let k = kind.mask();
    let o = other.mask();
    assert((bits | k) & k == k) by (bit_vector);
    assert(k != 0u8 ==> (bits | k) != 0u8) by (bit_vector);
    assert(k & o == 0 ==> (bits | k) & o == bits & o) by (bit_vector);
    assert(bits < 8 && k < 8 ==> (bits | k) < 8) by (bit_vector);
    assert(1u8 & 2u8 == 0u8 && 1u8 & 4u8 == 0u8 && 2u8 & 4u8 == 0u8 && 2u8 & 1u8 == 0u8 && 4u8 & 1u8
        == 0u8 && 4u8 & 2u8 == 0u8) by (bit_vector);
}

/// An empty set holds no kind, and a valid set that holds no kind is empty.
pub proof fn empty_means_no_kind(wakes: PendingPlaybackWakes)
    requires
        wakes.valid(),
    ensures
        wakes == PendingPlaybackWakes::none() <==> (!wakes.has(PlaybackWakeKind::Audio)
            && !wakes.has(PlaybackWakeKind::Video) && !wakes.has(PlaybackWakeKind::Control)),
{
    let bits = wakes.bits;
    assert(bits < 8 ==> ((bits == 0) <==> (bits & 1 == 0 && bits & 2 == 0 && bits & 4 == 0)))
        by (bit_vector);
}

} // verus!
