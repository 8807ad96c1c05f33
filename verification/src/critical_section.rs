//! The interrupt-exclusion primitive.
//!
//! An [`InterruptExclusion`] stands for the interrupt delivery of the one
//! execution core. Entering a critical section suppresses delivery and hands
//! out a [`Token`]; leaving it takes the token back. Sections nest: delivery
//! comes back only when the outermost section is left, and only if it was on
//! before that section was entered.

use vstd::prelude::*;

verus! {

/// Proof that a critical section was entered. It cannot be copied, so a
/// section is left at most once.
#[derive(Debug)]
pub struct Token {
    level: usize,
}

impl Token {
    /// The nesting depth that the section of this token was entered at: 1
    /// for an outermost section.
    pub closed spec fn level(&self) -> nat {
        self.level as nat
    }
}

/// What an [`InterruptExclusion`] holds, as plain values.
pub struct ExclusionState {
    /// Number of critical sections that are entered and not left.
    pub depth: nat,
    /// Whether interrupts are delivered while no section is entered.
    pub outside: bool,
}

impl ExclusionState {
    /// Whether interrupts are delivered in this state.
    pub open spec fn enabled(self) -> bool {
        self.depth == 0 && self.outside
    }

    /// The state after one more section is entered.
    pub open spec fn entered(self) -> ExclusionState {
        ExclusionState { depth: self.depth + 1, outside: self.outside }
    }

    /// The state after the innermost section is left.
    pub open spec fn left(self) -> ExclusionState {
        ExclusionState { depth: (self.depth - 1) as nat, outside: self.outside }
    }

    /// Whether leaving the innermost section of this state switches
    /// interrupt delivery back on.
    pub open spec fn leaving_restores(self) -> bool {
        self.depth == 1 && self.outside
    }

    /// The state after `n` more sections are entered, each inside the last.
    pub open spec fn nested(self, n: nat) -> ExclusionState
        decreases n,
    {
        if n == 0 {
            self
        } else {
            self.nested((n - 1) as nat).entered()
        }
    }

    /// The state after the `n` innermost sections are left, the innermost
    /// first.
    pub open spec fn unwound(self, n: nat) -> ExclusionState
        decreases n,
    {
        if n == 0 {
            self
        } else {
            self.unwound((n - 1) as nat).left()
        }
    }
}

/// The interrupt delivery of the core, with the critical sections that are
/// entered on it.
pub struct InterruptExclusion {
    depth: usize,
    outside: bool,
}

impl View for InterruptExclusion {
    type V = ExclusionState;

    closed spec fn view(&self) -> ExclusionState {
        ExclusionState { depth: self.depth as nat, outside: self.outside }
    }
}

impl InterruptExclusion {
    /// The core outside any critical section, with interrupt delivery as
    /// `enabled` says.
    pub fn new(enabled: bool) -> (core: Self)
        ensures
            core@ == (ExclusionState { depth: 0, outside: enabled }),
    {
        InterruptExclusion { depth: 0, outside: enabled }
    }

    /// Whether interrupts are delivered now.
    pub fn is_enabled(&self) -> (b: bool)
        ensures
            b == self@.enabled(),
    {
        self.depth == 0 && self.outside
    }

    /// Number of critical sections that are entered and not left.
    pub fn depth(&self) -> (d: usize)
        ensures
            d == self@.depth,
    {
        self.depth
    }

    /// Whether one more section can be entered: the depth counter has room.
    pub fn can_enter(&self) -> (b: bool)
        ensures
            b == (self@.depth < usize::MAX),
    {
        self.depth < usize::MAX
    }

    /// Enters a critical section: interrupts are not delivered until the
    /// matching `exit`, nor after it while an enclosing section lasts.
    pub fn enter(&mut self) -> (token: Token)
        requires
            old(self)@.depth < usize::MAX,
        ensures
            final(self)@ == old(self)@.entered(),
            !final(self)@.enabled(),
            token.level() == final(self)@.depth,
    {
        self.depth = self.depth + 1;
        Token { level: self.depth }
    }

    /// Leaves the critical section that `token` was handed out for. It must
    /// be the innermost one: sections are left in the reverse of the order
    /// in which they were entered. Returns whether interrupt delivery was
    /// switched back on, which happens only when the outermost section is
    /// left and delivery was on before it was entered.
    pub fn exit(&mut self, token: Token) -> (restored: bool)
        requires
            token.level() == old(self)@.depth,
            old(self)@.depth > 0,
        ensures
            final(self)@ == old(self)@.left(),
            restored == old(self)@.leaving_restores(),
            restored == final(self)@.enabled(),
    {
        self.depth = self.depth - 1;
        self.depth == 0 && self.outside
    }

    /// Whether `token` belongs to the innermost section that is entered.
    pub fn is_innermost(&self, token: &Token) -> (b: bool)
        ensures
            b == (token.level() == self@.depth && self@.depth > 0),
    {
        self.depth > 0 && token.level == self.depth
    }
}

/// Entering `n` sections raises the depth by `n` and keeps what holds
/// outside all sections.
pub proof fn lemma_nested(s: ExclusionState, n: nat)
    ensures
        s.nested(n) == (ExclusionState { depth: s.depth + n, outside: s.outside }),
    decreases n,
{
    if n > 0 {
        lemma_nested(s, (n - 1) as nat);
    }
}

/// Leaving `n` of at least `n` sections lowers the depth by `n` and keeps
/// what holds outside all sections.
pub proof fn lemma_unwound(s: ExclusionState, n: nat)
    requires
        n <= s.depth,
    ensures
        s.unwound(n) == (ExclusionState { depth: (s.depth - n) as nat, outside: s.outside }),
    decreases n,
{
    if n > 0 {
        lemma_unwound(s, (n - 1) as nat);
    }
}

/// Nested critical sections restore interrupt delivery exactly once.
///
/// From a state `s`, enter `n` sections, each inside the last, and leave
/// them in reverse order. While fewer than `n` of them are left, interrupts
/// stay suppressed, and leaving a section switches nothing back on. Once all
/// `n` are left the state is `s` again. The last release switches delivery
/// back on if and only if `s` had it on, which requires that `s` lay outside
/// every section.
pub proof fn law_nesting_restores_once(s: ExclusionState, n: nat)
    requires
        n > 0,
    ensures
        forall|k: nat| k < n ==> !(#[trigger] s.nested(n).unwound(k)).enabled(),
        forall|k: nat|
            k < n - 1 ==> !(#[trigger] s.nested(n).unwound(k)).leaving_restores(),
        s.nested(n).unwound((n - 1) as nat).leaving_restores() == s.enabled(),
        s.nested(n).unwound(n) == s,
{
    lemma_nested(s, n);
    assert forall|k: nat| k < n implies !(#[trigger] s.nested(n).unwound(k)).enabled() by {
        lemma_unwound(s.nested(n), k);
    }
    assert forall|k: nat| k < n - 1 implies !(#[trigger] s.nested(n).unwound(
        k,
    )).leaving_restores() by {
        lemma_unwound(s.nested(n), k);
    }
    lemma_unwound(s.nested(n), (n - 1) as nat);
    lemma_unwound(s.nested(n), n);
}

} // verus!
