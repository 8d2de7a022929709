use vstd::prelude::*;

verus! {

/// The three hook registrations that a capture session holds.
#[derive(Debug, Clone, Copy, PartialEq, Eq, Structural)]
pub enum Hook {
    Movement,
    Button,
    Key,
}

/// Where the capture task stands.
#[derive(Debug, Clone, Copy, PartialEq, Eq, Structural)]
pub enum Phase {
    /// The hooks are being registered.
    Registering,
    /// All hooks are registered; callbacks may fire while the task waits.
    Waiting,
    /// The hooks are released; the task has ended.
    Cancelled,
}

/// What ended one wait of the capture task.
#[derive(Debug, Clone, Copy, PartialEq, Eq, Structural)]
pub enum Wake {
    /// The short wait elapsed.
    Tick,
    /// Cancellation was observed.
    Cancel,
}

/// What the capture task does next.
#[derive(Debug, Clone, Copy, PartialEq, Eq, Structural)]
pub enum Step {
    /// Wait once more; nothing else happens.
    Wait,
    /// Every hook registration has just been released: end.
    Release,
    /// End: nothing is left to release.
    Exit,
}

/// Every hook.
pub open spec fn all_hooks() -> Set<Hook> {
    set![Hook::Movement, Hook::Button, Hook::Key]
}

/// The next phase and step after a wake in `phase`, which registration has left.
pub open spec fn wake_spec(phase: Phase, wake: Wake) -> (Phase, Step) {
    match (phase, wake) {
        (Phase::Waiting, Wake::Tick) => (Phase::Waiting, Step::Wait),
        (Phase::Waiting, Wake::Cancel) => (Phase::Cancelled, Step::Release),
        _ => (Phase::Cancelled, Step::Exit),
    }
}

/// The phase after the wakes `wakes`, in order, from `phase`.
pub open spec fn phase_after(phase: Phase, wakes: Seq<Wake>) -> Phase
    decreases wakes.len(),
{
    if wakes.len() == 0 {
        phase
    } else {
        phase_after(wake_spec(phase, wakes[0]).0, wakes.drop_first())
    }
}

/// How many of the steps taken on the wakes `wakes`, from `phase`, release the hooks.
pub open spec fn releases(phase: Phase, wakes: Seq<Wake>) -> nat
    decreases wakes.len(),
{
    if wakes.len() == 0 {
        0
    } else {
        let (next, step) = wake_spec(phase, wakes[0]);
        (if step == Step::Release { 1nat } else { 0nat }) + releases(next, wakes.drop_first())
    }
}

/// How many of the steps taken on the wakes `wakes`, from `phase`, do anything but wait.
pub open spec fn non_waits(phase: Phase, wakes: Seq<Wake>) -> nat
    decreases wakes.len(),
{
    if wakes.len() == 0 {
        0
    } else {
        let (next, step) = wake_spec(phase, wakes[0]);
        (if step == Step::Wait { 0nat } else { 1nat }) + non_waits(next, wakes.drop_first())
    }
}

/// Once cancelled, the task stays cancelled and releases nothing more, whatever wakes follow.
pub proof fn lemma_cancelled_is_terminal(wakes: Seq<Wake>)
    ensures
        phase_after(Phase::Cancelled, wakes) == Phase::Cancelled,
        releases(Phase::Cancelled, wakes) == 0,
    decreases wakes.len(),
{
    if wakes.len() > 0 {
        lemma_cancelled_is_terminal(wakes.drop_first());
    }
}

/// A waiting task that observes cancellation, once or any number of times, in
/// any interleaving with ticks, ends cancelled and releases its hooks exactly
/// once; without cancellation it is still waiting and has released nothing.
pub proof fn lemma_clean_cancellation(wakes: Seq<Wake>)
    ensures
        wakes.contains(Wake::Cancel) ==> phase_after(Phase::Waiting, wakes) == Phase::Cancelled,
        wakes.contains(Wake::Cancel) ==> releases(Phase::Waiting, wakes) == 1,
        !wakes.contains(Wake::Cancel) ==> phase_after(Phase::Waiting, wakes) == Phase::Waiting,
        !wakes.contains(Wake::Cancel) ==> releases(Phase::Waiting, wakes) == 0,
    decreases wakes.len(),
{
    if wakes.len() > 0 {
        let rest = wakes.drop_first();
        assert(wakes =~= seq![wakes[0]] + rest);
        assert(wakes.contains(Wake::Cancel) <==> (wakes[0] == Wake::Cancel || rest.contains(
            Wake::Cancel,
        ))) by {
            if rest.contains(Wake::Cancel) {
                let i = choose|i: int| 0 <= i < rest.len() && rest[i] == Wake::Cancel;
                assert(wakes[i + 1] == Wake::Cancel);
            }
            if wakes.contains(Wake::Cancel) && wakes[0] != Wake::Cancel {
                let i = choose|i: int| 0 <= i < wakes.len() && wakes[i] == Wake::Cancel;
                assert(rest[i - 1] == Wake::Cancel);
            }
        }
        if wakes[0] == Wake::Cancel {
            lemma_cancelled_is_terminal(rest);
        } else {
            lemma_clean_cancellation(rest);
        }
    }
}

/// Without cancellation every step of a waiting task is a plain wait: ticks
/// neither release a hook nor end the task, and make nothing happen.
pub proof fn lemma_idle_ticks_only_wait(wakes: Seq<Wake>)
    requires
        !wakes.contains(Wake::Cancel),
    ensures
        non_waits(Phase::Waiting, wakes) == 0,
        phase_after(Phase::Waiting, wakes) == Phase::Waiting,
    decreases wakes.len(),
{
    if wakes.len() > 0 {
        let rest = wakes.drop_first();
        assert(wakes[0] != Wake::Cancel);
        assert(!rest.contains(Wake::Cancel)) by {
            if rest.contains(Wake::Cancel) {
                let i = choose|i: int| 0 <= i < rest.len() && rest[i] == Wake::Cancel;
                assert(wakes[i + 1] == Wake::Cancel);
            }
        }
        lemma_idle_ticks_only_wait(rest);
    }
}

/// The first cancellation after any number of ticks ends the task: the wake
/// that observes it is the last that leaves the task waiting.
pub proof fn lemma_cancel_ends_wait(ticks: nat)
    ensures
        phase_after(Phase::Waiting, Seq::new(ticks, |i: int| Wake::Tick).push(Wake::Cancel))
            == Phase::Cancelled,
        releases(Phase::Waiting, Seq::new(ticks, |i: int| Wake::Tick).push(Wake::Cancel)) == 1,
{
    let wakes = Seq::new(ticks, |i: int| Wake::Tick).push(Wake::Cancel);
    assert(wakes[ticks as int] == Wake::Cancel);
    lemma_clean_cancellation(wakes);
}

/// Registration holds each hook once, in any order: after the third the
/// session waits, and before it the session is still registering.
pub proof fn lemma_registration_completes(first: Hook, second: Hook, third: Hook)
    requires
        first != second,
        first != third,
        second != third,
    ensures
        registering_phase(Set::<Hook>::empty().insert(first)) == Phase::Registering,
        registering_phase(Set::<Hook>::empty().insert(first).insert(second)) == Phase::Registering,
        registering_phase(Set::<Hook>::empty().insert(first).insert(second).insert(third))
            == Phase::Waiting,
{
}

/// The running state of the capture task: its phase and the guards of the hook
/// registrations it holds, one of type `M` for pointer movement, `B` for pointer
/// buttons and `K` for keys. Dropping a guard unregisters its callback.
pub struct CaptureSession<M, B, K> {
    phase: Phase,
    movement: Option<M>,
    button: Option<B>,
    key: Option<K>,
}

/// Whether `live` holds every hook.
pub open spec fn holds_all(live: Set<Hook>) -> bool {
    live.contains(Hook::Movement) && live.contains(Hook::Button) && live.contains(Hook::Key)
}

/// The phase once the hooks `live` are held during registration.
pub open spec fn registering_phase(live: Set<Hook>) -> Phase {
    if holds_all(live) {
        Phase::Waiting
    } else {
        Phase::Registering
    }
}

impl<M, B, K> CaptureSession<M, B, K> {
    pub closed spec fn phase(&self) -> Phase {
        self.phase
    }

    /// The hooks whose guard the session holds.
    pub closed spec fn live(&self) -> Set<Hook> {
        Set::new(
            |h: Hook|
                match h {
                    Hook::Movement => self.movement is Some,
                    Hook::Button => self.button is Some,
                    Hook::Key => self.key is Some,
                },
        )
    }

    /// Registering holds some of the hooks, waiting holds every hook, and a
    /// cancelled session holds none.
    pub open spec fn wf(&self) -> bool {
        &&& self.phase() == Phase::Registering ==> !holds_all(self.live())
        &&& self.phase() == Phase::Waiting ==> self.live() == all_hooks()
        &&& self.phase() == Phase::Cancelled ==> self.live() == Set::<Hook>::empty()
    }

    /// A session that holds no guard yet.
    pub fn new() -> (r: Self)
        ensures
            r.wf(),
            r.phase() == Phase::Registering,
            r.live() == Set::<Hook>::empty(),
    {
        let r = CaptureSession { phase: Phase::Registering, movement: None, button: None, key: None };
        assert(r.live() =~= Set::<Hook>::empty());
        r
    }

    /// The current phase.
    pub fn current_phase(&self) -> (r: Phase)
        ensures
            r == self.phase(),
    {
        self.phase
    }

    /// Whether the session holds the guard of `hook`.
    pub fn holds(&self, hook: Hook) -> (r: bool)
        ensures
            r == self.live().contains(hook),
    {
        match hook {
            Hook::Movement => self.movement.is_some(),
            Hook::Button => self.button.is_some(),
            Hook::Key => self.key.is_some(),
        }
    }

    /// Moves to waiting once every guard is held.
    fn settle(&mut self)
        requires
            old(self).phase() == Phase::Registering,
        ensures
            final(self).live() == old(self).live(),
            final(self).phase() == registering_phase(old(self).live()),
            final(self).wf(),
    {
        if self.movement.is_some() && self.button.is_some() && self.key.is_some() {
            assert(self.live() =~= all_hooks());
            self.phase = Phase::Waiting;
        }
    }

    /// Takes the guard of the pointer-movement registration.
    pub fn hold_movement(&mut self, guard: M)
        requires
            old(self).wf(),
            old(self).phase() == Phase::Registering,
            !old(self).live().contains(Hook::Movement),
        ensures
            final(self).wf(),
            final(self).live() == old(self).live().insert(Hook::Movement),
            final(self).phase() == registering_phase(final(self).live()),
    {
        let ghost before = self.live();
        self.movement = Some(guard);
        assert(self.live() =~= before.insert(Hook::Movement));
        self.settle();
    }

    /// Takes the guard of the pointer-button registration.
    pub fn hold_button(&mut self, guard: B)
        requires
            old(self).wf(),
            old(self).phase() == Phase::Registering,
            !old(self).live().contains(Hook::Button),
        ensures
            final(self).wf(),
            final(self).live() == old(self).live().insert(Hook::Button),
            final(self).phase() == registering_phase(final(self).live()),
    {
        let ghost before = self.live();
        self.button = Some(guard);
        assert(self.live() =~= before.insert(Hook::Button));
        self.settle();
    }

    /// Takes the guard of the key registration.
    pub fn hold_key(&mut self, guard: K)
        requires
            old(self).wf(),
            old(self).phase() == Phase::Registering,
            !old(self).live().contains(Hook::Key),
        ensures
            final(self).wf(),
            final(self).live() == old(self).live().insert(Hook::Key),
            final(self).phase() == registering_phase(final(self).live()),
    {
        let ghost before = self.live();
        self.key = Some(guard);
        assert(self.live() =~= before.insert(Hook::Key));
        self.settle();
    }

    /// Decides what follows a wake: a tick changes nothing, the first
    /// cancellation drops every guard, and after that the task only ends.
    pub fn on_wake(&mut self, wake: Wake) -> (r: Step)
        requires
            old(self).wf(),
            old(self).phase() != Phase::Registering,
        ensures
            final(self).wf(),
            (final(self).phase(), r) == wake_spec(old(self).phase(), wake),
            final(self).live() == (if final(self).phase() == Phase::Waiting {
                all_hooks()
            } else {
                Set::<Hook>::empty()
            }),
    {
        match (self.phase, wake) {
            (Phase::Waiting, Wake::Tick) => Step::Wait,
            (Phase::Waiting, Wake::Cancel) => {
                self.phase = Phase::Cancelled;
                self.movement = None;
                self.button = None;
                self.key = None;
                assert(self.live() =~= Set::<Hook>::empty());
                Step::Release
            },
            _ => {
                self.phase = Phase::Cancelled;
                Step::Exit
            },
        }
    }
}

} // verus!
