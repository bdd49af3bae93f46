//! The registry through which other plugins ask to be told when the game's Lua state
//! is ready: callbacks wait in a bounded queue until the state is announced, and those
//! that arrive afterwards are answered at once.
use vstd::prelude::*;

verus! {

/// How many callbacks may wait for the Lua state at once.
pub const MAX_CALLBACKS: usize = 16;

/// What the registry holds, as plain values: the waiting callbacks in arrival order,
/// and the announced Lua state with its API table, once there is one.
pub struct RegistryView<C, A> {
    pub queued: Seq<C>,
    pub ready: Option<(usize, A)>,
}

/// Answer to a callback that asks to be told when the state is ready.
#[derive(Debug, PartialEq, Eq)]
pub enum Registration<A> {
    /// The queue is full and the state is not ready: the callback is turned away.
    Refused,
    /// The callback waits in the queue for the state.
    Queued,
    /// The state is already ready: the callback is to be run now with it.
    RunNow(usize, A),
}

/// A registry is sound when the queue stays within its bound, and nothing waits once
/// the state has been announced.
pub open spec fn registry_wf<C, A>(v: RegistryView<C, A>) -> bool {
    &&& v.queued.len() <= MAX_CALLBACKS
    &&& (v.ready is Some ==> v.queued.len() == 0)
}

/// The registry as a plugin finds it at start: no callback waits, no state is known.
pub open spec fn initial_registry<C, A>() -> RegistryView<C, A> {
    RegistryView { queued: Seq::empty(), ready: None }
}

/// A callback asks to be told: run at once if the state is known, else queued while
/// there is room, else refused.
pub open spec fn registry_on_ready<C, A>(v: RegistryView<C, A>, cb: C) -> (RegistryView<C, A>, Registration<A>) {
    match v.ready {
        Some((state, api)) => (v, Registration::RunNow(state, api)),
        None => if v.queued.len() >= MAX_CALLBACKS {
            (v, Registration::Refused)
        } else {
            (RegistryView { queued: v.queued.push(cb), ready: None }, Registration::Queued)
        },
    }
}

/// The state is announced: it is remembered, and every waiting callback is handed out,
/// in arrival order, to be run with it.
pub open spec fn registry_fire<C, A>(v: RegistryView<C, A>, state: usize, api: A) -> (RegistryView<C, A>, Seq<C>) {
    (RegistryView { queued: Seq::empty(), ready: Some((state, api)) }, v.queued)
}

/// Soundness is kept by both operations: the queue never holds more than
/// [`MAX_CALLBACKS`] callbacks, and nothing waits once the state is announced.
pub proof fn lemma_registry_stays_sound<C, A>(v: RegistryView<C, A>, cb: C, state: usize, api: A)
    requires
        registry_wf(v),
    ensures
        registry_wf(registry_on_ready(v, cb).0),
        registry_wf(registry_fire(v, state, api).0),
{
}

/// A callback is refused exactly when the state is not yet known and the queue is full;
/// a refused callback leaves the registry as it was.
pub proof fn lemma_refused_only_when_full<C, A>(v: RegistryView<C, A>, cb: C)
    ensures
        registry_on_ready(v, cb).1 is Refused <==> (v.ready is None && v.queued.len() >= MAX_CALLBACKS),
        registry_on_ready(v, cb).1 is Refused ==> registry_on_ready(v, cb).0 == v,
{
}

/// A callback that was queued before the state is announced is handed out by the
/// announcement, after every callback that was queued before it.
pub proof fn lemma_queued_callback_is_handed_out<C, A>(v: RegistryView<C, A>, cb: C, state: usize, api: A)
    requires
        registry_on_ready(v, cb).1 is Queued,
    ensures
        registry_fire(registry_on_ready(v, cb).0, state, api).1 == v.queued.push(cb),
{
}

/// Once the state is announced, every callback that asks is run at once with the
/// announced state and API, and none is queued.
pub proof fn lemma_after_announcement_runs_now<C, A>(v: RegistryView<C, A>, state: usize, api: A, cb: C)
    ensures
        ({
            let announced = registry_fire(v, state, api).0;
            registry_on_ready(announced, cb) == (announced, Registration::<A>::RunNow(state, api))
        }),
{
}

/// A callback is handed out at most once: a second announcement hands out nothing.
pub proof fn lemma_second_announcement_hands_out_nothing<C, A>(v: RegistryView<C, A>, s1: usize, a1: A, s2: usize, a2: A)
    ensures
        registry_fire(registry_fire(v, s1, a1).0, s2, a2).1 == Seq::<C>::empty(),
{
}

/// The registry of callbacks waiting for the game's Lua state.
pub struct Registry<C, A> {
    callbacks: Vec<C>,
    ready: Option<(usize, A)>,
}

impl<C, A> Registry<C, A> {
    /// The waiting callbacks and the announced state.
    pub closed spec fn view(&self) -> RegistryView<C, A> {
        RegistryView { queued: self.callbacks@, ready: self.ready }
    }

    #[verifier::type_invariant]
    closed spec fn inv(self) -> bool {
        registry_wf(self.view())
    }
}

impl<C, A: Copy> Registry<C, A> {

    /// An empty registry with no state announced.
    pub fn new() -> (r: Self)
        ensures
            r.view() == initial_registry::<C, A>(),
            registry_wf(r.view()),
    {
        Registry { callbacks: Vec::new(), ready: None }
    }

    /// A plugin asks to be told when the state is ready.
    pub fn on_ready(&mut self, cb: C) -> (r: Registration<A>)
        ensures
            (final(self).view(), r) == registry_on_ready(old(self).view(), cb),
            registry_wf(old(self).view()),
            registry_wf(final(self).view()),
    {
        proof {
            use_type_invariant(&*self);
        }
        match self.ready {
            Some((state, api)) => Registration::RunNow(state, api),
            None => {
                if self.callbacks.len() >= MAX_CALLBACKS {
                    Registration::Refused
                } else {
                    let mut queue = Vec::new();
                    std::mem::swap(&mut queue, &mut self.callbacks);
                    queue.push(cb);
                    std::mem::swap(&mut queue, &mut self.callbacks);
                    Registration::Queued
                }
            },
        }
    }

    /// The state becomes ready: remember it and hand out the waiting callbacks.
    pub fn fire(&mut self, state: usize, api: A) -> (r: Vec<C>)
        ensures
            (final(self).view(), r@) == registry_fire(old(self).view(), state, api),
            registry_wf(old(self).view()),
            registry_wf(final(self).view()),
    {
        proof {
            use_type_invariant(&*self);
        }
        let mut taken = Vec::new();
        std::mem::swap(&mut taken, &mut self.callbacks);
        self.ready = Some((state, api));
        taken
    }
}

} // verus!
