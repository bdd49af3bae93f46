//! The route each Lua chunk takes through the loader's hook on `luaL_loadbuffer`: the
//! first chunk starts lovely once the SD card is found usable, every later chunk goes
//! through lovely's patches, and once the SD card is found unusable every chunk goes
//! straight to the game's own loader.
use vstd::prelude::*;

verus! {

/// What the loader knows between chunks, as plain values.
pub struct LoaderView {
    pub sd_disabled: bool,
    pub lovely_running: bool,
}

/// Where a chunk goes.
#[derive(Clone, Copy, Debug, PartialEq, Eq)]
pub enum ChunkRoute {
    /// Straight to the game's own `luaL_loadbuffer`.
    Original,
    /// First chunk: the SD card is to be mounted and probed before anything else.
    ProbeSd,
    /// Through lovely's buffer patches.
    Patch,
}

/// What becomes of the first chunk once the SD card was probed.
#[derive(Clone, Copy, Debug, PartialEq, Eq)]
pub enum FirstChunk {
    /// The SD card is unusable: the chunk, and every later one, goes to the game's
    /// own loader.
    SdUnusable,
    /// lovely is started; the chunk goes through its patches, then the `nxfs` wedges
    /// are installed and the waiting plugins are told that the state is ready.
    StartLovely,
}

/// The loader never both gave up on the SD card and started lovely.
pub open spec fn loader_wf(v: LoaderView) -> bool {
    !(v.sd_disabled && v.lovely_running)
}

/// The route of a chunk in state `v`.
pub open spec fn spec_route(v: LoaderView) -> ChunkRoute {
    if v.sd_disabled {
        ChunkRoute::Original
    } else if !v.lovely_running {
        ChunkRoute::ProbeSd
    } else {
        ChunkRoute::Patch
    }
}

/// The state after the SD card was probed and found usable or not.
pub open spec fn spec_sd_probed(v: LoaderView, usable: bool) -> LoaderView {
    if usable {
        LoaderView { sd_disabled: v.sd_disabled, lovely_running: true }
    } else {
        LoaderView { sd_disabled: true, lovely_running: v.lovely_running }
    }
}

/// The state after one chunk was loaded; `usable` is what a probe of the SD card
/// would find, and only counts when the chunk's route is to probe it.
pub open spec fn spec_after_chunk(v: LoaderView, usable: bool) -> LoaderView {
    if spec_route(v) is ProbeSd {
        spec_sd_probed(v, usable)
    } else {
        v
    }
}

/// The loader's state as it starts: nothing decided yet.
pub open spec fn initial_loader() -> LoaderView {
    LoaderView { sd_disabled: false, lovely_running: false }
}

/// Loading chunks keeps the loader sound.
pub proof fn lemma_loader_stays_sound(v: LoaderView, usable: bool)
    requires
        loader_wf(v),
    ensures
        loader_wf(spec_after_chunk(v, usable)),
{
}

/// Once the SD card was found unusable, every later chunk goes to the game's own loader
/// and nothing changes any more.
pub proof fn lemma_sd_unusable_is_final(v: LoaderView, usable: bool)
    requires
        v.sd_disabled,
    ensures
        spec_route(v) is Original,
        spec_after_chunk(v, usable) == v,
{
}

/// Once lovely runs, every later chunk goes through its patches, and lovely is never
/// started again.
pub proof fn lemma_lovely_started_once(v: LoaderView, usable: bool)
    requires
        loader_wf(v),
        v.lovely_running,
    ensures
        spec_route(v) is Patch,
        spec_after_chunk(v, usable) == v,
{
}

/// The SD card is probed on the first chunk only: whatever the probe finds, the state
/// after the first chunk is the state after every later one.
pub proof fn lemma_decided_on_first_chunk(v: LoaderView, first: bool, later: bool)
    requires
        loader_wf(v),
    ensures
        spec_after_chunk(spec_after_chunk(v, first), later) == spec_after_chunk(v, first),
        spec_route(v) is ProbeSd ==> !(spec_route(spec_after_chunk(v, first)) is ProbeSd),
{
}

/// The loader's state between chunks.
pub struct LoaderState {
    sd_disabled: bool,
    lovely_running: bool,
}

impl LoaderState {
    /// The state as plain values.
    pub closed spec fn view(&self) -> LoaderView {
        LoaderView { sd_disabled: self.sd_disabled, lovely_running: self.lovely_running }
    }

    #[verifier::type_invariant]
    closed spec fn inv(self) -> bool {
        loader_wf(self.view())
    }

    /// Nothing decided yet.
    pub fn new() -> (r: Self)
        ensures
            r.view() == initial_loader(),
    {
        LoaderState { sd_disabled: false, lovely_running: false }
    }

    /// Where the next chunk goes.
    pub fn route(&self) -> (r: ChunkRoute)
        ensures
            r == spec_route(self.view()),
            loader_wf(self.view()),
    {
        proof {
            use_type_invariant(self);
        }
        if self.sd_disabled {
            ChunkRoute::Original
        } else if !self.lovely_running {
            ChunkRoute::ProbeSd
        } else {
            ChunkRoute::Patch
        }
    }

    /// Records what the probe of the SD card found, on the chunk routed to probe it.
    pub fn sd_probed(&mut self, usable: bool) -> (r: FirstChunk)
        requires
            spec_route(old(self).view()) is ProbeSd,
        ensures
            final(self).view() == spec_sd_probed(old(self).view(), usable),
            final(self).view() == spec_after_chunk(old(self).view(), usable),
            r == (if usable { FirstChunk::StartLovely } else { FirstChunk::SdUnusable }),
    {
        if usable {
            self.lovely_running = true;
            FirstChunk::StartLovely
        } else {
            self.sd_disabled = true;
            FirstChunk::SdUnusable
        }
    }
}

} // verus!
