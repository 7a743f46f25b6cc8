//! The lifecycle core: the per-thread initialization gate, the runtime
//! handle with its one-shot run loop, the run session that stands behind
//! the foreign loop's callbacks, and the liveness reference that every
//! resource handle carries.
//!
//! The native init/run/shutdown entry points are invoked outside the
//! library; each function here is the decision that precedes such a call,
//! and its contract states exactly which call is owed and how the
//! per-thread state changes.

use vstd::prelude::*;

use crate::material::Material;
use crate::resources::{Model, Shader, Texture};

verus! {

/// Why an operation on a handle was refused.
#[derive(Clone, Copy, PartialEq, Eq, Structural, Debug)]
pub enum SkError {
    /// The runtime that issued the handle has already shut down.
    StaleHandle,
}

/// The per-thread initialization state: whether a runtime handle is
/// currently live on this thread, and how many runtimes were ever started.
/// The count doubles as the identity of the live runtime, so a liveness
/// reference can tell "my runtime" from a later one.
pub struct InitGate {
    busy: bool,
    epoch: u64,
}

impl InitGate {
    /// A runtime handle is currently live on this thread.
    pub closed spec fn busy(self) -> bool {
        self.busy
    }

    /// How many runtimes were ever started through this gate.
    pub closed spec fn epoch(self) -> u64 {
        self.epoch
    }

    /// The identity of the currently (or most recently) live runtime.
    pub open spec fn live_instance(self) -> u64 {
        self.epoch()
    }

    /// Initialization is allowed exactly while no runtime is live.
    pub open spec fn can_init(self) -> bool {
        !self.busy()
    }

    /// The state after the native init result was recorded.
    pub closed spec fn spec_confirm(self, native_ok: bool) -> InitGate {
        if native_ok {
            InitGate { busy: true, epoch: (self.epoch + 1) as u64 }
        } else {
            self
        }
    }

    /// The state after its live runtime shut down.
    pub closed spec fn spec_release(self) -> InitGate {
        InitGate { busy: false, ..self }
    }

    /// A fresh gate: no runtime live, none ever started.
    pub fn new() -> (r: InitGate)
        ensures
            r.can_init(),
            r.epoch() == 0,
    {
        InitGate { busy: false, epoch: 0 }
    }

    pub fn is_busy(&self) -> (r: bool)
        ensures
            r == self.busy(),
    {
        self.busy
    }

    pub fn epochs_started(&self) -> (r: u64)
        ensures
            r == self.epoch(),
    {
        self.epoch
    }

    /// Second half of the initialization gate: records whether the native
    /// init entry point succeeded. On success a fresh runtime handle is
    /// produced and this thread's state closes; on native failure it is
    /// left free, so a later attempt may try again.
    pub fn confirm_init(&mut self, native_ok: bool) -> (r: Option<StereoKit>)
        requires
            old(self).can_init(),
            old(self).epoch() < u64::MAX,
        ensures
            *final(self) == old(self).spec_confirm(native_ok),
            final(self).busy() == native_ok,
            native_ok ==> final(self).epoch() == old(self).epoch() + 1,
            !native_ok ==> *final(self) == *old(self),
            r is Some <==> native_ok,
            r matches Some(h) ==> h.instance() == final(self).live_instance() && !h.has_run(),
    {
        if native_ok {
            self.busy = true;
            self.epoch = self.epoch + 1;
            Some(StereoKit { instance: self.epoch, ran: false })
        } else {
            None
        }
    }

    /// The single reset path: the live runtime is gone.
    pub(crate) fn release(&mut self)
        ensures
            *final(self) == old(self).spec_release(),
            !final(self).busy(),
            final(self).epoch() == old(self).epoch(),
    {
        self.busy = false;
    }
}

/// The runtime handle: the one object standing for an initialized runtime
/// instance. It owns the liveness of its instance and a one-shot flag
/// recording whether the run loop was ever entered.
pub struct StereoKit {
    instance: u64,
    ran: bool,
}

impl StereoKit {
    /// The identity of the runtime instance this handle owns.
    pub closed spec fn instance(self) -> u64 {
        self.instance
    }

    /// The run loop was entered at least once.
    pub closed spec fn has_run(self) -> bool {
        self.ran
    }

    /// The run loop may still be entered.
    pub open spec fn can_enter_loop(self) -> bool {
        !self.has_run()
    }

    /// The handle after a call of `run`.
    pub closed spec fn spec_after_run(self) -> StereoKit {
        StereoKit { ran: true, ..self }
    }

    /// The liveness reference this handle distributes to resource handles.
    pub closed spec fn spec_wrapper(self) -> StereoKitInstanceWrapper {
        StereoKitInstanceWrapper { instance: self.instance }
    }

    pub fn instance_id(&self) -> (r: u64)
        ensures
            r == self.instance(),
    {
        self.instance
    }

    pub fn loop_entered(&self) -> (r: bool)
        ensures
            r == self.has_run(),
    {
        self.ran
    }

    /// Enter the run loop, one-shot: the first call yields the session that
    /// stands behind the foreign loop's callbacks; any later call is a no-op
    /// and yields nothing, so the caller's closures are never invoked again.
    pub fn run(&mut self) -> (r: Option<RunSession>)
        ensures
            *final(self) == old(self).spec_after_run(),
            final(self).instance() == old(self).instance(),
            final(self).has_run(),
            r is Some <==> old(self).can_enter_loop(),
            r matches Some(s) ==> s.instance() == old(self).instance() && s.frames() == 0,
    {
        if self.ran {
            None
        } else {
            self.ran = true;
            Some(RunSession { instance: self.instance, frames: 0 })
        }
    }

    /// A non-owning liveness reference to this handle's runtime instance.
    pub fn get_wrapper(&self) -> (r: StereoKitInstanceWrapper)
        ensures
            r == self.spec_wrapper(),
            r.instance() == self.instance(),
    {
        StereoKitInstanceWrapper { instance: self.instance }
    }

    /// Teardown: consumes the handle and says whether the native shutdown
    /// entry point must now be called. It must exactly when the loop was
    /// never entered; if the loop ran, shutdown already happened inside it,
    /// and a second native shutdown is not owed. Either way the handle is
    /// gone, so the release happens on exactly one path.
    pub fn dispose(self, gate: &mut InitGate) -> (shutdown_now: bool)
        requires
            !self.has_run() ==> old(gate).busy() && old(gate).live_instance() == self.instance(),
        ensures
            shutdown_now == !self.has_run(),
            !self.has_run() ==> *final(gate) == old(gate).spec_release(),
            !self.has_run() ==> !final(gate).busy(),
            self.has_run() ==> *final(gate) == *old(gate),
    {
        if !self.ran {
            gate.release();
            true
        } else {
            false
        }
    }
}

/// Evidence that the foreign loop is running on behalf of one runtime
/// instance. Frames are numbered in the order the loop delivers them, and
/// closing the session consumes it, so the close path runs exactly once and
/// no frame can follow it.
pub struct RunSession {
    instance: u64,
    frames: u64,
}

/// The token handed to the per-frame update callback. Only a run session
/// creates one, so holding it means the foreign loop is live.
pub struct DrawContext {
    frame: u64,
}

impl DrawContext {
    /// Which frame of its session this token belongs to.
    pub closed spec fn frame_index(self) -> u64 {
        self.frame
    }

    pub fn index(&self) -> (r: u64)
        ensures
            r == self.frame_index(),
    {
        self.frame
    }
}

impl RunSession {
    /// The runtime instance this session runs for.
    pub closed spec fn instance(self) -> u64 {
        self.instance
    }

    /// How many frames were delivered so far.
    pub closed spec fn frames(self) -> u64 {
        self.frames
    }

    pub fn instance_id(&self) -> (r: u64)
        ensures
            r == self.instance(),
    {
        self.instance
    }

    pub fn frame_count(&self) -> (r: u64)
        ensures
            r == self.frames(),
    {
        self.frames
    }

    /// One per-frame update: yields the token for exactly the next frame,
    /// so the update callback observes strictly increasing frame numbers.
    pub fn frame(&mut self) -> (r: DrawContext)
        requires
            old(self).frames() < u64::MAX,
        ensures
            final(self).instance() == old(self).instance(),
            final(self).frames() == old(self).frames() + 1,
            r.frame_index() == old(self).frames(),
    {
        let ctx = DrawContext { frame: self.frames };
        self.frames = self.frames + 1;
        ctx
    }

    /// The close callback: strictly after the last frame, exactly once (the
    /// session is consumed), and it resets the per-thread gate, so the
    /// thread is free to initialize again.
    pub fn close(self, gate: &mut InitGate)
        requires
            old(gate).busy(),
            old(gate).live_instance() == self.instance(),
        ensures
            *final(gate) == old(gate).spec_release(),
            !final(gate).busy(),
            final(gate).epoch() == old(gate).epoch(),
    {
        gate.release();
    }
}

/// The weak, non-owning relation to one runtime instance's liveness. Many
/// references may point at one instance; resolving one after that instance
/// is gone yields a definite stale outcome.
#[derive(Clone, Copy)]
pub struct StereoKitInstanceWrapper {
    instance: u64,
}

impl StereoKitInstanceWrapper {
    /// The runtime instance this reference points at.
    pub closed spec fn instance(self) -> u64 {
        self.instance
    }

    /// The referenced instance is the one this thread currently holds live.
    pub open spec fn is_live(self, gate: InitGate) -> bool {
        gate.busy() && gate.live_instance() == self.instance()
    }

    /// Resolve the reference: Ok while the owning runtime is live, and the
    /// stale error from the moment it shut down.
    pub fn valid(&self, gate: &InitGate) -> (r: Result<(), SkError>)
        ensures
            r is Ok <==> self.is_live(*gate),
    {
        if gate.is_busy() && gate.epochs_started() == self.instance {
            Ok(())
        } else {
            Err(SkError::StaleHandle)
        }
    }
}

/// A tagged value over the concrete resource kinds, for the one generic
/// release path shared by all of them.
pub enum Asset {
    Material(Material),
    Shader(Shader),
    Texture(Texture),
    Model(Model),
}

impl Asset {
    /// The native handle owned by whichever kind this value carries.
    pub open spec fn spec_raw(self) -> u64 {
        match self {
            Asset::Material(m) => m.raw(),
            Asset::Shader(s) => s.raw(),
            Asset::Texture(t) => t.raw(),
            Asset::Model(m) => m.raw(),
        }
    }
}

/// Release an asset-variant value: dispatches to the release path of
/// exactly the kind the value carries, and yields the native handle that
/// the thread-safe reference-count release entry point must receive.
/// The value is consumed, so its release is requested exactly once.
pub fn asset_releaseref(asset: Asset) -> (r: u64)
    ensures
        r == asset.spec_raw(),
{
    match asset {
        Asset::Material(m) => m.release(),
        Asset::Shader(s) => s.release(),
        Asset::Texture(t) => t.release(),
        Asset::Model(m) => m.release(),
    }
}

/// Law: calling initialization twice without an intervening shutdown yields
/// a runtime the first time and absence the second time — once an
/// initialization has succeeded, another is refused until release.
pub proof fn lemma_init_is_exclusive(g: InitGate)
    requires
        g.can_init(),
    ensures
        !g.spec_confirm(true).can_init(),
{
}

/// Law: after the runtime shuts down — whether its close callback was
/// observed or an un-run handle was disposed — initialization is allowed
/// again on this thread.
pub proof fn lemma_gate_is_reusable(g: InitGate)
    ensures
        g.spec_confirm(true).spec_release().can_init(),
{
}

/// Law: entering the run loop is one-shot — a handle that has already run
/// refuses to enter the loop again, whatever else happened to it.
pub proof fn lemma_run_is_one_shot(h: StereoKit)
    ensures
        !h.spec_after_run().can_enter_loop(),
{
}

/// Law: a liveness reference taken from any runtime handle resolves to
/// stale once that handle's runtime has been released.
pub proof fn lemma_wrapper_stale_after_release(h: StereoKit, g: InitGate)
    ensures
        !h.spec_wrapper().is_live(g.spec_release()),
{
}

} // verus!
