//! The material handle: the fully worked instance of the resource-handle
//! template, with the liveness check that every operation must pass before
//! its native call may touch the wrapped handle.

use vstd::prelude::*;

use crate::lifecycle::{InitGate, SkError, StereoKit, StereoKitInstanceWrapper};
use crate::resources::{Shader, Texture};

verus! {

/// The native parameter-type code of a texture, as the native set-parameter
/// entry point expects it.
pub const MATERIAL_PARAM_TEXTURE: u32 = 7;

/// A value that can be handed to the native set-parameter entry point:
/// it knows its native parameter-type code and the native handle or
/// address the call receives.
pub trait MaterialParameter {
    /// The native parameter-type code of this kind of value.
    spec fn spec_type_code(&self) -> u32;

    /// The native handle the native call receives for this value.
    spec fn spec_param_raw(&self) -> u64;

    fn type_code(&self) -> (r: u32)
        ensures
            r == self.spec_type_code(),
    ;

    fn param_raw(&self) -> (r: u64)
        ensures
            r == self.spec_param_raw(),
    ;
}

impl MaterialParameter for Texture {
    open spec fn spec_type_code(&self) -> u32 {
        MATERIAL_PARAM_TEXTURE
    }

    open spec fn spec_param_raw(&self) -> u64 {
        self.raw()
    }

    fn type_code(&self) -> (r: u32) {
        MATERIAL_PARAM_TEXTURE
    }

    fn param_raw(&self) -> (r: u64) {
        self.as_raw()
    }
}

/// A handle to a native material resource: one non-null opaque native
/// handle plus a liveness reference to the runtime that created it.
pub struct Material {
    pub(crate) sk: StereoKitInstanceWrapper,
    pub(crate) native: u64,
}

impl Material {
    /// The wrapped native handle.
    pub closed spec fn raw(self) -> u64 {
        self.native
    }

    /// The liveness reference captured at creation.
    pub closed spec fn runtime_ref(self) -> StereoKitInstanceWrapper {
        self.sk
    }

    /// Every constructed handle wraps a non-null native handle.
    pub open spec fn wf(self) -> bool {
        self.raw() != 0
    }

    /// The owning runtime is still live.
    pub open spec fn live(self, gate: InitGate) -> bool {
        self.runtime_ref().is_live(gate)
    }

    /// Wrap the result of the native material-create call, capturing a
    /// liveness reference from the runtime handle; a null result is
    /// surfaced as creation failure, never as a handle.
    pub fn create(sk: &StereoKit, native: u64) -> (r: Option<Material>)
        ensures
            r is Some <==> native != 0,
            r matches Some(m) ==> m.raw() == native && m.runtime_ref() == sk.spec_wrapper()
                && m.wf(),
    {
        if native == 0 {
            None
        } else {
            Some(Material { sk: sk.get_wrapper(), native })
        }
    }

    /// Wrap the result of the native copy-by-id call; the same lifecycle as
    /// `create`, with the native handle coming from the id lookup.
    pub fn copy_from_id(sk: &StereoKit, native: u64) -> (r: Option<Material>)
        ensures
            r is Some <==> native != 0,
            r matches Some(m) ==> m.raw() == native && m.runtime_ref() == sk.spec_wrapper()
                && m.wf(),
    {
        if native == 0 {
            None
        } else {
            Some(Material { sk: sk.get_wrapper(), native })
        }
    }

    /// A true copy: only allowed while the owning runtime is live, and only
    /// a non-null native copy becomes a handle. The copy shares the
    /// liveness reference but owns its native handle independently, with
    /// its own release obligation.
    pub fn copy(&self, gate: &InitGate, native: u64) -> (r: Option<Material>)
        ensures
            r is Some <==> self.live(*gate) && native != 0,
            r matches Some(m) ==> m.raw() == native && m.runtime_ref() == self.runtime_ref()
                && m.wf(),
    {
        if self.sk.valid(gate).is_err() {
            return None;
        }
        if native == 0 {
            return None;
        }
        Some(Material { sk: self.sk, native })
    }

    /// The check owed before any native call that touches the wrapped
    /// handle: granted exactly while the owning runtime is live.
    pub fn check_live(&self, gate: &InitGate) -> (r: Result<(), SkError>)
        ensures
            r is Ok <==> self.live(*gate),
    {
        self.sk.valid(gate)
    }

    /// Whether the native copy call may be made at all: the handle to copy
    /// from, refused from the moment the owning runtime is gone.
    pub fn copy_source(&self, gate: &InitGate) -> (r: Result<u64, SkError>)
        ensures
            r is Ok <==> self.live(*gate),
            r matches Ok(raw) ==> raw == self.raw(),
    {
        match self.sk.valid(gate) {
            Ok(()) => Ok(self.native),
            Err(e) => Err(e),
        }
    }

    /// Permission for the native set-id call: granted exactly while the
    /// owning runtime is live.
    #[allow(unused_variables)]
    pub fn set_id(&self, gate: &InitGate, id: &str) -> (r: Result<(), SkError>)
        ensures
            r is Ok <==> self.live(*gate),
    {
        self.sk.valid(gate)
    }

    /// Permission for the native queue-offset call: granted exactly while
    /// the owning runtime is live.
    #[allow(unused_variables)]
    pub fn set_queue_offset(&self, gate: &InitGate, offset: i32) -> (r: Result<(), SkError>)
        ensures
            r is Ok <==> self.live(*gate),
    {
        self.sk.valid(gate)
    }

    /// Permission for the native set-texture call: granted exactly while
    /// the owning runtime is live.
    #[allow(unused_variables)]
    pub fn set_texture(&self, gate: &InitGate, name: &str, value: &Texture) -> (r: Result<
        (),
        SkError,
    >)
        ensures
            r is Ok <==> self.live(*gate),
    {
        self.sk.valid(gate)
    }

    /// Permission for the native set-parameter call, for any value that
    /// knows its native parameter-type code: granted exactly while the
    /// owning runtime is live.
    #[allow(unused_variables)]
    pub fn set_parameter<P: MaterialParameter>(
        &self,
        gate: &InitGate,
        name: &str,
        value: &P,
    ) -> (r: Result<(), SkError>)
        ensures
            r is Ok <==> self.live(*gate),
    {
        self.sk.valid(gate)
    }

    /// Wrap the shader the native get-shader call returned for this
    /// material: only while the owning runtime is live, and the native
    /// result must be non-null (the native call yields the material's
    /// current shader, which always exists while the runtime does).
    pub fn get_shader(&self, gate: &InitGate, native: u64) -> (r: Result<Shader, SkError>)
        requires
            native != 0,
        ensures
            r is Ok <==> self.live(*gate),
            r matches Ok(s) ==> s.raw() == native && s.runtime_ref() == self.runtime_ref()
                && s.wf(),
    {
        match self.sk.valid(gate) {
            Ok(()) => Ok(Shader::wrap(self.sk, native)),
            Err(e) => Err(e),
        }
    }

    pub fn as_raw(&self) -> (r: u64)
        ensures
            r == self.raw(),
    {
        self.native
    }

    /// Consume the handle; the result is the native handle the material
    /// release entry point must now receive, exactly once.
    pub fn release(self) -> (r: u64)
        ensures
            r == self.raw(),
    {
        self.native
    }
}

} // verus!
