//! The resource-handle template, instantiated per native asset kind: each
//! handle wraps one non-null opaque native handle plus a liveness reference
//! to the runtime that created it. Construction wraps the result of the
//! kind's native create call (a null result is a creation failure, not a
//! handle), and release consumes the handle, yielding the native handle the
//! kind's release entry point must receive — so release is requested
//! exactly once per handle.

use vstd::prelude::*;

use crate::lifecycle::{StereoKit, StereoKitInstanceWrapper};

verus! {

/// A handle to a native shader resource.
pub struct Shader {
    pub(crate) sk: StereoKitInstanceWrapper,
    pub(crate) native: u64,
}

impl Shader {
    /// The wrapped native handle.
    pub closed spec fn raw(self) -> u64 {
        self.native
    }

    /// The liveness reference captured at creation.
    pub closed spec fn runtime_ref(self) -> StereoKitInstanceWrapper {
        self.sk
    }

    /// Every constructed handle wraps a non-null native handle.
    pub open spec fn wf(self) -> bool {
        self.raw() != 0
    }

    /// Wrap the result of the native shader-create call; a null result is
    /// surfaced as creation failure, never as a handle.
    pub fn from_native(sk: &StereoKit, native: u64) -> (r: Option<Shader>)
        ensures
            r is Some <==> native != 0,
            r matches Some(s) ==> s.raw() == native && s.runtime_ref() == sk.spec_wrapper()
                && s.wf(),
    {
        if native == 0 {
            None
        } else {
            Some(Shader { sk: sk.get_wrapper(), native })
        }
    }

    /// Constructor for shader handles wrapped elsewhere in the library.
    pub(crate) fn wrap(sk: StereoKitInstanceWrapper, native: u64) -> (s: Shader)
        ensures
            s.raw() == native,
            s.runtime_ref() == sk,
    {
        Shader { sk, native }
    }

    pub fn as_raw(&self) -> (r: u64)
        ensures
            r == self.raw(),
    {
        self.native
    }

    /// Consume the handle; the result is the native handle the shader
    /// release entry point must now receive, exactly once.
    pub fn release(self) -> (r: u64)
        ensures
            r == self.raw(),
    {
        self.native
    }
}

/// A handle to a native texture resource.
pub struct Texture {
    pub(crate) sk: StereoKitInstanceWrapper,
    pub(crate) native: u64,
}

impl Texture {
    /// The wrapped native handle.
    pub closed spec fn raw(self) -> u64 {
        self.native
    }

    /// The liveness reference captured at creation.
    pub closed spec fn runtime_ref(self) -> StereoKitInstanceWrapper {
        self.sk
    }

    /// Every constructed handle wraps a non-null native handle.
    pub open spec fn wf(self) -> bool {
        self.raw() != 0
    }

    /// Wrap the result of the native texture-create call; a null result is
    /// surfaced as creation failure, never as a handle.
    pub fn from_native(sk: &StereoKit, native: u64) -> (r: Option<Texture>)
        ensures
            r is Some <==> native != 0,
            r matches Some(t) ==> t.raw() == native && t.runtime_ref() == sk.spec_wrapper()
                && t.wf(),
    {
        if native == 0 {
            None
        } else {
            Some(Texture { sk: sk.get_wrapper(), native })
        }
    }

    pub fn as_raw(&self) -> (r: u64)
        ensures
            r == self.raw(),
    {
        self.native
    }

    /// Consume the handle; the result is the native handle the texture
    /// release entry point must now receive, exactly once.
    pub fn release(self) -> (r: u64)
        ensures
            r == self.raw(),
    {
        self.native
    }
}

/// A handle to a native model resource.
pub struct Model {
    pub(crate) sk: StereoKitInstanceWrapper,
    pub(crate) native: u64,
}

impl Model {
    /// The wrapped native handle.
    pub closed spec fn raw(self) -> u64 {
        self.native
    }

    /// The liveness reference captured at creation.
    pub closed spec fn runtime_ref(self) -> StereoKitInstanceWrapper {
        self.sk
    }

    /// Every constructed handle wraps a non-null native handle.
    pub open spec fn wf(self) -> bool {
        self.raw() != 0
    }

    /// Wrap the result of the native model-create call; a null result is
    /// surfaced as creation failure, never as a handle.
    pub fn from_native(sk: &StereoKit, native: u64) -> (r: Option<Model>)
        ensures
            r is Some <==> native != 0,
            r matches Some(m) ==> m.raw() == native && m.runtime_ref() == sk.spec_wrapper()
                && m.wf(),
    {
        if native == 0 {
            None
        } else {
            Some(Model { sk: sk.get_wrapper(), native })
        }
    }

    pub fn as_raw(&self) -> (r: u64)
        ensures
            r == self.raw(),
    {
        self.native
    }

    /// Consume the handle; the result is the native handle the model
    /// release entry point must now receive, exactly once.
    pub fn release(self) -> (r: u64)
        ensures
            r == self.raw(),
    {
        self.native
    }
}

} // verus!
