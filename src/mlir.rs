//! Handles on objects of the MLIR compiler infrastructure, which the code
//! generator drives through MLIR's C API. A raw handle is the address of the
//! C++ object as the C API hands it out; each wrapper here holds one and gives it
//! back unchanged.
use vstd::prelude::*;

verus! {

/// Raw handle on an MLIR context.
#[derive(Clone, Copy, PartialEq, Eq, Debug)]
pub struct MlirContext {
    pub ptr: usize,
}

/// Raw handle on an MLIR module.
#[derive(Clone, Copy, PartialEq, Eq, Debug)]
pub struct MlirModule {
    pub ptr: usize,
}

/// Raw handle on an MLIR source location.
#[derive(Clone, Copy, PartialEq, Eq, Debug)]
pub struct MlirLocation {
    pub ptr: usize,
}

/// Raw handle on an MLIR attribute.
#[derive(Clone, Copy, PartialEq, Eq, Debug)]
pub struct MlirAttribute {
    pub ptr: usize,
}

/// Raw handle on an MLIR identifier.
#[derive(Clone, Copy, PartialEq, Eq, Debug)]
pub struct MlirIdentifier {
    pub ptr: usize,
}

/// Raw MLIR named attribute: an identifier and an attribute.
#[derive(Clone, Copy, PartialEq, Eq, Debug)]
pub struct MlirNamedAttribute {
    pub name: MlirIdentifier,
    pub attribute: MlirAttribute,
}

/// Raw handle on an MLIR pass manager.
#[derive(Clone, Copy, PartialEq, Eq, Debug)]
pub struct MlirPassManager {
    pub ptr: usize,
}

/// An MLIR named attribute.
#[derive(Clone, Copy)]
pub struct NamedAttribute {
    inner: MlirNamedAttribute,
}

impl NamedAttribute {
    pub closed spec fn raw(&self) -> MlirNamedAttribute {
        self.inner
    }

    /// Wraps a named attribute that the C API made.
    pub fn from_raw(inner: MlirNamedAttribute) -> (r: Self)
        ensures
            r.raw() == inner,
    {
        NamedAttribute { inner }
    }

    /// The underlying raw named attribute.
    pub fn as_raw(&self) -> (r: MlirNamedAttribute)
        ensures
            r == self.raw(),
    {
        self.inner
    }

    /// The underlying raw named attribute; consumes the wrapper.
    pub fn into_raw(self) -> (r: MlirNamedAttribute)
        ensures
            r == self.raw(),
    {
        self.inner
    }
}

/// An MLIR attribute.
#[derive(Clone, Copy)]
pub struct Attribute {
    inner: MlirAttribute,
}

impl Attribute {
    pub closed spec fn raw(&self) -> MlirAttribute {
        self.inner
    }

    /// Wraps an attribute that the C API made.
    pub fn from_raw(inner: MlirAttribute) -> (r: Self)
        ensures
            r.raw() == inner,
    {
        Attribute { inner }
    }

    /// The underlying raw attribute.
    pub fn as_raw(&self) -> (r: MlirAttribute)
        ensures
            r == self.raw(),
    {
        self.inner
    }

    /// The underlying raw attribute; consumes the wrapper.
    pub fn into_raw(self) -> (r: MlirAttribute)
        ensures
            r == self.raw(),
    {
        self.inner
    }
}

/// An MLIR context.
pub struct Context {
    inner: MlirContext,
}

impl Context {
    pub closed spec fn raw(&self) -> MlirContext {
        self.inner
    }

    /// Wraps a context that the C API made.
    pub fn from_raw(inner: MlirContext) -> (r: Self)
        ensures
            r.raw() == inner,
    {
        Context { inner }
    }

    /// The underlying raw context.
    pub fn as_raw(&self) -> (r: MlirContext)
        ensures
            r == self.raw(),
    {
        self.inner
    }
}

/// An MLIR module.
pub struct Module {
    inner: MlirModule,
}

impl Module {
    pub closed spec fn raw(&self) -> MlirModule {
        self.inner
    }

    /// Wraps a module that the C API made.
    pub fn from_raw(inner: MlirModule) -> (r: Self)
        ensures
            r.raw() == inner,
    {
        Module { inner }
    }

    /// The underlying raw module.
    pub fn as_raw(&self) -> (r: MlirModule)
        ensures
            r == self.raw(),
    {
        self.inner
    }

    /// The underlying raw module; consumes the wrapper.
    pub fn into_raw(self) -> (r: MlirModule)
        ensures
            r == self.raw(),
    {
        self.inner
    }
}

/// An MLIR source location.
#[derive(Clone, Copy)]
pub struct Location {
    inner: MlirLocation,
}

impl Location {
    pub closed spec fn raw(&self) -> MlirLocation {
        self.inner
    }

    /// Wraps a location that the C API made.
    pub fn from_raw(inner: MlirLocation) -> (r: Self)
        ensures
            r.raw() == inner,
    {
        Location { inner }
    }

    /// The underlying raw location; consumes the wrapper.
    pub fn into_raw(self) -> (r: MlirLocation)
        ensures
            r == self.raw(),
    {
        self.inner
    }
}

/// An MLIR pass manager.
pub struct Pass {
    pass: MlirPassManager,
}

impl Pass {
    pub closed spec fn raw(&self) -> MlirPassManager {
        self.pass
    }

    /// Wraps a pass manager that the C API made.
    pub fn from_raw(pass: MlirPassManager) -> (r: Self)
        ensures
            r.raw() == pass,
    {
        Pass { pass }
    }
}

} // verus!
