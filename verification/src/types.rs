//! Python objects as the library refers to them: by address.
use vstd::prelude::*;
use vstd::std_specs::cmp::PartialEqSpec;

verus! {

/// A reference to a Python object, held by the object's address, which is
/// never null.
pub struct PyObject {
    addr: usize,
}

impl View for PyObject {
    type V = usize;

    closed spec fn view(&self) -> usize {
        self.addr
    }
}

impl PyObject {
    #[verifier::type_invariant]
    closed spec fn non_null(self) -> bool {
        self.addr != 0
    }

    /// The object at address `addr`, or `None` for the null address.
    pub fn from_ptr(addr: usize) -> (r: Option<PyObject>)
        ensures
            r is Some <==> addr != 0,
            r matches Some(o) ==> o@ == addr,
    {
        if addr == 0 {
            None
        } else {
            Some(PyObject { addr })
        }
    }

    /// The address of the object.
    pub fn as_ptr(&self) -> (r: usize)
        ensures
            r == self@,
            r != 0,
    {
        proof {
            use_type_invariant(self);
        }
        self.addr
    }
}

/// Represents general python instance.
pub struct PyBaseObject(PyObject);

impl View for PyBaseObject {
    type V = usize;

    closed spec fn view(&self) -> usize {
        self.0@
    }
}

impl PyBaseObject {
    /// The address of the underlying Python object.
    pub closed spec fn as_ptr_spec(&self) -> usize {
        self.0@
    }

    /// The base object for a Python object.
    pub fn from_object(obj: PyObject) -> (r: PyBaseObject)
        ensures
            r@ == obj@,
    {
        PyBaseObject(obj)
    }

    /// The address of the underlying Python object, never null.
    pub fn as_ptr(&self) -> (r: usize)
        ensures
            r == self@,
            r == self.as_ptr_spec(),
            r != 0,
    {
        self.0.as_ptr()
    }
}

impl PartialEq for PyBaseObject {
    /// Two base objects are equal when they are the same Python object.
    fn eq(&self, other: &PyBaseObject) -> (r: bool)
        ensures
            r == (self.as_ptr_spec() == other.as_ptr_spec()),
    {
        self.as_ptr() == other.as_ptr()
    }
}

impl vstd::std_specs::cmp::PartialEqSpecImpl for PyBaseObject {
    open spec fn obeys_eq_spec() -> bool {
        true
    }

    open spec fn eq_spec(&self, other: &PyBaseObject) -> bool {
        self@ == other@
    }
}

/// Two base objects are equal exactly when they are at the same address, so
/// equality is reflexive, symmetric and transitive.
pub proof fn law_base_object_identity(a: PyBaseObject, b: PyBaseObject, c: PyBaseObject)
    ensures
        a.eq_spec(&b) <==> a.as_ptr_spec() == b.as_ptr_spec(),
        a.eq_spec(&b) <==> b.eq_spec(&a),
        a.eq_spec(&a),
        a.eq_spec(&b) && b.eq_spec(&c) ==> a.eq_spec(&c),
{
    assert(a@ == a.as_ptr_spec() && b@ == b.as_ptr_spec());
}

} // verus!
