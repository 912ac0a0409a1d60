//! Fixed-layout stand-ins for optional values and borrowed sequences that cross
//! the boundary between the host and a check.
use vstd::prelude::*;

verus! {

/// An optional value as a presence flag and a payload slot. An absent value's
/// slot is never read.
#[derive(Debug)]
pub struct FfiOption<T> {
    data: Option<T>,
}

impl<T> FfiOption<T> {
    /// The value this option stands for.
    pub closed spec fn view_opt(&self) -> Option<T> {
        self.data
    }

    pub fn new(data: Option<T>) -> (r: FfiOption<T>)
        ensures
            r.view_opt() == data,
    {
        FfiOption { data }
    }

    /// A read-only view of the payload, or `None` where the value is absent.
    pub fn get(&self) -> (r: Option<&T>)
        ensures
            r == match self.view_opt() {
                Some(v) => Some(&v),
                None => None::<&T>,
            },
    {
        match &self.data {
            Some(v) => Some(v),
            None => None,
        }
    }

    pub fn is_some(&self) -> (r: bool)
        ensures
            r == self.view_opt().is_some(),
    {
        self.data.is_some()
    }
}

/// A borrowed sequence as an address and the elements behind it. Only the
/// length decides how many elements there are: an empty sequence may carry any
/// address.
#[derive(Debug)]
pub struct FfiSlice<T> {
    addr: usize,
    elems: Vec<T>,
}

impl<T> View for FfiSlice<T> {
    type V = Seq<T>;

    closed spec fn view(&self) -> Seq<T> {
        self.elems@
    }
}

impl<T> FfiSlice<T> {
    /// The address the host handed over with the elements.
    pub closed spec fn spec_addr(&self) -> usize {
        self.addr
    }

    pub fn new(addr: usize, elems: Vec<T>) -> (r: FfiSlice<T>)
        ensures
            r@ == elems@,
            r.spec_addr() == addr,
    {
        FfiSlice { addr, elems }
    }

    pub fn len(&self) -> (r: usize)
        ensures
            r == self@.len(),
    {
        self.elems.len()
    }

    pub fn addr(&self) -> (r: usize)
        ensures
            r == self.spec_addr(),
    {
        self.addr
    }

    /// A read-only view over exactly `len()` elements.
    pub fn get(&self) -> (r: &[T])
        ensures
            r@ == self@,
    {
        self.elems.as_slice()
    }
}

/// An empty sequence holds no element, whatever its address; an absent
/// optional yields no payload view.
pub proof fn lemma_empty_and_absent<T>(s: FfiSlice<T>, o: FfiOption<T>)
    requires
        s@.len() == 0,
        o.view_opt().is_none(),
    ensures
        s@ =~= Seq::<T>::empty(),
        o.view_opt() == None::<T>,
{
}

} // verus!
