use vstd::prelude::*;

use crate::file_id::{lex_order, FileId};
use vstd::std_specs::cmp::{PartialEqSpec, PartialOrdSpec};

verus! {

/// An open file-like resource paired with the identity of the file it
/// refers to.
///
/// Handles compare by identity alone: the wrapped resource is never touched
/// by `==` or `<`, so comparing handles cannot fail and does no I/O. The
/// identity is meaningful for as long as the resource keeps the file open.
#[derive(Debug)]
pub struct Handle<F> {
    handle: F,
    identity: FileId,
}

impl<F> Handle<F> {
    /// The wrapped resource.
    pub closed spec fn inner(&self) -> F {
        self.handle
    }

    /// The identity recorded when the handle was built.
    pub closed spec fn identity(&self) -> FileId {
        self.identity
    }

    /// Builds a handle from a resource and an identity already read from it.
    ///
    /// The identity is trusted as given: the caller must make sure it was
    /// read from this resource, and that the resource keeps the file open
    /// for the lifetime of the handle.
    pub fn from_parts(handle: F, identity: FileId) -> (r: Handle<F>)
        ensures
            r.inner() == handle,
            r.identity() == identity,
    {
        Handle { handle, identity }
    }

    /// Builds a handle from a resource and the outcome of reading its
    /// identity. Fails exactly when that read failed, with its error.
    pub fn from_file_like<E>(file: F, identity: Result<FileId, E>) -> (r: Result<Handle<F>, E>)
        ensures
            identity is Ok ==> r is Ok && r->Ok_0.inner() == file && r->Ok_0.identity()
                == identity->Ok_0,
            identity is Err ==> r == Err::<Handle<F>, E>(identity->Err_0),
    {
        match identity {
            Ok(id) => Ok(Handle { handle: file, identity: id }),
            Err(e) => Err(e),
        }
    }

    /// Consumes the handle and gives back the resource, without closing it.
    pub fn into_inner(this: Handle<F>) -> (r: F)
        ensures
            r == this.inner(),
    {
        this.handle
    }

    /// Consumes the handle and gives back the identity of the file it
    /// referred to.
    pub fn id(this: Handle<F>) -> (r: FileId)
        ensures
            r == this.identity(),
    {
        this.identity
    }

    /// Borrows the wrapped resource.
    pub fn get_ref(&self) -> (r: &F)
        ensures
            *r == self.inner(),
    {
        &self.handle
    }

    /// Borrows the wrapped resource mutably; the identity stays as it was.
    pub fn get_mut(&mut self) -> (r: &mut F)
        ensures
            *r == old(self).inner(),
            final(self).identity() == old(self).identity(),
            final(self).inner() == *final(r),
    {
        &mut self.handle
    }
}

/// Handle equality is an equivalence: a handle equals itself, the order of
/// the operands does not matter, and handles equal to a common one are equal.
pub proof fn lemma_handle_eq_equivalence<F1, F2, F3>(
    a: Handle<F1>,
    b: Handle<F2>,
    c: Handle<F3>,
)
    ensures
        a.eq_spec(&a),
        a.eq_spec(&b) == b.eq_spec(&a),
        a.eq_spec(&b) && b.eq_spec(&c) ==> a.eq_spec(&c),
{
}

/// Handles stand or fall with their identities: two handles are equal, and
/// ordered `Equal`, exactly when the identities read for them are equal.
/// So two opens that read the same identity (one path twice, a hard link, a
/// followed symbolic link) give equal handles, and two that read different
/// identities give unequal ones.
pub proof fn lemma_handles_follow_identities<F1, F2>(a: Handle<F1>, b: Handle<F2>)
    ensures
        a.eq_spec(&b) <==> a.identity() == b.identity(),
        a.partial_cmp_spec(&b) == Some(core::cmp::Ordering::Equal) <==> a.identity()
            == b.identity(),
{
    FileId::lemma_eq_iff_view_eq(a.identity(), b.identity());
}

impl<F> core::ops::Deref for Handle<F> {
    type Target = F;

    fn deref(&self) -> (r: &F)
        ensures
            *r == self.inner(),
    {
        &self.handle
    }
}

impl<F> core::ops::DerefMut for Handle<F> {
    fn deref_mut(&mut self) -> (r: &mut F)
        ensures
            *r == old(self).inner(),
            final(self).identity() == old(self).identity(),
            final(self).inner() == *final(r),
    {
        &mut self.handle
    }
}

impl<F1, F2> PartialEq<Handle<F2>> for Handle<F1> {
    fn eq(&self, other: &Handle<F2>) -> (r: bool) {
        self.identity == other.identity
    }
}

impl<F1, F2> vstd::std_specs::cmp::PartialEqSpecImpl<Handle<F2>> for Handle<F1> {
    open spec fn obeys_eq_spec() -> bool {
        true
    }

    open spec fn eq_spec(&self, other: &Handle<F2>) -> bool {
        self.identity() == other.identity()
    }
}

impl<F> Eq for Handle<F> {

}

impl<F1, F2> PartialOrd<Handle<F2>> for Handle<F1> {
    fn partial_cmp(&self, other: &Handle<F2>) -> (r: Option<core::cmp::Ordering>) {
        self.identity.partial_cmp(&other.identity)
    }
}

impl<F1, F2> vstd::std_specs::cmp::PartialOrdSpecImpl<Handle<F2>> for Handle<F1> {
    open spec fn obeys_partial_cmp_spec() -> bool {
        true
    }

    open spec fn partial_cmp_spec(&self, other: &Handle<F2>) -> Option<core::cmp::Ordering> {
        Some(lex_order(self.identity()@, other.identity()@))
    }
}

} // verus!
