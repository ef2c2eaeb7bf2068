//! Ownership of the opaque objects that CEA hands out.

use vstd::prelude::*;
use crate::error::{check, fails_with, cea_error, CeaResult, Error, CEA_SUCCESS};

verus! {

/// A handle to an object of the CEA library: null until a create call fills it, null again
/// once it has been destroyed. `H` is the raw, non-null handle of the object.
pub struct Handle<H> {
    raw: Option<H>,
}

impl<H> View for Handle<H> {
    type V = Option<H>;

    closed spec fn view(&self) -> Option<H> {
        self.raw
    }
}

/// `r` is what a create call that answered `reply` (a status and the handle it wrote, if
/// any) yields for the routine `context`: the handle on success, else the CEA error.
pub open spec fn created<H>(reply: (i32, Option<H>), context: Seq<char>, r: CeaResult<Handle<H>>) -> bool {
    if reply.0 == CEA_SUCCESS {
        r matches Ok(h) && h@ == reply.1
    } else {
        fails_with(r, cea_error(reply.0, context))
    }
}

impl<H> Handle<H> {
    /// A handle that holds no object.
    pub fn null() -> (h: Handle<H>)
        ensures
            h@ is None,
    {
        Handle { raw: None }
    }

    pub fn is_null(&self) -> (b: bool)
        ensures
            b == self@ is None,
    {
        self.raw.is_none()
    }

    /// The raw handle, if any.
    pub fn raw(&self) -> (r: Option<&H>)
        ensures
            r == match self@ {
                Some(h) => Some(&h),
                None => None::<&H>,
            },
    {
        match &self.raw {
            Some(h) => Some(h),
            None => None,
        }
    }

    /// Runs a create call of CEA, which answers with its status and the handle it wrote
    /// into its out-parameter (none if it left it null), and keeps that handle.
    pub fn create<F>(create: F) -> (r: (i32, Handle<H>))
        where
            F: Fn() -> (i32, Option<H>),
        requires
            create.requires(()),
        ensures
            create.ensures((), (r.0, r.1@)),
    {
        let (code, raw) = create();
        (code, Handle { raw })
    }

    /// The handle that a create call answered with, once its status is checked.
    pub fn from_reply(reply: (i32, Option<H>), context: &str) -> (r: CeaResult<Handle<H>>)
        ensures
            created(reply, context@, r),
    {
        let (code, raw) = reply;
        match check(code, context) {
            Ok(()) => Ok(Handle { raw }),
            Err(e) => Err(e),
        }
    }

    /// Destroys the object if there is one, through `destroy`, and leaves the handle null.
    /// Answers with the status of the destroy call, or none if the handle was already null.
    pub fn destroy<F>(&mut self, destroy: F) -> (r: Option<i32>)
        where
            F: Fn(H) -> i32,
        requires
            forall|h: H| old(self)@ == Some(h) ==> destroy.requires((h,)),
        ensures
            final(self)@ is None,
            old(self)@ is None ==> r is None,
            old(self)@ matches Some(h) ==> (r matches Some(c) && destroy.ensures((h,), c)),
    {
        match self.raw.take() {
            Some(h) => Some(destroy(h)),
            None => None,
        }
    }
}

} // verus!
