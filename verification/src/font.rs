//! Custody of an opaque native font handle.
//!
//! A [`Font`] records who is responsible for releasing one native font
//! object. The handle is carried as its nonzero address value; the engine
//! call that finally destroys the object is made by the embedder, which must
//! obtain the handle through [`Font::take_for_release`] and therefore can
//! release it at most once.

use vstd::prelude::*;

verus! {

/// Owner-of-record for a single native font handle.
///
/// Exactly one `Font` value owns a given handle at a time, and the handle is
/// never null (zero) while a `Font` exists. Ownership leaves the value either
/// through [`Font::into_raw`], which consumes it, or through
/// [`Font::take_for_release`], which neutralizes it; after either, no release
/// is owed any more.
pub struct Font {
    raw: usize,
    owned: bool,
}

/// The state a freshly adopted handle is held in: the handle itself, with a
/// release still owed.
pub closed spec fn spec_adopt(raw: usize) -> Font {
    Font { raw, owned: true }
}

/// One run of the release step: if a release is still owed, it hands the
/// handle out and neutralizes the record; otherwise it hands out nothing and
/// leaves the record as it is.
pub closed spec fn spec_release(f: Font) -> (Option<usize>, Font) {
    if f.owned {
        (Some(f.raw), Font { raw: f.raw, owned: false })
    } else {
        (None, f)
    }
}

impl Font {
    /// The address value of the native handle this record speaks for.
    pub closed spec fn handle(self) -> usize {
        self.raw
    }

    /// Whether this record still owes a release of its handle.
    pub closed spec fn owns(self) -> bool {
        self.owned
    }

    /// A `Font` never stands for a null handle.
    pub open spec fn wf(self) -> bool {
        self.handle() != 0
    }

    /// Adopt a caller-supplied handle, taking over the duty to release it.
    ///
    /// The caller vouches that `raw` is the address of a valid, currently
    /// unowned native font object; a null handle is not a font.
    pub fn from_raw(raw: usize) -> (f: Font)
        requires
            raw != 0,
        ensures
            f == spec_adopt(raw),
            f.wf(),
            f.handle() == raw,
            f.owns(),
    {
        Font { raw, owned: true }
    }

    /// Borrow the handle's address without giving up the duty to release it.
    pub fn as_raw(&self) -> (r: usize)
        ensures
            r == self.handle(),
    {
        self.raw
    }

    /// Give up ownership: the handle's address is handed to the caller, and
    /// the consumed `Font` releases nothing, having no further step to run.
    pub fn into_raw(self) -> (r: usize)
        requires
            self.owns(),
        ensures
            r == self.handle(),
    {
        self.raw
    }

    /// The one release step. Run by the embedder wherever the duty to release
    /// ends — on teardown, or when ownership is transferred out — it yields
    /// the handle to be destroyed exactly when a release was still owed, and
    /// afterwards none is.
    pub fn take_for_release(&mut self) -> (r: Option<usize>)
        ensures
            (r, *final(self)) == spec_release(*old(self)),
            final(self).handle() == old(self).handle(),
            !final(self).owns(),
            r == (if old(self).owns() { Some(old(self).handle()) } else { None::<usize> }),
    {
        if self.owned {
            self.owned = false;
            Some(self.raw)
        } else {
            None
        }
    }
}

/// Adopting a handle and then running the release step twice releases the
/// handle exactly once: the first run yields it, the second yields nothing.
pub proof fn lemma_single_release_on_drop(raw: usize)
    ensures
        ({
            let (r1, f1) = spec_release(spec_adopt(raw));
            let (r2, f2) = spec_release(f1);
            r1 == Some(raw) && !f1.owns() && r2 == None::<usize> && f2 == f1
        }),
{
}

/// Once ownership has been transferred out of a `Font`, the release step
/// yields nothing: a later teardown cannot release the handle a second time.
pub proof fn lemma_no_release_after_transfer(f: Font)
    requires
        !f.owns(),
    ensures
        spec_release(f).0 == None::<usize>,
        spec_release(f).1 == f,
{
}

} // verus!
