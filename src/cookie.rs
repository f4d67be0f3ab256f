use vstd::prelude::*;

verus! {

/// The model of a handle: the address of the native context it owns, and
/// whether that context is still to be released.
pub struct CookieState {
    pub raw: usize,
    pub live: bool,
}

impl CookieState {
    /// The handle made from a context that the native side just opened.
    pub open spec fn opened(raw: usize) -> CookieState {
        CookieState { raw, live: true }
    }

    /// One release: the handle is dead afterwards, and the context is to be
    /// closed (the second component) only if the handle was live.
    pub open spec fn release_step(self) -> (CookieState, Option<usize>) {
        (
            CookieState { raw: self.raw, live: false },
            if self.live {
                Some(self.raw)
            } else {
                None
            },
        )
    }

    /// How many times the native context is closed over `n` releases in a row.
    pub open spec fn closes_over(self, n: nat) -> nat
        decreases n,
    {
        if n == 0 {
            0
        } else {
            let (next, action) = self.release_step();
            (if action is Some {
                1nat
            } else {
                0nat
            }) + next.closes_over((n - 1) as nat)
        }
    }
}

/// A handle on one native libmagic context.
///
/// It records the address of the context it owns and whether that context
/// has been released. The native calls are made by the owner of the handle,
/// with the address that `handle` gives while the handle is live, and the
/// native close with the one that `release` gives, which it gives once.
pub struct Cookie {
    cookie: usize,
    live: bool,
}

impl View for Cookie {
    type V = CookieState;

    closed spec fn view(&self) -> CookieState {
        CookieState { raw: self.cookie, live: self.live }
    }
}

impl Cookie {
    /// A handle never holds the null address.
    pub closed spec fn wf(&self) -> bool {
        self.cookie != 0
    }

    /// Takes ownership of the context that the native open returned.
    /// A null address means the native side could not allocate one.
    pub fn from_raw(raw: usize) -> (r: Option<Cookie>)
        ensures
            r is None <==> raw == 0,
            r matches Some(c) ==> c.wf() && c@ == CookieState::opened(raw),
    {
        if raw == 0 {
            None
        } else {
            Some(Cookie { cookie: raw, live: true })
        }
    }

    /// The address of the context to call into, or `None` once the handle
    /// has been released.
    pub fn handle(&self) -> (r: Option<usize>)
        requires
            self.wf(),
        ensures
            r == (if self@.live {
                Some(self@.raw)
            } else {
                None
            }),
            r matches Some(a) ==> a != 0,
    {
        if self.live {
            Some(self.cookie)
        } else {
            None
        }
    }

    /// Releases the handle. Returns the address of the context to close the
    /// first time, and `None` on every later call.
    pub fn release(&mut self) -> (r: Option<usize>)
        requires
            old(self).wf(),
        ensures
            final(self).wf(),
            (final(self)@, r) == old(self)@.release_step(),
    {
        if self.live {
            self.live = false;
            Some(self.cookie)
        } else {
            None
        }
    }
}

/// Opening a context and releasing its handle at once closes that very
/// context, and leaves the handle dead.
pub proof fn lemma_open_then_release(raw: usize)
    requires
        raw != 0,
    ensures
        CookieState::opened(raw).release_step() == (CookieState { raw, live: false }, Some(raw)),
{
}

/// However many times a handle is released, its context is closed at most
/// once, and exactly once if the handle was live.
pub proof fn lemma_release_closes_once(s: CookieState, n: nat)
    requires
        n >= 1,
    ensures
        s.closes_over(n) == (if s.live {
            1nat
        } else {
            0nat
        }),
    decreases n,
{
    let next = s.release_step().0;
    assert(!next.live);
    if n > 1 {
        lemma_release_closes_once(next, (n - 1) as nat);
    } else {
        assert(next.closes_over(0) == 0);
    }
}

/// Releasing a handle a second time closes nothing.
pub proof fn lemma_release_twice(s: CookieState)
    ensures
        s.release_step().0.release_step().1 is None,
        s.release_step().0.release_step().0 == s.release_step().0,
{
}

} // verus!
