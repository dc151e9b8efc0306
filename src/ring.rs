use vstd::prelude::*;

verus! {

/// The cursor over the window's image-acquired semaphores. The acquire call
/// needs a semaphore before the image index is known, so the semaphores are
/// handed out round-robin rather than by image index.
#[derive(Clone, Copy, Debug, PartialEq, Eq, Structural)]
pub struct AcquireSemaphoreRing {
    position: usize,
    len: usize,
}

pub open spec fn advance_spec(position: nat, len: nat) -> nat {
    if position + 1 >= len {
        0
    } else {
        position + 1
    }
}

/// Where the cursor stands after `n` acquire calls from `position`.
pub open spec fn cursor_after(position: nat, n: nat, len: nat) -> nat
    decreases n,
{
    if n == 0 {
        position
    } else {
        cursor_after(advance_spec(position, len), (n - 1) as nat, len)
    }
}

impl AcquireSemaphoreRing {
    pub closed spec fn position_spec(&self) -> nat {
        self.position as nat
    }

    pub closed spec fn len_spec(&self) -> nat {
        self.len as nat
    }

    pub open spec fn wf(&self) -> bool {
        0 < self.len_spec() && self.position_spec() < self.len_spec()
    }

    /// A ring over `len` semaphores, starting at the first. `None` for an
    /// empty ring.
    pub fn new(len: usize) -> (r: Option<AcquireSemaphoreRing>)
        ensures
            len == 0 <==> r is None,
            r matches Some(ring) ==> ring.wf() && ring.position_spec() == 0 && ring.len_spec() == len,
    {
        if len == 0 {
            None
        } else {
            Some(AcquireSemaphoreRing { position: 0, len })
        }
    }

    /// The index of the semaphore the next acquire call uses.
    pub fn position(&self) -> (r: usize)
        ensures
            r == self.position_spec(),
    {
        self.position
    }

    pub fn len(&self) -> (r: usize)
        ensures
            r == self.len_spec(),
    {
        self.len
    }

    /// Hands out the semaphore index for one acquire call and moves the
    /// cursor on by one, wrapping at the ring's length.
    pub fn next(&mut self) -> (r: usize)
        requires
            old(self).wf(),
        ensures
            final(self).wf(),
            r == old(self).position_spec(),
            final(self).len_spec() == old(self).len_spec(),
            final(self).position_spec() == advance_spec(old(self).position_spec(), old(self).len_spec()),
            final(self).position_spec() as int == (old(self).position_spec() + 1) as int % (old(self).len_spec() as int),
    {
        let r = self.position;
        proof {
            lemma_advance_is_mod(self.position as nat, self.len as nat);
        }
        if self.position + 1 >= self.len {
            self.position = 0;
        } else {
            self.position = self.position + 1;
        }
        r
    }

    /// Gives the ring a new length. The cursor stays where it stands if that
    /// is still inside the ring, else it starts over at the first semaphore.
    pub fn set_len(&mut self, len: usize)
        requires
            len > 0,
        ensures
            final(self).wf(),
            final(self).len_spec() == len,
            final(self).position_spec() == if old(self).position_spec() < len {
                old(self).position_spec()
            } else {
                0
            },
    {
        if self.position >= len {
            self.position = 0;
        }
        self.len = len;
    }
}

pub proof fn lemma_advance_is_mod(position: nat, len: nat)
    requires
        position < len,
    ensures
        advance_spec(position, len) as int == (position + 1) as int % (len as int),
{
    if position + 1 == len {
        vstd::arithmetic::div_mod::lemma_mod_self_0(len as int);
    } else {
        vstd::arithmetic::div_mod::lemma_small_mod((position + 1) as nat, len);
    }
}

proof fn lemma_cursor_after_is_mod(position: nat, n: nat, len: nat)
    requires
        position < len,
    ensures
        cursor_after(position, n, len) as int == (position + n) as int % (len as int),
    decreases n,
{
    if n == 0 {
        vstd::arithmetic::div_mod::lemma_small_mod(position, len);
    } else {
        let p1 = advance_spec(position, len);
        lemma_advance_is_mod(position, len);
        lemma_cursor_after_is_mod(p1, (n - 1) as nat, len);
        vstd::arithmetic::div_mod::lemma_add_mod_noop_right((n - 1) as int, (position + 1) as int, len as int);
    }
}

/// The cursor moves on by one per acquire call and wraps at the ring's
/// length: after `n` calls it stands at `(position + n) mod len`, so after
/// as many calls as the ring is long it is back where it started.
pub proof fn lemma_ring_advancement(position: nat, n: nat, len: nat)
    requires
        position < len,
    ensures
        cursor_after(position, n, len) as int == (position + n) as int % (len as int),
        cursor_after(position, len, len) == position,
{
    lemma_cursor_after_is_mod(position, n, len);
    lemma_cursor_after_is_mod(position, len, len);
    vstd::arithmetic::div_mod::lemma_add_mod_noop_right(position as int, len as int, len as int);
    vstd::arithmetic::div_mod::lemma_mod_self_0(len as int);
    vstd::arithmetic::div_mod::lemma_small_mod(position, len);
}

} // verus!
