use vstd::prelude::*;
use crate::eye::Eye;

verus! {

/// Width and height of the host's render target, in pixels, as the graphics
/// API and the host's resize notification report them.
#[derive(Clone, Copy, Debug, PartialEq, Eq, Structural)]
pub struct ViewportSize {
    pub width: i32,
    pub height: i32,
}

/// One texture chain per eye, both of one size.
pub struct SwapChainPair<C> {
    pub left: C,
    pub right: C,
    pub size: ViewportSize,
}

/// What the manager holds, seen as plain values.
pub ghost struct SwapChainsView {
    /// The size of the current pair, or `None` before the first allocation.
    pub size: Option<ViewportSize>,
    /// How many pairs have been allocated so far.
    pub allocations: nat,
    /// Whether each chain of the current pair has had a frame committed.
    pub left_committed: bool,
    pub right_committed: bool,
}

/// The view after a fresh pair of `size` replaced whatever was there.
pub open spec fn reallocated(v: SwapChainsView, size: ViewportSize) -> SwapChainsView {
    SwapChainsView {
        size: Some(size),
        allocations: v.allocations + 1,
        left_committed: false,
        right_committed: false,
    }
}

/// The view after an ensure-allocated request for `size`: unchanged when a
/// pair of that size is already there.
pub open spec fn ensured(v: SwapChainsView, size: ViewportSize) -> SwapChainsView {
    if v.size == Some(size) {
        v
    } else {
        reallocated(v, size)
    }
}

/// An ensure-allocated request is idempotent: repeating it for the size it
/// just ensured changes nothing, and asking for the size already allocated
/// is a no-op. A resize always allocates a fresh pair, even to the size
/// already allocated.
pub proof fn lemma_ensure_idempotent_resize_reallocates(v: SwapChainsView, size: ViewportSize)
    ensures
        ensured(v, size).size == Some(size),
        ensured(ensured(v, size), size) == ensured(v, size),
        v.size == Some(size) ==> ensured(v, size) == v,
        reallocated(v, size).size == Some(size),
        reallocated(v, size).allocations == v.allocations + 1,
        v.size == Some(size) ==> reallocated(v, size).allocations == v.allocations + 1,
        ensured(reallocated(v, size), size) == reallocated(v, size),
{
}

/// The view after a frame was committed into the chain of `eye`.
pub open spec fn committed(v: SwapChainsView, eye: Eye) -> SwapChainsView {
    if v.size is None {
        v
    } else {
        match eye {
            Eye::Left => SwapChainsView { left_committed: true, ..v },
            Eye::Right => SwapChainsView { right_committed: true, ..v },
        }
    }
}

/// Owns the pair of per-eye texture chains, created on demand and replaced
/// whole on a resize.
pub struct SwapChainManager<C> {
    pair: Option<SwapChainPair<C>>,
    left_committed: bool,
    right_committed: bool,
    allocations: Ghost<nat>,
}

impl<C> View for SwapChainManager<C> {
    type V = SwapChainsView;

    closed spec fn view(&self) -> SwapChainsView {
        SwapChainsView {
            size: match self.pair {
                Some(p) => Some(p.size),
                None => None,
            },
            allocations: self.allocations@,
            left_committed: self.left_committed,
            right_committed: self.right_committed,
        }
    }
}

impl<C> SwapChainManager<C> {
    /// The chain that `eye` renders into; meaningful once a pair exists.
    pub closed spec fn chain_of(&self, eye: Eye) -> C {
        match eye {
            Eye::Left => self.pair->Some_0.left,
            Eye::Right => self.pair->Some_0.right,
        }
    }

    pub closed spec fn wf(&self) -> bool {
        self.pair is None ==> !self.left_committed && !self.right_committed
    }

    /// A manager that holds no chains yet.
    pub fn new() -> (r: Self)
        ensures
            r.wf(),
            r@.size is None,
            r@.allocations == 0,
            !r@.left_committed,
            !r@.right_committed,
    {
        SwapChainManager { pair: None, left_committed: false, right_committed: false, allocations: Ghost(0) }
    }

    pub fn size(&self) -> (r: Option<ViewportSize>)
        ensures
            r == self@.size,
    {
        match &self.pair {
            Some(p) => Some(p.size),
            None => None,
        }
    }

    /// Whether an ensure-allocated request for `size` has to create chains.
    pub fn needs_allocation(&self, size: ViewportSize) -> (r: bool)
        ensures
            r == (self@.size != Some(size)),
    {
        match &self.pair {
            Some(p) => p.size != size,
            None => true,
        }
    }

    fn replace<F: Fn(ViewportSize) -> C>(&mut self, size: ViewportSize, create: F)
        requires
            create.requires((size,)),
        ensures
            final(self).wf(),
            final(self)@ == reallocated(old(self)@, size),
            create.ensures((size,), final(self).chain_of(Eye::Left)),
            create.ensures((size,), final(self).chain_of(Eye::Right)),
    {
        let left = create(size);
        let right = create(size);
        self.pair = Some(SwapChainPair { left, right, size });
        self.left_committed = false;
        self.right_committed = false;
        self.allocations = Ghost(self.allocations@ + 1);
    }

    /// Makes sure a pair of `size` is there: nothing happens when one is,
    /// otherwise `create` makes both chains and the old pair is released.
    pub fn ensure_allocated<F: Fn(ViewportSize) -> C>(&mut self, size: ViewportSize, create: F)
        requires
            old(self).wf(),
            create.requires((size,)),
        ensures
            final(self).wf(),
            final(self)@ == ensured(old(self)@, size),
            old(self)@.size == Some(size) ==> final(self).chain_of(Eye::Left) == old(self).chain_of(Eye::Left)
                && final(self).chain_of(Eye::Right) == old(self).chain_of(Eye::Right),
            old(self)@.size != Some(size) ==> create.ensures((size,), final(self).chain_of(Eye::Left))
                && create.ensures((size,), final(self).chain_of(Eye::Right)),
    {
        if self.needs_allocation(size) {
            self.replace(size, create);
        }
    }

    /// Releases the current pair, if any, and creates a new one of `size`,
    /// even when the size is unchanged.
    pub fn resize<F: Fn(ViewportSize) -> C>(&mut self, size: ViewportSize, create: F)
        requires
            create.requires((size,)),
        ensures
            final(self).wf(),
            final(self)@ == reallocated(old(self)@, size),
            create.ensures((size,), final(self).chain_of(Eye::Left)),
            create.ensures((size,), final(self).chain_of(Eye::Right)),
    {
        self.replace(size, create);
    }

    /// The chain that `eye` renders into, once a pair exists.
    pub fn chain(&self, eye: Eye) -> (r: Option<&C>)
        ensures
            r is Some <==> self@.size is Some,
            r is Some ==> *r->Some_0 == self.chain_of(eye),
    {
        match &self.pair {
            Some(p) => match eye {
                Eye::Left => Some(&p.left),
                Eye::Right => Some(&p.right),
            },
            None => None,
        }
    }

    /// Records that a frame was committed into the chain of `eye`; does
    /// nothing while no pair exists.
    pub fn commit(&mut self, eye: Eye)
        requires
            old(self).wf(),
        ensures
            final(self).wf(),
            final(self)@ == committed(old(self)@, eye),
            final(self).chain_of(Eye::Left) == old(self).chain_of(Eye::Left),
            final(self).chain_of(Eye::Right) == old(self).chain_of(Eye::Right),
    {
        if self.pair.is_some() {
            match eye {
                Eye::Left => self.left_committed = true,
                Eye::Right => self.right_committed = true,
            }
        }
    }

    /// Whether both chains of the current pair hold a committed frame.
    pub fn both_committed(&self) -> (r: bool)
        requires
            self.wf(),
        ensures
            r == (self@.left_committed && self@.right_committed),
            r ==> self@.size is Some,
    {
        self.left_committed && self.right_committed
    }
}

} // verus!
