use vstd::prelude::*;

verus! {

/// An opaque, address-stable reference to backend-owned state. Two handles
/// denote the same resource exactly when their addresses are equal.
#[derive(Debug, Clone, Copy, PartialEq, Eq, Structural)]
pub struct NativeHandle {
    addr: usize,
}

impl View for NativeHandle {
    type V = usize;

    closed spec fn view(&self) -> usize {
        self.addr
    }
}

impl NativeHandle {
    #[verifier::type_invariant]
    spec fn non_null(self) -> bool {
        self.addr != 0
    }

    /// Wraps a live resource's address, which is never null.
    pub fn new(addr: usize) -> (r: NativeHandle)
        requires
            addr != 0,
        ensures
            r@ == addr,
    {
        NativeHandle { addr }
    }

    /// Wraps an address that the backend may have left null.
    pub fn from_raw(addr: usize) -> (r: Option<NativeHandle>)
        ensures
            r is None <==> addr == 0,
            r matches Some(h) ==> h@ == addr,
    {
        if addr == 0 {
            None
        } else {
            Some(NativeHandle { addr })
        }
    }

    pub fn addr(&self) -> (r: usize)
        ensures
            r == self@,
            r != 0,
    {
        proof {
            use_type_invariant(self);
        }
        self.addr
    }

    /// Identity of the underlying resource.
    pub fn same_as(&self, other: &NativeHandle) -> (r: bool)
        ensures
            r == (self@ == other@),
    {
        self.addr == other.addr
    }
}

/// One operation on a shared engine handle: a new owner (a clone of an
/// engine, a symbol, a module's claim) or the end of one.
pub enum RefOp {
    Acquire,
    Release,
}

/// Abstract state of a reference-counted engine handle.
pub struct RefState {
    pub owners: nat,
    pub disposed: bool,
}

/// A live handle has owners; a disposed one has none.
pub open spec fn ref_state_wf(s: RefState) -> bool {
    s.disposed == (s.owners == 0)
}

/// One operation: the next state, and whether the native engine is disposed
/// by it. Disposal happens exactly when the last owner goes.
pub open spec fn ref_step(s: RefState, op: RefOp) -> (RefState, bool) {
    if s.disposed {
        (s, false)
    } else {
        match op {
            RefOp::Acquire => (RefState { owners: s.owners + 1, disposed: false }, false),
            RefOp::Release => {
                let n = (s.owners - 1) as nat;
                (RefState { owners: n, disposed: n == 0 }, s.owners == 1)
            },
        }
    }
}

/// The state after a sequence of operations, and how many disposals they made.
pub open spec fn run_refs(s: RefState, ops: Seq<RefOp>) -> (RefState, nat)
    decreases ops.len(),
{
    if ops.len() == 0 {
        (s, 0)
    } else {
        let (s1, d) = ref_step(s, ops[0]);
        let (s2, n) = run_refs(s1, ops.drop_first());
        (s2, n + if d { 1nat } else { 0nat })
    }
}

/// No operation of the sequence comes after the disposal, as the handle's
/// methods demand.
pub open spec fn refs_admissible(s: RefState, ops: Seq<RefOp>) -> bool
    decreases ops.len(),
{
    ops.len() == 0 || (!s.disposed && refs_admissible(ref_step(s, ops[0]).0, ops.drop_first()))
}

/// Shared ownership of a native execution engine. Every owner acquires it
/// once and releases it once; the release of the last owner is the one, and
/// the only one, that reports that the native engine must be disposed.
pub struct SharedEngine {
    handle: NativeHandle,
    owners: usize,
}

impl View for SharedEngine {
    type V = RefState;

    closed spec fn view(&self) -> RefState {
        RefState { owners: self.owners as nat, disposed: self.owners == 0 }
    }
}

impl SharedEngine {
    pub closed spec fn spec_handle(&self) -> NativeHandle {
        self.handle
    }

    /// A handle with its first owner.
    pub fn new(handle: NativeHandle) -> (r: SharedEngine)
        ensures
            r@ == (RefState { owners: 1, disposed: false }),
            r.spec_handle() == handle,
    {
        SharedEngine { handle, owners: 1 }
    }

    pub fn handle(&self) -> (r: NativeHandle)
        ensures
            r == self.spec_handle(),
    {
        self.handle
    }

    pub fn owners(&self) -> (r: usize)
        ensures
            r == self@.owners,
    {
        self.owners
    }

    pub fn is_disposed(&self) -> (r: bool)
        ensures
            r == self@.disposed,
            ref_state_wf(self@),
    {
        self.owners == 0
    }

    /// A new owner. Cloning never revalidates the native handle.
    pub fn acquire(&mut self)
        requires
            !old(self)@.disposed,
            old(self)@.owners < usize::MAX,
        ensures
            final(self)@ == ref_step(old(self)@, RefOp::Acquire).0,
            final(self).spec_handle() == old(self).spec_handle(),
    {
        self.owners = self.owners + 1;
    }

    /// The end of one owner; `true` when the native engine must now be
    /// disposed, which is when that owner was the last.
    pub fn release(&mut self) -> (dispose: bool)
        requires
            !old(self)@.disposed,
        ensures
            (final(self)@, dispose) == ref_step(old(self)@, RefOp::Release),
            dispose == (old(self)@.owners == 1),
            final(self).spec_handle() == old(self).spec_handle(),
    {
        self.owners = self.owners - 1;
        self.owners == 0
    }
}

/// Whatever the sequence of clones and drops, the native engine is disposed
/// at most once, and it has been disposed exactly when no owner is left.
pub proof fn lemma_disposed_exactly_once(s: RefState, ops: Seq<RefOp>)
    requires
        ref_state_wf(s),
        !s.disposed,
        refs_admissible(s, ops),
    ensures
        run_refs(s, ops).1 <= 1,
        run_refs(s, ops).1 == 1 <==> run_refs(s, ops).0.disposed,
        run_refs(s, ops).0.disposed <==> run_refs(s, ops).0.owners == 0,
    decreases ops.len(),
{
    if ops.len() > 0 {
        let (s1, d) = ref_step(s, ops[0]);
        let rest = ops.drop_first();
        assert(refs_admissible(s1, rest));
        if rest.len() > 0 {
            lemma_disposed_exactly_once(s1, rest);
        } else {
            assert(run_refs(s1, rest) == (s1, 0nat));
        }
    }
}

/// A symbol taken from an engine is an owner of its own: dropping the engine
/// while the symbol lives disposes nothing, and dropping the symbol afterwards
/// disposes the engine when no other owner is left.
pub proof fn lemma_symbol_keeps_engine(s: RefState)
    requires
        ref_state_wf(s),
        !s.disposed,
    ensures
        ({
            let with_symbol = ref_step(s, RefOp::Acquire).0;
            let (engine_dropped, d1) = ref_step(with_symbol, RefOp::Release);
            let (symbol_dropped, d2) = ref_step(engine_dropped, RefOp::Release);
            &&& !d1
            &&& !engine_dropped.disposed
            &&& d2 == (s.owners == 1)
            &&& symbol_dropped.disposed == (s.owners == 1)
        }),
{
}

} // verus!
