//! Ownership of native allocations: every one has a single owner, which
//! hands out the native release call for it at most once.

use vstd::prelude::*;

verus! {

/// The kinds of native allocation this layer owns. Each has its own native
/// release call.
#[derive(Clone, Copy, Debug, PartialEq, Eq, Structural)]
pub enum Resource {
    /// A client connection.
    Client,
    /// The response of the native client constructor.
    ConnectionResponse,
    /// The result of a native command.
    CommandResult,
}

/// A native release call that is owed: which call, and on which address.
#[derive(Clone, Copy, Debug, PartialEq, Eq, Structural)]
pub struct Release {
    pub resource: Resource,
    pub address: usize,
}

/// The single owner of one native allocation. The address is opaque: it is
/// kept and handed back, never read through. Address zero is the null
/// sentinel: an owner that holds it owns nothing.
#[derive(Debug)]
pub struct Owner {
    resource: Resource,
    address: usize,
}

impl Owner {
    /// The kind of allocation owned.
    pub closed spec fn spec_resource(&self) -> Resource {
        self.resource
    }

    /// The address held; zero once released.
    pub closed spec fn spec_address(&self) -> usize {
        self.address
    }

    /// Whether the allocation is still owned.
    pub open spec fn spec_is_live(&self) -> bool {
        self.spec_address() != 0
    }

    /// The release call that the next `release` hands out, if any.
    pub open spec fn owed(&self) -> Option<Release> {
        if self.spec_is_live() {
            Some(Release { resource: self.spec_resource(), address: self.spec_address() })
        } else {
            None
        }
    }

    /// The owner as `release` leaves it.
    pub closed spec fn after_release(self) -> Owner {
        Owner { resource: self.resource, address: 0 }
    }

    /// Takes ownership of the allocation at `address`.
    pub fn adopt(resource: Resource, address: usize) -> (owner: Owner)
        ensures
            owner.spec_resource() == resource,
            owner.spec_address() == address,
    {
        Owner { resource, address }
    }

    /// The kind of allocation owned.
    #[verifier::when_used_as_spec(spec_resource)]
    pub fn resource(&self) -> (r: Resource)
        ensures
            r == self.spec_resource(),
    {
        self.resource
    }

    /// The address held; zero once released.
    #[verifier::when_used_as_spec(spec_address)]
    pub fn address(&self) -> (a: usize)
        ensures
            a == self.spec_address(),
    {
        self.address
    }

    /// Whether the allocation is still owned.
    #[verifier::when_used_as_spec(spec_is_live)]
    pub fn is_live(&self) -> (live: bool)
        ensures
            live == self.spec_is_live(),
    {
        self.address != 0
    }

    /// Gives up the allocation. The first call on a live owner hands out the
    /// release call that is owed; every later call hands out nothing.
    pub fn release(&mut self) -> (owed: Option<Release>)
        ensures
            owed == old(self).owed(),
            *final(self) == old(self).after_release(),
            !final(self).spec_is_live(),
            final(self).spec_resource() == old(self).spec_resource(),
        no_unwind
    {
        if self.address != 0 {
            let owed = Release { resource: self.resource, address: self.address };
            self.address = 0;
            Some(owed)
        } else {
            None
        }
    }
}

/// How many release calls `n` successive `release` operations hand out.
pub open spec fn releases_handed_out(owner: Owner, n: nat) -> nat
    decreases n,
{
    if n == 0 {
        0
    } else {
        (if owner.owed() is Some { 1nat } else { 0nat }) + releases_handed_out(
            owner.after_release(),
            (n - 1) as nat,
        )
    }
}

/// Releasing leaves an owner that owns nothing, of the same kind, and on
/// which a further release changes nothing.
pub proof fn law_release_is_idempotent(owner: Owner)
    ensures
        !owner.after_release().spec_is_live(),
        owner.after_release().owed() is None,
        owner.after_release().spec_resource() == owner.spec_resource(),
        owner.after_release().after_release() == owner.after_release(),
{
}

/// However often an owner is released, its allocation's release call is
/// handed out once if the owner was live and released at all, and never
/// otherwise: no allocation is released twice.
pub proof fn law_released_at_most_once(owner: Owner, n: nat)
    ensures
        releases_handed_out(owner, n) == if owner.spec_is_live() && n > 0 { 1nat } else { 0nat },
    decreases n,
{
    if n > 0 {
        law_release_is_idempotent(owner);
        law_released_at_most_once(owner.after_release(), (n - 1) as nat);
    }
}

/// A handle on a native client. It can be used from successful creation
/// until it is closed.
#[derive(Debug)]
pub struct ClientHandle {
    owner: Owner,
}

impl ClientHandle {
    #[verifier::type_invariant]
    spec fn owns_a_client(&self) -> bool {
        self.owner.spec_resource() == Resource::Client
    }

    /// The address of the native client; zero once closed.
    pub closed spec fn spec_address(&self) -> usize {
        self.owner.spec_address()
    }

    /// Whether the handle can still be used.
    pub open spec fn spec_is_open(&self) -> bool {
        self.spec_address() != 0
    }

    /// The handle as `close` leaves it.
    pub closed spec fn after_close(self) -> ClientHandle {
        ClientHandle { owner: self.owner.after_release() }
    }

    /// The release call that the next `close` hands out, if any.
    pub open spec fn owed(&self) -> Option<Release> {
        if self.spec_is_open() {
            Some(Release { resource: Resource::Client, address: self.spec_address() })
        } else {
            None
        }
    }

    /// A handle on the native client at `address`.
    pub fn new(address: usize) -> (handle: ClientHandle)
        ensures
            handle.spec_address() == address,
    {
        ClientHandle { owner: Owner::adopt(Resource::Client, address) }
    }

    /// The address of the native client; zero once closed.
    #[verifier::when_used_as_spec(spec_address)]
    pub fn address(&self) -> (a: usize)
        ensures
            a == self.spec_address(),
    {
        self.owner.address()
    }

    /// Whether the handle can still be used.
    #[verifier::when_used_as_spec(spec_is_open)]
    pub fn is_open(&self) -> (open: bool)
        ensures
            open == self.spec_is_open(),
    {
        self.owner.is_live()
    }

    /// Closes the handle. The first call on an open handle hands out the
    /// native close call that is owed; a later call does nothing.
    pub fn close(&mut self) -> (owed: Option<Release>)
        ensures
            owed == old(self).owed(),
            *final(self) == old(self).after_close(),
            !final(self).spec_is_open(),
    {
        proof {
            use_type_invariant(&*self);
        }
        self.owner.release()
    }
}

/// Closing leaves a handle that is not open, and closing it again changes
/// nothing and hands out no native call.
pub proof fn law_close_is_idempotent(handle: ClientHandle)
    ensures
        !handle.after_close().spec_is_open(),
        handle.after_close().owed() is None,
        handle.after_close().after_close() == handle.after_close(),
{
}

} // verus!
