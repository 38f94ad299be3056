//! The lock that keeps a renderer to one user at a time.
//!
//! A renderer that is painting may be asked to handle a window message in the
//! middle of it, so whoever wants to use one takes its lock first.

use vstd::prelude::*;

verus! {

/// The raw lock of `parking_lot`.
#[verifier::external_type_specification]
#[verifier::external_body]
pub struct ExRawMutex(parking_lot::RawMutex);

/// The mutex of `lock_api`, which `parking_lot::Mutex` is an alias of.
#[verifier::external_type_specification]
#[verifier::external_body]
#[verifier::reject_recursive_types(R)]
#[verifier::reject_recursive_types(T)]
pub struct ExMutex<R, T: ?Sized>(parking_lot::lock_api::Mutex<R, T>);

/// The lock of a renderer.
pub struct RendererLock {
    mutex: parking_lot::Mutex<()>,
}

/// The right to use a renderer, which ends when it is dropped.  It holds a
/// `parking_lot::MutexGuard` and nothing else.
#[verifier::external_body]
pub struct RendererGuard<'a> {
    inner: parking_lot::MutexGuard<'a, ()>,
}

/// The mutex that a guard locks, which is what `parking_lot::MutexGuard::mutex`
/// gives: a guard refers to it for as long as it lives.
pub uninterp spec fn locked_mutex(guard: RendererGuard<'_>) -> parking_lot::Mutex<()>;

/// Calls `parking_lot::Mutex::new`, which makes an unlocked mutex.  That it is
/// unlocked is not stated: a mutex is locked and unlocked through shared
/// references, so whether it is locked is no property of its value.
#[verifier::external_body]
fn new_mutex() -> (mutex: parking_lot::Mutex<()>) {
    parking_lot::Mutex::new(())
}

/// Calls `parking_lot::Mutex::try_lock`, which gives a guard if the mutex is
/// unlocked, and never waits.  A guard that it gives locks this mutex.  Whether
/// the mutex is unlocked rests on what others do meanwhile, so nothing is claimed
/// of it.
#[verifier::external_body]
fn try_lock<'a>(mutex: &'a parking_lot::Mutex<()>) -> (guard: Option<RendererGuard<'a>>)
    ensures
        guard matches Some(g) ==> locked_mutex(g) == *mutex,
{
    mutex.try_lock().map(|inner| RendererGuard { inner })
}

/// Calls `parking_lot::Mutex::lock`, which waits until the mutex is unlocked
/// and gives a guard, which locks this mutex; the mutex stays the one it was.  It
/// is called through an exclusive reference, under which no guard of the mutex is
/// alive in the calling thread; a guard that was leaked it would wait for without
/// end, of which nothing is stated.
#[verifier::external_body]
fn lock<'a>(mutex: &'a mut parking_lot::Mutex<()>) -> (guard: RendererGuard<'a>)
    ensures
        locked_mutex(guard) == *old(mutex),
        *final(mutex) == *old(mutex),
{
    RendererGuard { inner: mutex.lock() }
}

impl<'a> RendererGuard<'a> {
    /// The mutex that the guard locks is that of `lock`.
    pub closed spec fn locks(self, lock: RendererLock) -> bool {
        locked_mutex(self) == lock.mutex
    }
}

/// What came of asking for a renderer without waiting for it.
pub enum Access<'a> {
    /// There is no renderer.
    Absent,
    /// There is one, and someone is using it.
    Busy,
    /// There is one, and it may be used until the guard is dropped.
    Held(RendererGuard<'a>),
}

impl<'a> Access<'a> {
    /// The access that an attempt to lock an existing renderer gives.
    pub fn from_attempt(attempt: Option<RendererGuard<'a>>) -> (access: Access<'a>)
        ensures
            access == (match attempt {
                Some(guard) => Access::Held(guard),
                None => Access::Busy,
            }),
    {
        match attempt {
            Some(guard) => Access::Held(guard),
            None => Access::Busy,
        }
    }
}

impl RendererLock {
    /// `attempt` is what came of trying to lock the mutex.
    pub closed spec fn tried(self, attempt: Option<RendererGuard<'_>>) -> bool {
        call_ensures(try_lock, (&self.mutex,), attempt)
    }

    /// A lock that nobody holds.
    pub fn new() -> (lock: RendererLock) {
        RendererLock { mutex: new_mutex() }
    }

    /// Waits until nobody holds the lock, and takes it.  The guard is one of this
    /// lock, which stays the one it was.
    pub fn access(&mut self) -> (guard: RendererGuard<'_>)
        ensures
            guard.locks(*old(self)),
            *final(self) == *old(self),
    {
        lock(&mut self.mutex)
    }

    /// Takes the lock of a renderer that is `present` if nobody holds it, and
    /// does not wait.  A guard that it gives is one of this lock.
    pub fn try_access(&self, present: bool) -> (access: Access<'_>)
        ensures
            access is Absent <==> !present,
            access matches Access::Held(guard) ==> guard.locks(*self) && self.tried(Some(guard)),
            access is Busy ==> self.tried(None),
    {
        if present {
            Access::from_attempt(try_lock(&self.mutex))
        } else {
            Access::Absent
        }
    }
}

/// A request for the lock of a renderer.  It is used up by the attempt to take
/// the lock, so that there is one attempt and no other.
pub trait LockRequest<'a>: Sized {
    /// The lock that is asked for.
    spec fn lock(self) -> RendererLock;

    /// Takes the lock of a renderer that is `present` if nobody holds it, and
    /// does not wait.
    fn try_access(self, present: bool) -> (access: Access<'a>)
        ensures
            access is Absent <==> !present,
            access matches Access::Held(guard) ==> guard.locks(self.lock()) && self.lock().tried(
                Some(guard),
            ),
            access is Busy ==> self.lock().tried(None),
    ;
}

/// A reference through which a lock can be shared.
pub trait SharedLock<'a>: Sized {
    /// The lock that is shared.
    spec fn target(self) -> RendererLock;

    /// A shared reference to the lock.
    fn shared(self) -> (lock: &'a RendererLock)
        ensures
            *lock == self.target(),
    ;
}

impl<'a> SharedLock<'a> for &'a RendererLock {
    open spec fn target(self) -> RendererLock {
        *self
    }

    fn shared(self) -> (lock: &'a RendererLock) {
        self
    }
}

impl<'a> SharedLock<'a> for &'a mut RendererLock {
    open spec fn target(self) -> RendererLock {
        *self
    }

    fn shared(self) -> (lock: &'a RendererLock)
        ensures
            *final(self) == *old(self),
    {
        self
    }
}

impl<'a, P: SharedLock<'a>> LockRequest<'a> for P {
    open spec fn lock(self) -> RendererLock {
        self.target()
    }

    fn try_access(self, present: bool) -> (access: Access<'a>)
        ensures
            call_ensures(RendererLock::try_access, (&self.target(), present), access),
    {
        RendererLock::try_access(self.shared(), present)
    }
}

/// A guard locks one lock and no other.
pub proof fn law_guard_has_one_lock(guard: RendererGuard<'_>, lock: RendererLock, other: RendererLock)
    requires
        guard.locks(lock),
        guard.locks(other),
    ensures
        lock == other,
{
}

/// What an attempt gives, if it gives a guard, is a guard of the lock that was
/// tried.
pub proof fn law_attempt_gives_a_guard_of_the_lock(lock: RendererLock, guard: RendererGuard<'_>)
    requires
        lock.tried(Some(guard)),
    ensures
        guard.locks(lock),
{
}

} // verus!
