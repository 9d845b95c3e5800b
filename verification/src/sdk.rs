//! The SDK handle, its reference count, and the callback slots.
//!
//! The SDK itself runs outside this crate: the caller performs each SDK call and
//! hands its outcome to the functions here, which decide what follows.

use vstd::prelude::*;
use crate::error::{CallbackError, InitError, StartError, StopError};

verus! {

/// A live initialisation of the Livox-SDK2.
///
/// Handles are issued by `SdkRefCount`, which counts them: the SDK is initialised
/// by the first handle and uninitialised when the last one is released.
pub struct Sdk {
    _private: (),
}

/// The handle count after a handle is counted (wrapping, as `AtomicUsize::fetch_add`).
pub open spec fn count_after_acquire(n: usize) -> usize {
    if n < usize::MAX {
        (n + 1) as usize
    } else {
        0
    }
}

/// The number of live `Sdk` handles.
pub struct SdkRefCount {
    count: usize,
}

impl View for SdkRefCount {
    type V = usize;

    closed spec fn view(&self) -> usize {
        self.count
    }
}

/// What `SdkRefCount::begin_init` asks of the caller.
pub enum InitStep {
    /// The SDK was already initialised; here is the new handle.
    AlreadyInitialized(Sdk),
    /// This is the first handle: call `LivoxLidarSdkInit`, then `SdkRefCount::finish_init`.
    NeedsSdkInit,
}

impl SdkRefCount {
    /// No handles yet.
    pub fn new() -> (r: SdkRefCount)
        ensures
            r@ == 0,
    {
        SdkRefCount { count: 0 }
    }

    /// The number of live handles.
    pub fn count(&self) -> (r: usize)
        ensures
            r == self@,
    {
        self.count
    }

    /// First half of initialisation: counts the new handle, and asks for the SDK
    /// to be initialised when no handle existed before.
    pub fn begin_init(&mut self) -> (r: InitStep)
        ensures
            final(self)@ == count_after_acquire(old(self)@),
            r is NeedsSdkInit <==> old(self)@ == 0,
    {
        let prev = self.count;
        self.count = self.count.wrapping_add(1);
        if prev > 0 {
            InitStep::AlreadyInitialized(Sdk { _private: () })
        } else {
            InitStep::NeedsSdkInit
        }
    }

    /// Second half of initialisation, given whether `LivoxLidarSdkInit` succeeded:
    /// issues the handle, or gives back the count taken by `begin_init` and reports
    /// the failure.
    pub fn finish_init(&mut self, sdk_init_ok: bool) -> (r: Result<Sdk, InitError>)
        requires
            old(self)@ > 0,
        ensures
            sdk_init_ok ==> r is Ok && final(self)@ == old(self)@,
            !sdk_init_ok ==> r == Err::<Sdk, InitError>(InitError::InitFailed) && final(self)@
                == old(self)@ - 1,
    {
        if sdk_init_ok {
            Ok(Sdk { _private: () })
        } else {
            self.count = self.count - 1;
            Err(InitError::InitFailed)
        }
    }

    /// Gives a handle back, consuming it; returns whether it was the last one, in
    /// which case the caller uninitialises the SDK.
    pub fn release(&mut self, sdk: Sdk) -> (uninit: bool)
        requires
            old(self)@ > 0,
        ensures
            final(self)@ == old(self)@ - 1,
            uninit == (old(self)@ == 1),
    {
        let prev = self.count;
        self.count = self.count - 1;
        prev == 1
    }
}

/// One step of the handle protocol: an initialisation (with the outcome
/// `LivoxLidarSdkInit` has if it is called), or the release of a handle.
pub enum HandleStep {
    Init(bool),
    Release,
}

/// The count after `step` from count `n`, as `begin_init`, `finish_init` and
/// `release` leave it.
pub open spec fn count_after_step(n: usize, step: HandleStep) -> usize {
    match step {
        HandleStep::Init(ok) => if n == 0 && !ok {
            (count_after_acquire(n) - 1) as usize
        } else {
            count_after_acquire(n)
        },
        HandleStep::Release => (n - 1) as usize,
    }
}

/// The count after `steps`, starting from no handles.
pub open spec fn count_after_steps(steps: Seq<HandleStep>) -> usize
    decreases steps.len(),
{
    if steps.len() == 0 {
        0
    } else {
        count_after_step(count_after_steps(steps.drop_last()), steps.last())
    }
}

/// `step`, taken at count `n`, issues a handle: every initialisation does, except
/// a failed SDK initialisation made when no handle existed.
pub open spec fn step_issues_handle(n: usize, step: HandleStep) -> bool {
    match step {
        HandleStep::Init(ok) => n > 0 || ok,
        HandleStep::Release => false,
    }
}

/// Handles issued by `steps` and not yet released.
pub open spec fn live_handles(steps: Seq<HandleStep>) -> int
    decreases steps.len(),
{
    if steps.len() == 0 {
        0
    } else {
        let before = steps.drop_last();
        let n = count_after_steps(before);
        live_handles(before) + if step_issues_handle(n, steps.last()) {
            1int
        } else if steps.last() is Release {
            -1int
        } else {
            0int
        }
    }
}

/// `steps` can be carried out: each release gives back a live handle, and the
/// count never reaches `usize::MAX`.
pub open spec fn steps_allowed(steps: Seq<HandleStep>) -> bool
    decreases steps.len(),
{
    if steps.len() == 0 {
        true
    } else {
        let n = count_after_steps(steps.drop_last());
        &&& steps_allowed(steps.drop_last())
        &&& n < usize::MAX
        &&& (steps.last() is Release ==> n > 0)
    }
}

/// The count always equals the number of live handles. Hence the SDK is
/// initialised exactly by an initialisation taken with no live handle, and a
/// release reports the last handle (count 1) exactly when it leaves none.
pub proof fn lemma_count_is_live_handles(steps: Seq<HandleStep>)
    requires
        steps_allowed(steps),
    ensures
        count_after_steps(steps) as int == live_handles(steps),
    decreases steps.len(),
{
    if steps.len() > 0 {
        lemma_count_is_live_handles(steps.drop_last());
    }
}

/// Counting a handle and giving it back (its release, or a failed initialisation)
/// leaves the count where it was.
pub proof fn lemma_acquire_release_balanced(n: usize)
    requires
        n < usize::MAX,
    ensures
        count_after_acquire(n) - 1 == n,
{
}

impl Sdk {
    /// Start the SDK, given whether `LivoxLidarSdkStart` succeeded.
    pub fn start(&self, sdk_started: bool) -> (r: Result<(), StartError>)
        ensures
            r == (if sdk_started {
                Ok::<(), StartError>(())
            } else {
                Err(StartError::StartFailed)
            }),
    {
        if sdk_started {
            Ok(())
        } else {
            Err(StartError::StartFailed)
        }
    }

    /// Stop the SDK. Livox-SDK2 has no stop API (releasing the last handle
    /// uninitialises it), so this always succeeds.
    pub fn stop(&self) -> (r: Result<(), StopError>)
        ensures
            r is Ok,
    {
        Ok(())
    }
}

/// Holds at most one installed handler; only `install` puts one in.
pub struct CallbackSlot<H> {
    handler: Option<H>,
}

impl<H> View for CallbackSlot<H> {
    type V = Option<H>;

    closed spec fn view(&self) -> Option<H> {
        self.handler
    }
}

/// The slot and outcome of installing `h` into a slot holding `slot`: refused when
/// a handler is already there, which stays.
pub open spec fn install_into<H>(slot: Option<H>, h: H) -> (Option<H>, Result<(), CallbackError>) {
    if slot is Some {
        (slot, Err(CallbackError::AlreadyInstalled))
    } else {
        (Some(h), Ok(()))
    }
}

impl<H> CallbackSlot<H> {
    /// An empty slot.
    pub fn new() -> (r: CallbackSlot<H>)
        ensures
            r@ is None,
    {
        CallbackSlot { handler: None }
    }

    /// Whether a handler is installed.
    pub fn is_installed(&self) -> (r: bool)
        ensures
            r == self@ is Some,
    {
        self.handler.is_some()
    }

    /// Installs `h` unless a handler is already installed.
    pub fn install(&mut self, h: H) -> (r: Result<(), CallbackError>)
        ensures
            (final(self)@, r) == install_into(old(self)@, h),
    {
        if self.handler.is_some() {
            return Err(CallbackError::AlreadyInstalled);
        }
        self.handler = Some(h);
        Ok(())
    }

    /// The installed handler, if any.
    pub fn handler(&self) -> (r: Option<&H>)
        ensures
            r is Some <==> self@ is Some,
            r is Some ==> *r->0 == self@->0,
    {
        self.handler.as_ref()
    }

    /// The installed handler, if any, for calling it in place.
    pub fn handler_mut(&mut self) -> (r: Option<&mut H>)
        ensures
            match old(self)@ {
                None => r is None && final(self)@ is None,
                Some(h) => r is Some && *r->0 == h && final(self)@ == Some(*final(r->0)),
            },
    {
        self.handler.as_mut()
    }

    /// Removes the installed handler, if any.
    pub fn clear(&mut self)
        ensures
            final(self)@ is None,
    {
        self.handler = None;
    }
}

/// A slot takes one handler: a second install is refused whatever the slot held,
/// and an emptied slot takes a handler again.
pub proof fn lemma_slot_holds_one_handler<H>(slot: Option<H>, a: H, b: H)
    ensures
        install_into(install_into(slot, a).0, b).1 == Err::<(), CallbackError>(
            CallbackError::AlreadyInstalled,
        ),
        install_into(install_into(slot, a).0, b).0 == install_into(slot, a).0,
        install_into(None, b) == (Some(b), Ok::<(), CallbackError>(())),
{
}

/// A guard returned by `Sdk::install_pointcloud_callback`; `release` empties the slot.
pub struct PointCloudCallbackGuard {
    _private: (),
}

/// A guard returned by `Sdk::install_imu_callback`; `release` empties the slot.
pub struct ImuCallbackGuard {
    _private: (),
}

/// A guard returned by `Sdk::install_info_callback`; `release` empties the slot.
pub struct InfoCallbackGuard {
    _private: (),
}

/// A guard returned by `Sdk::install_info_change_callback`; `release` empties the slot.
pub struct InfoChangeCallbackGuard {
    _private: (),
}

/// A guard returned by `Sdk::install_cmd_observer`; `release` empties the slot.
pub struct CmdObserverGuard {
    _private: (),
}

impl PointCloudCallbackGuard {
    /// Uninstalls the handler (after the SDK callback has been cleared).
    pub fn release<H>(&self, slot: &mut CallbackSlot<H>)
        ensures
            final(slot)@ is None,
    {
        slot.clear();
    }
}

impl ImuCallbackGuard {
    /// Uninstalls the handler (after the SDK callback has been cleared).
    pub fn release<H>(&self, slot: &mut CallbackSlot<H>)
        ensures
            final(slot)@ is None,
    {
        slot.clear();
    }
}

impl InfoCallbackGuard {
    /// Uninstalls the handler (after the SDK callback has been cleared).
    pub fn release<H>(&self, slot: &mut CallbackSlot<H>)
        ensures
            final(slot)@ is None,
    {
        slot.clear();
    }
}

impl InfoChangeCallbackGuard {
    /// Uninstalls the handler (after the SDK callback has been cleared).
    pub fn release<H>(&self, slot: &mut CallbackSlot<H>)
        ensures
            final(slot)@ is None,
    {
        slot.clear();
    }
}

impl CmdObserverGuard {
    /// Uninstalls the handler (after the SDK observer has been removed).
    pub fn release<H>(&self, slot: &mut CallbackSlot<H>)
        ensures
            final(slot)@ is None,
    {
        slot.clear();
    }
}

impl Sdk {
    /// Install a handler for decoded point cloud packets into `slot`; refused when
    /// one is installed. On success the caller registers the SDK callback.
    pub fn install_pointcloud_callback<H>(&self, slot: &mut CallbackSlot<H>, cb: H) -> (r: Result<
        PointCloudCallbackGuard,
        CallbackError,
    >)
        ensures
            final(slot)@ == install_into(old(slot)@, cb).0,
            r is Ok <==> install_into(old(slot)@, cb).1 is Ok,
            r is Err ==> r == Err::<PointCloudCallbackGuard, CallbackError>(
                CallbackError::AlreadyInstalled,
            ),
    {
        match slot.install(cb) {
            Ok(()) => Ok(PointCloudCallbackGuard { _private: () }),
            Err(e) => Err(e),
        }
    }

    /// Install a handler for decoded IMU packets into `slot`; refused when one is
    /// installed. On success the caller registers the SDK callback.
    pub fn install_imu_callback<H>(&self, slot: &mut CallbackSlot<H>, cb: H) -> (r: Result<
        ImuCallbackGuard,
        CallbackError,
    >)
        ensures
            final(slot)@ == install_into(old(slot)@, cb).0,
            r is Ok <==> install_into(old(slot)@, cb).1 is Ok,
            r is Err ==> r == Err::<ImuCallbackGuard, CallbackError>(
                CallbackError::AlreadyInstalled,
            ),
    {
        match slot.install(cb) {
            Ok(()) => Ok(ImuCallbackGuard { _private: () }),
            Err(e) => Err(e),
        }
    }

    /// Install a handler for SDK info messages into `slot`; refused when one is
    /// installed. On success the caller registers the SDK callback.
    pub fn install_info_callback<H>(&self, slot: &mut CallbackSlot<H>, cb: H) -> (r: Result<
        InfoCallbackGuard,
        CallbackError,
    >)
        ensures
            final(slot)@ == install_into(old(slot)@, cb).0,
            r is Ok <==> install_into(old(slot)@, cb).1 is Ok,
            r is Err ==> r == Err::<InfoCallbackGuard, CallbackError>(
                CallbackError::AlreadyInstalled,
            ),
    {
        match slot.install(cb) {
            Ok(()) => Ok(InfoCallbackGuard { _private: () }),
            Err(e) => Err(e),
        }
    }

    /// Install a handler for device info changes into `slot`; refused when one is
    /// installed. On success the caller registers the SDK callback.
    pub fn install_info_change_callback<H>(&self, slot: &mut CallbackSlot<H>, cb: H) -> (r: Result<
        InfoChangeCallbackGuard,
        CallbackError,
    >)
        ensures
            final(slot)@ == install_into(old(slot)@, cb).0,
            r is Ok <==> install_into(old(slot)@, cb).1 is Ok,
            r is Err ==> r == Err::<InfoChangeCallbackGuard, CallbackError>(
                CallbackError::AlreadyInstalled,
            ),
    {
        match slot.install(cb) {
            Ok(()) => Ok(InfoChangeCallbackGuard { _private: () }),
            Err(e) => Err(e),
        }
    }

    /// Install an observer of command packets into `slot`; refused when one is
    /// installed. On success the caller registers the SDK observer.
    pub fn install_cmd_observer<H>(&self, slot: &mut CallbackSlot<H>, cb: H) -> (r: Result<
        CmdObserverGuard,
        CallbackError,
    >)
        ensures
            final(slot)@ == install_into(old(slot)@, cb).0,
            r is Ok <==> install_into(old(slot)@, cb).1 is Ok,
            r is Err ==> r == Err::<CmdObserverGuard, CallbackError>(
                CallbackError::AlreadyInstalled,
            ),
    {
        match slot.install(cb) {
            Ok(()) => Ok(CmdObserverGuard { _private: () }),
            Err(e) => Err(e),
        }
    }
}

} // verus!
