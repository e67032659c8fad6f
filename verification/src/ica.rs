use vstd::prelude::*;
use crate::errors::PuppeteerError;

verus! {

/// Lifecycle of the remote interchain account handle.
#[derive(Clone, Copy, Debug, PartialEq, Eq, Structural)]
pub enum IcaLifecycle {
    /// No registration has ever been attempted.
    Uninitialized,
    /// A channel-open request is outstanding.
    InProgress,
    /// The remote account exists and its handle is known.
    Registered,
    /// The channel timed out; the handle is stale and must be re-established.
    Timeout,
}

/// The state of the remote account: its handle once known, the height of the
/// last confirmed observation, and the lifecycle stage.
#[derive(Clone, Debug, PartialEq)]
pub struct RemoteAccountState {
    pub handle: Option<String>,
    pub last_observed_height: Option<u64>,
    pub lifecycle: IcaLifecycle,
}

/// Mathematical model of a [`RemoteAccountState`].
pub struct RemoteAccountModel {
    pub handle: Option<Seq<char>>,
    pub last_observed_height: Option<u64>,
    pub lifecycle: IcaLifecycle,
}

impl View for RemoteAccountState {
    type V = RemoteAccountModel;

    open spec fn view(&self) -> RemoteAccountModel {
        RemoteAccountModel {
            handle: self.handle.deep_view(),
            last_observed_height: self.last_observed_height,
            lifecycle: self.lifecycle,
        }
    }
}

impl RemoteAccountState {
    /// The handle is present exactly when the account is registered.
    pub open spec fn wf(self) -> bool {
        self.lifecycle is Registered <==> self.handle is Some
    }

    /// A fresh state: nothing registered, nothing observed.
    pub fn new() -> (r: Self)
        ensures
            r.wf(),
            r.lifecycle is Uninitialized,
            r@.handle is None,
            r.last_observed_height is None,
    {
        RemoteAccountState {
            handle: None,
            last_observed_height: None,
            lifecycle: IcaLifecycle::Uninitialized,
        }
    }

    /// Starts registration of the remote account.
    ///
    /// Allowed only when no account exists (`Uninitialized`) or the previous
    /// one was lost (`Timeout`); any other state is rejected without change.
    pub fn begin_registration(&mut self) -> (r: Result<(), PuppeteerError>)
        requires
            old(self).wf(),
        ensures
            final(self).wf(),
            r is Ok <==> (old(self).lifecycle is Uninitialized || old(self).lifecycle is Timeout),
            r is Ok ==> *final(self) == (RemoteAccountState {
                lifecycle: IcaLifecycle::InProgress,
                ..*old(self)
            }),
            r is Err ==> *final(self) == *old(self) && r == Err::<(), PuppeteerError>(
                PuppeteerError::RegistrationNotAllowed,
            ),
    {
        match self.lifecycle {
            IcaLifecycle::Uninitialized | IcaLifecycle::Timeout => {
                self.lifecycle = IcaLifecycle::InProgress;
                Ok(())
            },
            _ => Err(PuppeteerError::RegistrationNotAllowed),
        }
    }

    /// Confirms registration with the remote account's handle and the height
    /// at which it was observed.
    ///
    /// Allowed only while a registration is in progress.
    pub fn confirm_registration(&mut self, handle: String, height: u64) -> (r: Result<
        (),
        PuppeteerError,
    >)
        requires
            old(self).wf(),
        ensures
            final(self).wf(),
            r is Ok <==> old(self).lifecycle is InProgress,
            r is Ok ==> final(self)@ == (RemoteAccountModel {
                handle: Some(handle@),
                last_observed_height: Some(height),
                lifecycle: IcaLifecycle::Registered,
            }),
            r is Err ==> *final(self) == *old(self) && r == Err::<(), PuppeteerError>(
                PuppeteerError::RegistrationNotInProgress,
            ),
    {
        match self.lifecycle {
            IcaLifecycle::InProgress => {
                self.handle = Some(handle);
                self.last_observed_height = Some(height);
                self.lifecycle = IcaLifecycle::Registered;
                Ok(())
            },
            _ => Err(PuppeteerError::RegistrationNotInProgress),
        }
    }

    /// Records that the remote channel timed out: the handle is cleared and
    /// must be re-established before further use. Allowed from any state.
    pub fn mark_timeout(&mut self)
        ensures
            final(self).wf(),
            final(self).lifecycle is Timeout,
            final(self)@.handle is None,
            final(self).last_observed_height is None,
    {
        self.handle = None;
        self.last_observed_height = None;
        self.lifecycle = IcaLifecycle::Timeout;
    }

    /// Returns the registered handle, or rejects the request when the account
    /// is not ready.
    pub fn registered_handle(&self) -> (r: Result<&String, PuppeteerError>)
        requires
            self.wf(),
        ensures
            r is Ok <==> self.lifecycle is Registered,
            r is Ok ==> Some(r->Ok_0@) == self@.handle,
            r is Err ==> r == Err::<&String, PuppeteerError>(PuppeteerError::AccountNotReady),
    {
        match &self.handle {
            Some(h) => {
                if let IcaLifecycle::Registered = self.lifecycle {
                    Ok(h)
                } else {
                    Err(PuppeteerError::AccountNotReady)
                }
            },
            _ => Err(PuppeteerError::AccountNotReady),
        }
    }
}

} // verus!
