//! Where a resolution runs: on the scheduler that already drives the calling thread, or
//! on one made for the one call.

use crate::error::ResolveError;
use vstd::prelude::*;

verus! {

/// A handle to a running tokio runtime.
#[verifier::external_type_specification]
#[verifier::external_body]
pub struct ExHandle(tokio::runtime::Handle);

/// A tokio runtime.
#[verifier::external_type_specification]
#[verifier::external_body]
pub struct ExRuntime(tokio::runtime::Runtime);

/// The scheduler that one blocking resolution runs on.
pub enum Scheduler {
    /// The scheduler that was already driving the calling thread.
    Ambient(tokio::runtime::Handle),
    /// A single-threaded scheduler made for this call alone. It is torn down when this
    /// value is dropped.
    Ephemeral(tokio::runtime::Runtime),
}

/// What the bridge does once it knows whether a scheduler drives the calling thread.
pub enum Attachment {
    /// Run on the scheduler that is there.
    Attach(tokio::runtime::Handle),
    /// None is there: make one for this call.
    Create,
}

/// Calls tokio's `Handle::try_current`: the handle of the runtime that the calling
/// thread has entered, if it has entered one. Nothing is claimed of which it is.
#[verifier::external_body]
fn ambient_handle() -> (ambient: Option<tokio::runtime::Handle>) {
    tokio::runtime::Handle::try_current().ok()
}

/// Calls tokio's `Builder::new_current_thread`, `enable_all` and `build`: a new
/// single-threaded runtime with every driver that was compiled in, or the error that
/// kept the operating system from providing for one. Nothing is claimed of which it is.
#[verifier::external_body]
fn build_ephemeral() -> (built: Result<tokio::runtime::Runtime, std::io::Error>) {
    tokio::runtime::Builder::new_current_thread().enable_all().build()
}

impl Scheduler {
    /// Decides from the probe for an ambient scheduler: one that is there is used, and
    /// only where there is none is another made. So no scheduler is ever made inside
    /// another on the same thread.
    pub fn attachment(ambient: Option<tokio::runtime::Handle>) -> (choice: Attachment)
        ensures
            choice == match ambient {
                Some(handle) => Attachment::Attach(handle),
                None => Attachment::Create,
            },
    {
        match ambient {
            Some(handle) => Attachment::Attach(handle),
            None => Attachment::Create,
        }
    }

    /// What comes of the attempt to make a scheduler for one call: the scheduler, or
    /// the failure to make it, which is reported and not passed over.
    pub fn ephemeral(
        built: Result<tokio::runtime::Runtime, std::io::Error>,
    ) -> (made: Result<Scheduler, ResolveError>)
        ensures
            made == match built {
                Ok(runtime) => Ok::<Scheduler, ResolveError>(Scheduler::Ephemeral(runtime)),
                Err(cause) => Err(ResolveError::SchedulerCreation(cause)),
            },
    {
        match built {
            Ok(runtime) => Ok(Scheduler::Ephemeral(runtime)),
            Err(cause) => Err(ResolveError::SchedulerCreation(cause)),
        }
    }

    /// Finds the scheduler to run one resolution on: the one that drives the calling
    /// thread if there is one, else one made for this call.
    pub fn acquire() -> (found: Result<Scheduler, ResolveError>)
        ensures
            found matches Err(error) ==> error is SchedulerCreation,
    {
        match Scheduler::attachment(ambient_handle()) {
            Attachment::Attach(handle) => Ok(Scheduler::Ambient(handle)),
            Attachment::Create => Scheduler::ephemeral(build_ephemeral()),
        }
    }
}

} // verus!
