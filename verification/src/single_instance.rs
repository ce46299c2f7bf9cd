//! Only one daemon runs at a time.
use crate::errors::{is_message, message_error, RsnipError};
use vstd::prelude::*;

verus! {

/// The mark that a daemon holds while it runs, by the handle of the system.
#[derive(Debug, Clone, Copy, PartialEq, Eq, Structural)]
pub struct SingleInstance {
    pub handle: isize,
}

/// Whether this daemon is the only one.
#[derive(Debug, Clone, Copy, PartialEq, Eq, Structural)]
pub enum SingleInstanceStatus {
    Acquired,
    AlreadyRunning,
}

impl SingleInstance {
    /// Whether the handle is one that the system gives out.
    pub open spec fn wf(self) -> bool {
        self.handle != 0 && self.handle != -1
    }

    /// The mark of a daemon and whether it is the only one, given the handle that the system made
    /// or why it made none, and whether the mark was there already.
    pub fn acquire_daemon(created: Result<isize, String>, already_exists: bool) -> (r: Result<
        (Self, SingleInstanceStatus),
        RsnipError,
    >)
        ensures
            match (created, r) {
                (Err(cause), Err(error)) => is_message(
                    error,
                    "failed to create daemon mutex: "@ + cause@,
                ),
                (Ok(handle), Err(error)) => !(SingleInstance { handle }).wf() && is_message(
                    error,
                    "CreateMutexW returned an invalid handle"@,
                ),
                (Ok(handle), Ok((instance, status))) => {
                    &&& instance == (SingleInstance { handle })
                    &&& instance.wf()
                    &&& status == if already_exists {
                        SingleInstanceStatus::AlreadyRunning
                    } else {
                        SingleInstanceStatus::Acquired
                    }
                },
                (Err(_), Ok(_)) => false,
            },
    {
        let handle = match created {
            Ok(handle) => handle,
            Err(cause) => {
                let mut message = "failed to create daemon mutex: ".to_owned();
                message.append(cause.as_str());
                return Err(RsnipError::Message(message));
            },
        };
        if handle == 0 || handle == -1 {
            return Err(message_error("CreateMutexW returned an invalid handle"));
        }
        let status = if already_exists {
            SingleInstanceStatus::AlreadyRunning
        } else {
            SingleInstanceStatus::Acquired
        };
        Ok((SingleInstance { handle }, status))
    }
}

} // verus!
