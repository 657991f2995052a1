//! The update session: one write transaction on one partition.
//!
//! A session is open from the moment the storage subsystem has handed out a
//! write handle until it is completed or aborted.  A closed session stays
//! closed, and refuses every operation.

use vstd::prelude::*;
use core::marker::PhantomData;
use crate::error::{OtaError, ESP_OK};
use crate::partition::{NativeCall, Partition};

verus! {

/// Where a session stands.
#[derive(Clone, Copy, Debug, PartialEq, Eq)]
pub enum Session {
    /// Bytes can be written to `partition` through `handle`.
    Open { partition: Partition, handle: u32 },
    /// The session was closed by completing it.
    Completed,
    /// The session was closed by aborting it.
    Aborted,
}

/// A completion under way: the session is closed, and the write handle has
/// still to be finished and the boot partition to be switched.
#[derive(Clone, Copy, Debug, PartialEq, Eq)]
pub struct Completion {
    /// The partition that was written to.
    pub partition: Partition,
    /// The write handle that is to be finished.
    pub handle: u32,
}

impl Session {
    /// Whether bytes can be written.
    pub open spec fn is_open(self) -> bool {
        self is Open
    }

    /// The answer to a check before writing: an open session passes, a
    /// closed one does not.
    pub open spec fn check_write(self) -> Result<(), OtaError> {
        if self is Open {
            Ok(())
        } else {
            Err(OtaError::NotOpen)
        }
    }

    /// The answer to a request to write the bytes of `buf`: an open session
    /// asks for them to be appended through its handle.
    pub open spec fn write<'a>(self, buf: &'a [u8]) -> Result<NativeCall<'a>, OtaError> {
        match self {
            Session::Open { partition, handle } => Ok(NativeCall::Write { handle, data: buf }),
            _ => Err(OtaError::NotOpen),
        }
    }

    /// The state after a request to complete, and the answer to it: an open
    /// session closes and hands out handle and partition to finish with.
    pub open spec fn complete(self) -> (Session, Result<Completion, OtaError>) {
        match self {
            Session::Open { partition, handle } => (
                Session::Completed,
                Ok(Completion { partition, handle }),
            ),
            _ => (self, Err(OtaError::NotOpen)),
        }
    }

    /// The state after a request to abort, and the answer to it: an open
    /// session closes and asks for its handle to be given up.
    pub open spec fn abort(self) -> (Session, Result<NativeCall<'static>, OtaError>) {
        match self {
            Session::Open { partition, handle } => (
                Session::Aborted,
                Ok(NativeCall::Abort { handle }),
            ),
            _ => (self, Err(OtaError::NotOpen)),
        }
    }
}

/// What a write of `len` bytes comes to, once the storage subsystem has
/// answered with `status`: all of them were taken, or the write failed.
pub open spec fn written(len: usize, status: i32) -> Result<usize, OtaError> {
    if status == ESP_OK {
        Ok(len)
    } else {
        Err(OtaError::NativeFailure(status))
    }
}

impl Completion {
    /// The first call of a completion: finish the write handle.
    pub open spec fn first_call(self) -> NativeCall<'static> {
        NativeCall::End { handle: self.handle }
    }

    /// What follows the attempt to finish the write handle: where it
    /// succeeded, the partition that was written becomes the boot partition,
    /// and where it failed, nothing more is asked for.
    pub open spec fn spec_ended(self, status: i32) -> Result<NativeCall<'static>, OtaError> {
        if status == ESP_OK {
            Ok(NativeCall::SetBootPartition { partition: self.partition })
        } else {
            Err(OtaError::NativeFailure(status))
        }
    }

    /// The first call of a completion: finish the write handle.
    pub fn call(&self) -> (call: NativeCall<'static>)
        ensures
            call == self.first_call(),
    {
        NativeCall::End { handle: self.handle }
    }

    /// Takes the status code with which the write handle was finished.
    ///
    /// After success the answer is the second call of the completion, which
    /// makes the written partition the boot partition; its status code is
    /// the outcome of the completion.  After a failure the boot partition is
    /// left alone and the status code is handed back as the error.
    pub fn ended(self, status: i32) -> (r: Result<NativeCall<'static>, OtaError>)
        ensures
            r == self.spec_ended(status),
    {
        if status == ESP_OK {
            Ok(NativeCall::SetBootPartition { partition: self.partition })
        } else {
            Err(OtaError::NativeFailure(status))
        }
    }
}

/// An open session takes every write: it asks for the whole buffer to be
/// appended through its handle, and where the storage subsystem reports
/// success the write comes to the buffer's length.
pub proof fn lemma_open_session_writes(session: Session, buf: &[u8])
    requires
        session.is_open(),
    ensures
        session.check_write() is Ok,
        session.write(buf) == Ok::<NativeCall, OtaError>(
            NativeCall::Write { handle: session->handle, data: buf },
        ),
        written(buf@.len() as usize, ESP_OK) == Ok::<usize, OtaError>(buf@.len() as usize),
{
}

/// Completing and aborting close a session, whatever state it was in, and a
/// closed session refuses every operation with `NotOpen` and stays as it is.
pub proof fn lemma_closed_session_refuses(session: Session, buf: &[u8])
    ensures
        !session.complete().0.is_open(),
        !session.abort().0.is_open(),
        !session.is_open() ==> {
            &&& session.check_write() == Err::<(), OtaError>(OtaError::NotOpen)
            &&& session.write(buf) == Err::<NativeCall, OtaError>(OtaError::NotOpen)
            &&& session.complete() == (session, Err::<Completion, OtaError>(OtaError::NotOpen))
            &&& session.abort() == (session, Err::<NativeCall, OtaError>(OtaError::NotOpen))
        },
{
}

/// Completing an open session makes the partition that it wrote to the boot
/// partition: once the write handle is finished with success, the call that
/// follows sets that partition, and no other call of the completion touches
/// the boot partition.  Where finishing fails, no call follows.  Aborting
/// asks for one call, which leaves the boot partition alone.
pub proof fn lemma_boot_partition(session: Session, status: i32)
    requires
        session.is_open(),
    ensures
        session.complete().1 is Ok,
        session.complete().1->Ok_0.first_call().boot_target() is None,
        session.complete().1->Ok_0.spec_ended(ESP_OK) is Ok,
        session.complete().1->Ok_0.spec_ended(ESP_OK)->Ok_0.boot_target() == Some(
            session->partition,
        ),
        status != ESP_OK ==> session.complete().1->Ok_0.spec_ended(status) == Err::<
            NativeCall,
            OtaError,
        >(OtaError::NativeFailure(status)),
        session.abort().1 is Ok,
        session.abort().1->Ok_0.boot_target() is None,
{
}

/// An update session.
///
/// It lives no longer than the borrow of the manager that opened it, so that
/// a manager has one session at a time.
///
/// A session performs no call itself, and so it cannot give back its write
/// handle when it goes away.  Its owner aborts a session that it gives up
/// while it is open.
///
/// A session can be handed to another thread.  Its operations take it by
/// `&mut`, so that no two threads use it at once.
#[derive(Debug)]
pub struct EspOtaUpdate<'a> {
    session: Session,
    _owner: PhantomData<&'a mut ()>,
}

impl<'a> View for EspOtaUpdate<'a> {
    type V = Session;

    closed spec fn view(&self) -> Session {
        self.session
    }
}

impl<'a> EspOtaUpdate<'a> {
    /// A session on `partition` that writes through `handle`.
    pub(crate) fn open(partition: Partition, handle: u32) -> (update: Self)
        ensures
            update@ == (Session::Open { partition, handle }),
    {
        EspOtaUpdate { session: Session::Open { partition, handle }, _owner: PhantomData }
    }

    /// Whether the session is open.
    pub fn is_open(&self) -> (open: bool)
        ensures
            open == self@.is_open(),
    {
        match self.session {
            Session::Open { .. } => true,
            _ => false,
        }
    }

    /// The state that the session is in.
    pub fn state(&self) -> (state: Session)
        ensures
            state == self@,
    {
        self.session
    }

    /// Passes where the session is open, and fails with
    /// [`OtaError::NotOpen`] where it is closed.
    pub fn check_write(&self) -> (r: Result<(), OtaError>)
        ensures
            r == self@.check_write(),
    {
        match self.session {
            Session::Open { .. } => Ok(()),
            _ => Err(OtaError::NotOpen),
        }
    }

    /// Asks for the bytes of `buf` to be written.
    ///
    /// An open session answers with the call that appends them through its
    /// handle; what the write comes to is then told by [`Self::written`].
    /// A closed session fails with [`OtaError::NotOpen`].  The session stays
    /// as it is.
    pub fn write<'b>(&mut self, buf: &'b [u8]) -> (r: Result<NativeCall<'b>, OtaError>)
        ensures
            final(self)@ == old(self)@,
            r == old(self)@.write(buf),
    {
        match self.session {
            Session::Open { partition, handle } => Ok(NativeCall::Write { handle, data: buf }),
            _ => Err(OtaError::NotOpen),
        }
    }

    /// What the write of `buf` comes to, once the storage subsystem has
    /// answered with `status`: after success the whole length of the buffer,
    /// else the status code as the error.
    pub fn written(buf: &[u8], status: i32) -> (r: Result<usize, OtaError>)
        ensures
            r == written(buf@.len() as usize, status),
    {
        if status == ESP_OK {
            Ok(buf.len())
        } else {
            Err(OtaError::NativeFailure(status))
        }
    }

    /// Does nothing for an open session, since what is written is not held
    /// back, and fails with [`OtaError::NotOpen`] for a closed one.
    pub fn flush(&mut self) -> (r: Result<(), OtaError>)
        ensures
            final(self)@ == old(self)@,
            r == old(self)@.check_write(),
    {
        self.check_write()
    }

    /// Completes the session.
    ///
    /// An open session closes, whatever becomes of the calls that follow,
    /// and hands out the completion to carry through: see [`Completion`].  A
    /// closed session fails with [`OtaError::NotOpen`] and stays as it is.
    pub fn complete(&mut self) -> (r: Result<Completion, OtaError>)
        ensures
            (final(self)@, r) == old(self)@.complete(),
    {
        match self.session {
            Session::Open { partition, handle } => {
                self.session = Session::Completed;
                Ok(Completion { partition, handle })
            },
            _ => Err(OtaError::NotOpen),
        }
    }

    /// Aborts the session.
    ///
    /// An open session closes and answers with the call that gives up its
    /// write handle; no call that follows from an abort touches the boot
    /// partition.  A closed session fails with [`OtaError::NotOpen`] and
    /// stays as it is.
    pub fn abort(&mut self) -> (r: Result<NativeCall<'static>, OtaError>)
        ensures
            (final(self)@, r) == old(self)@.abort(),
    {
        match self.session {
            Session::Open { partition, handle } => {
                self.session = Session::Aborted;
                Ok(NativeCall::Abort { handle })
            },
            _ => Err(OtaError::NotOpen),
        }
    }
}

} // verus!
