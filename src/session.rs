use std::time::Duration;

use tokio::sync::{mpsc, oneshot};
use vstd::prelude::*;

use crate::error::Error;
use crate::service::{Request, Service, ServiceRequest, WriteSingleCoil, WriteSingleRegister};
use crate::types::{CoilState, Indexed, RegisterValue, UnitId};

verus! {

/// Whether `envelope` carries a call of function `S` for unit `id`, with
/// response timeout `timeout` and argument `argument`.
pub open spec fn carries<S: Service>(
    envelope: Request,
    id: UnitId,
    timeout: Duration,
    argument: S::Request,
) -> bool {
    match S::carried(envelope) {
        Some(call) => call.id == id && call.timeout == timeout && call.argument == argument,
        None => false,
    }
}

/// The result of a queued call: what the worker delivered, or `Shutdown`
/// where the envelope could not be queued or the writer end was dropped
/// without firing.
pub open spec fn settle<T>(sent: bool, reply: Option<Result<T, Error>>) -> Result<T, Error> {
    if sent && reply is Some {
        reply->Some_0
    } else {
        Err(Error::Shutdown)
    }
}

/// The result of a whole call of function `S` with argument `request`: a
/// validation error before anything is queued, else what `settle` gives.
pub open spec fn dispatch_outcome<S: Service>(
    request: S::Request,
    sent: bool,
    reply: Option<Result<S::Response, Error>>,
) -> Result<S::Response, Error> {
    match S::request_check(request) {
        Err(e) => Err(Error::BadRequest(e)),
        Ok(_) => settle(sent, reply),
    }
}

/// A handle on the shared request queue, bound to one unit address and one
/// response timeout. Clones share the queue.
pub struct Session {
    id: UnitId,
    response_timeout: Duration,
    request_channel: mpsc::Sender<Request>,
}

impl Clone for Session {
    fn clone(&self) -> (r: Self)
        ensures
            r.unit() == self.unit(),
            r.timeout() == self.timeout(),
    {
        Session {
            id: self.id,
            response_timeout: self.response_timeout,
            request_channel: self.request_channel.clone(),
        }
    }
}

impl Session {
    pub closed spec fn unit(self) -> UnitId {
        self.id
    }

    pub closed spec fn timeout(self) -> Duration {
        self.response_timeout
    }

    pub closed spec fn channel(self) -> mpsc::Sender<Request> {
        self.request_channel
    }

    pub fn new(id: UnitId, response_timeout: Duration, request_channel: mpsc::Sender<Request>) -> (r: Self)
        ensures
            r.unit() == id,
            r.timeout() == response_timeout,
            r.channel() == request_channel,
    {
        Session { id, response_timeout, request_channel }
    }

    /// The queue that the envelopes of this session go to.
    pub fn request_channel(&self) -> (r: &mpsc::Sender<Request>)
        ensures
            *r == self.channel(),
    {
        &self.request_channel
    }

    /// The steps of a call before it is queued: the argument is validated,
    /// and, where it passes, put with the session's unit address and timeout
    /// and a fresh reply writer into an envelope. The reader end of that
    /// writer comes back beside the envelope.
    pub fn prepare_call<S: Service>(&self, request: S::Request) -> (r: Result<
        (Request, oneshot::Receiver<Result<S::Response, Error>>),
        Error,
    >)
        ensures
            S::request_check(request) is Err ==> r is Err && r->Err_0 == Error::BadRequest(
                S::request_check(request)->Err_0,
            ),
            S::request_check(request) is Ok ==> r is Ok && carries::<S>(
                r->Ok_0.0,
                self.unit(),
                self.timeout(),
                request,
            ),
    {
        match S::check_request_validity(&request) {
            Err(e) => Err(Error::BadRequest(e)),
            Ok(()) => {
                let (tx, rx) = oneshot::channel::<Result<S::Response, Error>>();
                let envelope = S::create_request(
                    ServiceRequest::new(self.id, self.response_timeout, request, tx),
                );
                Ok((envelope, rx))
            },
        }
    }
}

/// The steps of a call after it was handed to the queue: `sent` tells whether
/// the queue took the envelope, `reply` what the reader end yielded (`None`
/// where the writer end was dropped without firing). The worker's result is
/// passed on unchanged.
pub fn finish_call<T>(sent: bool, reply: Option<Result<T, Error>>) -> (r: Result<T, Error>)
    ensures
        r == settle(sent, reply),
{
    if !sent {
        return Err(Error::Shutdown);
    }
    match reply {
        Some(result) => result,
        None => Err(Error::Shutdown),
    }
}

/// Once the queue's consumer is gone, a call whose argument passes validation
/// ends in `Shutdown`, whatever else happens; so does one whose reply writer
/// is dropped without firing.
pub proof fn lemma_shutdown_is_final<S: Service>(
    request: S::Request,
    reply: Option<Result<S::Response, Error>>,
)
    requires
        S::request_check(request) is Ok,
    ensures
        dispatch_outcome::<S>(request, false, reply) == Err::<S::Response, Error>(Error::Shutdown),
        dispatch_outcome::<S>(request, true, None) == Err::<S::Response, Error>(Error::Shutdown),
{
}

/// A validation error ends a call before anything is queued: the outcome is
/// that error, whether or not the queue is open and whatever a worker might
/// have replied.
pub proof fn lemma_invalid_never_queued<S: Service>(
    request: S::Request,
    sent: bool,
    reply: Option<Result<S::Response, Error>>,
)
    requires
        S::request_check(request) is Err,
    ensures
        dispatch_outcome::<S>(request, sent, reply) == Err::<S::Response, Error>(
            Error::BadRequest(S::request_check(request)->Err_0),
        ),
{
}

/// Writing a coil gives back the value sent when the worker confirms it
/// unchanged, and any error the worker reports, such as a mismatched echo,
/// as that error.
pub proof fn lemma_write_coil_confirmation(value: Indexed<CoilState>, e: Error)
    ensures
        dispatch_outcome::<WriteSingleCoil>(value, true, Some(Ok(value))) == Ok::<
            Indexed<CoilState>,
            Error,
        >(value),
        dispatch_outcome::<WriteSingleCoil>(value, true, Some(Err(e))) == Err::<
            Indexed<CoilState>,
            Error,
        >(e),
{
}

/// Writing a register gives back the value sent when the worker confirms it
/// unchanged, and any error the worker reports as that error.
pub proof fn lemma_write_register_confirmation(value: Indexed<RegisterValue>, e: Error)
    ensures
        dispatch_outcome::<WriteSingleRegister>(value, true, Some(Ok(value))) == Ok::<
            Indexed<RegisterValue>,
            Error,
        >(value),
        dispatch_outcome::<WriteSingleRegister>(value, true, Some(Err(e))) == Err::<
            Indexed<RegisterValue>,
            Error,
        >(e),
{
}

/// Receives the outcome of a call that was started without waiting for it.
pub trait Handler<T> {
    fn handle(&self, result: T);
}

/// A session whose calls return at once and hand their outcome to a
/// handler later.
pub struct CallbackSession {
    inner: Session,
}

impl CallbackSession {
    pub closed spec fn inner(self) -> Session {
        self.inner
    }

    pub fn new(inner: Session) -> (r: Self)
        ensures
            r.inner() == inner,
    {
        CallbackSession { inner }
    }

    /// The session that the calls run on.
    pub fn session(&self) -> (r: &Session)
        ensures
            *r == self.inner(),
    {
        &self.inner
    }
}

impl Clone for CallbackSession {
    fn clone(&self) -> (r: Self)
        ensures
            r.inner().unit() == self.inner().unit(),
            r.inner().timeout() == self.inner().timeout(),
    {
        CallbackSession { inner: self.inner.clone() }
    }
}

} // verus!
