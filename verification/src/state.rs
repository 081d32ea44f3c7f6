//! The request handlers.
//!
//! [`Worker`] holds what one worker instance owns alone, its identity and
//! its request counter, and handles a request on a message list that the
//! caller has exclusive hold of; its contracts say exactly what each
//! request does. [`AppState`] joins a worker with a handle to the shared
//! store and handles a request by taking the store's lock around the
//! worker's handler.

use std::ops::DerefMut;
use vstd::prelude::*;

use crate::clock::clock_millis;
use crate::clock::is_rfc2822_defined;
use crate::clock::rfc2822_defined;
use crate::clock::rfc2822_text;
use crate::clock::time_response;
use crate::clock::TimeResponse;
use crate::counter::RequestCounter;
use crate::error::RequestError;
use crate::identity::ServerIdentity;
use crate::store::cleared;
use crate::store::MessageList;
use crate::store::MessageStore;

verus! {

/// The longest body, in bytes, that `/send` accepts.
pub const BODY_LIMIT: usize = 4096;

/// What `/` and `/clear` answer.
#[derive(Debug, PartialEq, Eq)]
pub struct IndexResponse {
    /// The identity of the worker instance that answered.
    pub server_id: usize,
    /// The number of requests that instance has handled, this one
    /// included.
    pub request_count: usize,
    /// The messages in the store, oldest first.
    pub messages: Vec<String>,
}

/// What `/send` answers.
#[derive(Debug, PartialEq, Eq)]
pub struct PostResponse {
    /// The identity of the worker instance that answered.
    pub server_id: usize,
    /// The number of requests that instance has handled, this one
    /// included.
    pub request_count: usize,
    /// The message that was posted.
    pub message: String,
}

/// A request as the handlers see it.
pub enum Request {
    /// `GET /`: list the messages.
    Index,
    /// `GET /now`: tell the time.
    Now,
    /// `POST /send`: post the message.
    Send(Seq<char>),
    /// `POST /clear`: remove all messages.
    Clear,
}

/// What a request can change: the handling worker's count and the list.
pub struct Served {
    /// The number of requests that the worker has handled.
    pub request_count: nat,
    /// The messages in the store, oldest first.
    pub messages: Seq<Seq<char>>,
}

/// The count and the list after the worker has handled `request`.
pub open spec fn serve(before: Served, request: Request) -> Served {
    Served {
        request_count: before.request_count + 1,
        messages: match request {
            Request::Index => before.messages,
            Request::Now => before.messages,
            Request::Send(message) => before.messages.push(message),
            Request::Clear => cleared(before.messages),
        },
    }
}

/// The count and the list after the worker has handled `requests`, first
/// to last, with nobody else touching the list in between.
pub open spec fn serve_all(before: Served, requests: Seq<Request>) -> Served
    decreases requests.len(),
{
    if requests.len() == 0 {
        before
    } else {
        serve(serve_all(before, requests.drop_last()), requests.last())
    }
}

/// Why `/send` refuses a body of `body_len` bytes, if it does; `parsed`
/// says whether the body is a JSON object with a string field `message`.
/// The length is judged first.
pub open spec fn refusal(body_len: usize, parsed: bool) -> Option<RequestError> {
    if body_len > BODY_LIMIT {
        Some(RequestError::PayloadTooLarge)
    } else if !parsed {
        Some(RequestError::BadRequest)
    } else {
        None
    }
}

/// Decides whether `/send` takes a body: `body_len` is its length in
/// bytes, `message` the field `message` that was read from it, if the body
/// has the expected shape. Returns the message to post, or the reason for
/// refusing the body.
pub fn accept_body(body_len: usize, message: Option<String>) -> (taken: Result<
    String,
    RequestError,
>)
    ensures
        match refusal(body_len, message is Some) {
            Some(reason) => taken == Err::<String, RequestError>(reason),
            None => taken == Ok::<String, RequestError>(message->0),
        },
{
    if body_len > BODY_LIMIT {
        Err(RequestError::PayloadTooLarge)
    } else {
        match message {
            Some(text) => Ok(text),
            None => Err(RequestError::BadRequest),
        }
    }
}

/// What one worker instance owns alone: its identity, fixed when it was
/// made, and the count of the requests it has handled.
pub struct Worker {
    server_id: usize,
    request_count: RequestCounter,
}

impl Worker {
    /// The identity of this worker instance.
    pub closed spec fn spec_server_id(&self) -> usize {
        self.server_id
    }

    /// The number of requests this worker instance has handled.
    pub closed spec fn spec_request_count(&self) -> usize {
        self.request_count.current()
    }

    /// What a request finds: this worker's count and the list `messages`.
    pub open spec fn facing(&self, messages: Seq<Seq<char>>) -> Served {
        Served { request_count: self.request_count() as nat, messages }
    }

    /// Whether the counter has room for one more request.
    pub open spec fn can_count(&self) -> bool {
        self.request_count() < usize::MAX
    }

    /// A worker instance with the identity `server_id` that has handled
    /// nothing yet.
    pub fn new(server_id: usize) -> (worker: Self)
        ensures
            worker.server_id() == server_id,
            worker.request_count() == 0,
    {
        Worker { server_id, request_count: RequestCounter::new() }
    }

    /// The identity of this worker instance.
    #[verifier::when_used_as_spec(spec_server_id)]
    pub fn server_id(&self) -> (id: usize)
        ensures
            id == self.server_id(),
    {
        self.server_id
    }

    /// The number of requests this worker instance has handled.
    #[verifier::when_used_as_spec(spec_request_count)]
    pub fn request_count(&self) -> (count: usize)
        ensures
            count == self.request_count(),
    {
        self.request_count.current()
    }

    /// Counts a request that got as far as a handler but could not be
    /// served.
    pub fn count_request(&mut self) -> (count: usize)
        requires
            old(self).can_count(),
        ensures
            final(self).server_id() == old(self).server_id(),
            final(self).request_count() == old(self).request_count() + 1,
            count == final(self).request_count(),
    {
        self.request_count.next()
    }

    /// Handles `GET /`: counts the request and lists the messages.
    pub fn index(&mut self, messages: &MessageList) -> (response: IndexResponse)
        requires
            old(self).can_count(),
        ensures
            final(self).server_id() == old(self).server_id(),
            final(self).facing(messages@) == serve(old(self).facing(messages@), Request::Index),
            response.server_id == old(self).server_id(),
            response.request_count == old(self).request_count() + 1,
            response.messages.deep_view() == messages@,
            response.messages.len() == messages@.len(),
    {
        let request_count = self.request_count.next();
        IndexResponse { server_id: self.server_id, request_count, messages: messages.snapshot() }
    }

    /// Handles `POST /send` for a body that was taken: counts the request,
    /// puts `message` at the end of the list and echoes it.
    pub fn post_message(&mut self, messages: &mut MessageList, message: String) -> (response:
        PostResponse)
        requires
            old(self).can_count(),
        ensures
            final(self).server_id() == old(self).server_id(),
            final(self).facing(final(messages)@) == serve(
                old(self).facing(old(messages)@),
                Request::Send(message@),
            ),
            final(messages)@ == old(messages)@.push(message@),
            response.server_id == old(self).server_id(),
            response.request_count == old(self).request_count() + 1,
            response.message@ == message@,
    {
        let request_count = self.request_count.next();
        let echo = message.clone();
        messages.append(message);
        PostResponse { server_id: self.server_id, request_count, message: echo }
    }

    /// Handles `POST /send` from the body on: a body that [`accept_body`]
    /// refuses changes nothing, neither the list nor the count; one that it
    /// takes is posted as by [`Worker::post_message`].
    pub fn send(
        &mut self,
        messages: &mut MessageList,
        body_len: usize,
        message: Option<String>,
    ) -> (response: Result<PostResponse, RequestError>)
        requires
            old(self).can_count(),
        ensures
            final(self).server_id() == old(self).server_id(),
            match refusal(body_len, message is Some) {
                Some(reason) => {
                    &&& response == Err::<PostResponse, RequestError>(reason)
                    &&& final(self).request_count() == old(self).request_count()
                    &&& final(messages)@ == old(messages)@
                    &&& final(self).facing(final(messages)@) == old(self).facing(old(messages)@)
                },
                None => {
                    &&& response matches Ok(posted)
                    &&& posted.server_id == old(self).server_id()
                    &&& posted.request_count == old(self).request_count() + 1
                    &&& posted.message@ == message->0@
                    &&& final(messages)@ == old(messages)@.push(message->0@)
                    &&& final(self).facing(final(messages)@) == serve(
                        old(self).facing(old(messages)@),
                        Request::Send(message->0@),
                    )
                },
            },
    {
        match accept_body(body_len, message) {
            Ok(text) => Ok(self.post_message(messages, text)),
            Err(reason) => Err(reason),
        }
    }

    /// Handles `POST /clear`: counts the request, empties the list and
    /// answers with the list as it then is, which is empty.
    pub fn clear(&mut self, messages: &mut MessageList) -> (response: IndexResponse)
        requires
            old(self).can_count(),
        ensures
            final(self).server_id() == old(self).server_id(),
            final(self).facing(final(messages)@) == serve(
                old(self).facing(old(messages)@),
                Request::Clear,
            ),
            final(messages)@ == Seq::<Seq<char>>::empty(),
            response.server_id == old(self).server_id(),
            response.request_count == old(self).request_count() + 1,
            response.messages.deep_view() == Seq::<Seq<char>>::empty(),
            response.messages.len() == 0,
    {
        let request_count = self.request_count.next();
        messages.clear();
        IndexResponse { server_id: self.server_id, request_count, messages: messages.snapshot() }
    }

    /// Handles `GET /now` at the moment `now_millis`: counts the request
    /// and tells the time, or answers `None` if the moment lies outside the
    /// years that an RFC 2822 date can show.
    pub fn time_at(&mut self, now_millis: i64) -> (response: Option<TimeResponse>)
        requires
            old(self).can_count(),
        ensures
            final(self).server_id() == old(self).server_id(),
            final(self).request_count() == old(self).request_count() + 1,
            forall|messages: Seq<Seq<char>>| #[trigger]
                final(self).facing(messages) == serve(old(self).facing(messages), Request::Now),
            response is Some <==> rfc2822_defined(now_millis),
            response matches Some(told) ==> {
                &&& told.timestamp == now_millis
                &&& told.rfc2822@ == rfc2822_text(now_millis)
            },
    {
        self.request_count.next();
        if is_rfc2822_defined(now_millis) {
            Some(time_response(now_millis))
        } else {
            None
        }
    }

    /// Handles `GET /now`: reads the clock and answers as
    /// [`Worker::time_at`] does for that reading.
    pub fn time(&mut self) -> (response: Option<TimeResponse>)
        requires
            old(self).can_count(),
        ensures
            final(self).server_id() == old(self).server_id(),
            final(self).request_count() == old(self).request_count() + 1,
            forall|messages: Seq<Seq<char>>| #[trigger]
                final(self).facing(messages) == serve(old(self).facing(messages), Request::Now),
            response matches Some(told) ==> {
                &&& rfc2822_defined(told.timestamp)
                &&& told.rfc2822@ == rfc2822_text(told.timestamp)
            },
    {
        let now_millis: i64 = clock_millis();
        self.time_at(now_millis)
    }
}

/// Every request counts, whatever its endpoint: after `requests` the
/// worker's count is higher by their number, and each single request
/// raises it by exactly one.
pub proof fn lemma_every_request_counts(before: Served, requests: Seq<Request>)
    ensures
        serve_all(before, requests).request_count == before.request_count + requests.len(),
        forall|request: Request| #[trigger]
            serve(before, request).request_count == before.request_count + 1,
    decreases requests.len(),
{
    if requests.len() > 0 {
        lemma_every_request_counts(before, requests.drop_last());
    }
}

/// Clearing is idempotent on the list and still counts: of two `/clear`
/// requests in a row each leaves, and reports, the empty list, and each
/// raises the worker's count by one.
pub proof fn lemma_clear_is_idempotent(before: Served)
    ensures
        serve(before, Request::Clear).messages == Seq::<Seq<char>>::empty(),
        serve(serve(before, Request::Clear), Request::Clear).messages == serve(
            before,
            Request::Clear,
        ).messages,
        serve(before, Request::Clear).request_count == before.request_count + 1,
        serve(serve(before, Request::Clear), Request::Clear).request_count == before.request_count
            + 2,
{
}

/// A message that was posted is the last one that a following `GET /`
/// lists, behind everything that was there before.
pub proof fn lemma_posted_message_is_listed_last(before: Served, message: Seq<char>)
    ensures
        serve(serve(before, Request::Send(message)), Request::Index).messages.last() == message,
        serve(serve(before, Request::Send(message)), Request::Index).messages.drop_last()
            == before.messages,
        serve(serve(before, Request::Send(message)), Request::Index).request_count
            == before.request_count + 2,
{
    assert(before.messages.push(message).drop_last() =~= before.messages);
}

/// The body limit is inclusive: a well-formed body is taken if and only if
/// it is at most [`BODY_LIMIT`] bytes long, and a longer one is refused as
/// too large whether or not it is well formed.
pub proof fn lemma_body_limit_is_inclusive(body_len: usize, parsed: bool)
    ensures
        refusal(body_len, true) is None <==> body_len <= BODY_LIMIT,
        body_len > BODY_LIMIT ==> refusal(body_len, parsed) == Some(RequestError::PayloadTooLarge),
        body_len <= BODY_LIMIT && !parsed ==> refusal(body_len, parsed) == Some(
            RequestError::BadRequest,
        ),
{
}

/// The state of one worker instance: what it owns alone, and its handle to
/// the message store that all instances share.
///
/// Other instances may change the list between any two requests of this
/// one, so nothing that this instance has seen of the list tells what it
/// will find when it next takes the lock. The contracts here therefore
/// speak of this instance's identity and count and of the shape of the
/// answer; what a request does to the list that it finds under the lock is
/// stated on [`Worker`], whose handlers these call with the lock held.
pub struct AppState {
    worker: Worker,
    messages: MessageStore,
}

impl AppState {
    /// The identity of this worker instance.
    pub closed spec fn spec_server_id(&self) -> usize {
        self.worker.server_id()
    }

    /// The number of requests this worker instance has handled.
    pub closed spec fn spec_request_count(&self) -> usize {
        self.worker.request_count()
    }

    /// This instance's handle to the shared store.
    pub closed spec fn store(&self) -> MessageStore {
        self.messages
    }

    /// Whether the counter has room for one more request.
    pub open spec fn can_count(&self) -> bool {
        self.request_count() < usize::MAX
    }

    /// The state of a worker instance with the identity `server_id` that
    /// has handled nothing yet and serves from `messages`.
    pub fn new(server_id: usize, messages: MessageStore) -> (state: Self)
        ensures
            state.server_id() == server_id,
            state.request_count() == 0,
            state.store() == messages,
    {
        AppState { worker: Worker::new(server_id), messages }
    }

    /// The state of a new worker instance: it takes the next identity from
    /// `identity`, has handled nothing yet, and serves from the store that
    /// `messages` is a handle to.
    pub fn spawn(identity: &ServerIdentity, messages: &MessageStore) -> (state: Self)
        ensures
            state.request_count() == 0,
            state.store().same_store(messages),
    {
        AppState::new(identity.allocate(), messages.clone())
    }

    /// The identity of this worker instance.
    #[verifier::when_used_as_spec(spec_server_id)]
    pub fn server_id(&self) -> (id: usize)
        ensures
            id == self.server_id(),
    {
        self.worker.server_id()
    }

    /// The number of requests this worker instance has handled.
    #[verifier::when_used_as_spec(spec_request_count)]
    pub fn request_count(&self) -> (count: usize)
        ensures
            count == self.request_count(),
    {
        self.worker.request_count()
    }

    /// Handles `GET /`: counts the request and answers with a copy of the
    /// list as it stood while this call held the lock.
    pub fn index(&mut self) -> (response: Result<IndexResponse, RequestError>)
        requires
            old(self).can_count(),
        ensures
            final(self).server_id() == old(self).server_id(),
            final(self).store() == old(self).store(),
            final(self).request_count() == old(self).request_count() + 1,
            match response {
                Ok(listed) => {
                    &&& listed.server_id == old(self).server_id()
                    &&& listed.request_count == old(self).request_count() + 1
                },
                Err(reason) => reason == RequestError::InternalLockFailure,
            },
    {
        match self.messages.lock() {
            Ok(mut guard) => Ok(self.worker.index(guard.deref_mut())),
            Err(reason) => {
                self.worker.count_request();
                Err(reason)
            },
        }
    }

    /// Handles `POST /send` for a body that was taken: counts the request
    /// and, under the lock, puts `message` at the end of the list.
    pub fn post_message(&mut self, message: String) -> (response: Result<
        PostResponse,
        RequestError,
    >)
        requires
            old(self).can_count(),
        ensures
            final(self).server_id() == old(self).server_id(),
            final(self).store() == old(self).store(),
            final(self).request_count() == old(self).request_count() + 1,
            match response {
                Ok(posted) => {
                    &&& posted.server_id == old(self).server_id()
                    &&& posted.request_count == old(self).request_count() + 1
                    &&& posted.message@ == message@
                },
                Err(reason) => reason == RequestError::InternalLockFailure,
            },
    {
        match self.messages.lock() {
            Ok(mut guard) => Ok(self.worker.post_message(guard.deref_mut(), message)),
            Err(reason) => {
                self.worker.count_request();
                Err(reason)
            },
        }
    }

    /// Handles `POST /send` from the body on. A body that [`accept_body`]
    /// refuses is turned away before the lock is taken and before the
    /// request is counted; one that it takes is posted as by
    /// [`AppState::post_message`].
    pub fn send(&mut self, body_len: usize, message: Option<String>) -> (response: Result<
        PostResponse,
        RequestError,
    >)
        requires
            old(self).can_count(),
        ensures
            final(self).server_id() == old(self).server_id(),
            final(self).store() == old(self).store(),
            match refusal(body_len, message is Some) {
                Some(reason) => {
                    &&& response == Err::<PostResponse, RequestError>(reason)
                    &&& final(self).request_count() == old(self).request_count()
                },
                None => {
                    &&& final(self).request_count() == old(self).request_count() + 1
                    &&& match response {
                        Ok(posted) => {
                            &&& posted.server_id == old(self).server_id()
                            &&& posted.request_count == old(self).request_count() + 1
                            &&& posted.message@ == message->0@
                        },
                        Err(reason) => reason == RequestError::InternalLockFailure,
                    }
                },
            },
    {
        match accept_body(body_len, message) {
            Ok(text) => self.post_message(text),
            Err(reason) => Err(reason),
        }
    }

    /// Handles `POST /clear`: counts the request, empties the list under
    /// the lock and answers with the list as it then is, which is empty.
    pub fn clear(&mut self) -> (response: Result<IndexResponse, RequestError>)
        requires
            old(self).can_count(),
        ensures
            final(self).server_id() == old(self).server_id(),
            final(self).store() == old(self).store(),
            final(self).request_count() == old(self).request_count() + 1,
            match response {
                Ok(listed) => {
                    &&& listed.server_id == old(self).server_id()
                    &&& listed.request_count == old(self).request_count() + 1
                    &&& listed.messages.deep_view() == Seq::<Seq<char>>::empty()
                    &&& listed.messages.len() == 0
                },
                Err(reason) => reason == RequestError::InternalLockFailure,
            },
    {
        match self.messages.lock() {
            Ok(mut guard) => Ok(self.worker.clear(guard.deref_mut())),
            Err(reason) => {
                self.worker.count_request();
                Err(reason)
            },
        }
    }

    /// Handles `GET /now`: counts the request, reads the clock and tells
    /// the time, or answers `None` if the clock shows a year that an
    /// RFC 2822 date cannot express.
    pub fn time(&mut self) -> (response: Option<TimeResponse>)
        requires
            old(self).can_count(),
        ensures
            final(self).server_id() == old(self).server_id(),
            final(self).store() == old(self).store(),
            final(self).request_count() == old(self).request_count() + 1,
            response matches Some(told) ==> {
                &&& rfc2822_defined(told.timestamp)
                &&& told.rfc2822@ == rfc2822_text(told.timestamp)
            },
    {
        self.worker.time()
    }
}

} // verus!
