//! Messages, the append-only store that keeps them, and the two request
//! handlers built on it.

use std::sync::{Arc, Mutex, MutexGuard, PoisonError};

use vstd::prelude::*;
use vstd::string::*;

use crate::json::{array_text, json_string, string_literal, JsonPayload};
use crate::response::{data_object_text, error_object_text, ApiResponse};

verus! {

/// One stored message. It is made by an append to a store and never
/// changes afterwards.
#[derive(Debug)]
pub struct Message {
    content: String,
}

impl View for Message {
    type V = Seq<char>;

    closed spec fn view(&self) -> Seq<char> {
        self.content@
    }
}

impl DeepView for Message {
    type V = Seq<char>;

    open spec fn deep_view(&self) -> Seq<char> {
        self@
    }
}

impl Clone for Message {
    fn clone(&self) -> (copy: Self)
        ensures
            copy@ == self@,
    {
        Message { content: self.content.clone() }
    }
}

impl Message {
    /// The text of the message.
    pub fn content(&self) -> (text: &str)
        ensures
            text@ == self@,
    {
        self.content.as_str()
    }
}

/// The payload of a create request: the text of the message to store. Any
/// text is accepted, the empty one too.
#[derive(Debug)]
pub struct CreateMessage {
    message: String,
}

impl View for CreateMessage {
    type V = Seq<char>;

    closed spec fn view(&self) -> Seq<char> {
        self.message@
    }
}

impl CreateMessage {
    /// The payload that asks to store `message`.
    pub fn new(message: String) -> (payload: Self)
        ensures
            payload@ == message@,
    {
        CreateMessage { message }
    }

    /// The text to store.
    pub fn message(&self) -> (text: &str)
        ensures
            text@ == self@,
    {
        self.message.as_str()
    }
}

/// The log after an append of the text `content`: what it held, then the
/// new message.
pub open spec fn appended(log: Seq<Seq<char>>, content: Seq<char>) -> Seq<Seq<char>> {
    log.push(content)
}

/// The messages of a store in the order of their arrival, as seen by the
/// one caller that holds the store's lock.
pub struct MessageLog {
    messages: Vec<Message>,
}

impl View for MessageLog {
    type V = Seq<Seq<char>>;

    closed spec fn view(&self) -> Seq<Seq<char>> {
        self.messages.deep_view()
    }
}

impl MessageLog {
    /// A log without messages.
    pub fn new() -> (log: Self)
        ensures
            log@ == Seq::<Seq<char>>::empty(),
    {
        MessageLog { messages: Vec::new() }
    }

    /// The number of messages in the log.
    pub fn len(&self) -> (n: usize)
        ensures
            n == self@.len(),
    {
        self.messages.len()
    }

    /// Stores a message with the text `content` behind all earlier ones and
    /// returns a copy of it.
    pub fn append(&mut self, content: String) -> (message: Message)
        ensures
            final(self)@ == appended(old(self)@, content@),
            message@ == content@,
    {
        let message = Message { content };
        let copy = message.clone();
        self.messages.push(message);
        copy
    }

    /// A copy of every message, in the order of arrival. Later appends do
    /// not reach a copy that was handed out.
    pub fn snapshot(&self) -> (messages: Vec<Message>)
        ensures
            messages.deep_view() == self@,
    {
        self.messages.clone()
    }
}

/// The JSON object of a message around its already written text:
/// `{"content":<literal>}`.
pub open spec fn message_object_text(literal: Seq<char>) -> Seq<char> {
    "{\"content\":"@ + literal + "}"@
}

/// Frames the written text of a message as its JSON object.
pub fn message_object(literal: &str) -> (text: String)
    ensures
        text@ == message_object_text(literal@),
{
    let mut text = "{\"content\":".to_owned();
    text.append(literal);
    text.append("}");
    text
}

impl JsonPayload for Message {
    open spec fn json(&self) -> Seq<char> {
        message_object_text(json_string(self@))
    }

    fn to_json(&self) -> (text: String)
        ensures
            text@ == self.json(),
    {
        let literal = string_literal(self.content());
        message_object(literal.as_str())
    }
}

/// The store's lock is poisoned: a holder ended while it held the lock, and
/// the store can no longer be reached.
#[derive(Clone, Copy, Debug, PartialEq, Eq, Structural)]
pub struct StoreUnavailable;

#[verifier::external_type_specification]
#[verifier::external_body]
#[verifier::reject_recursive_types(T)]
pub struct ExMutex<T: ?Sized>(Mutex<T>);

#[verifier::external_type_specification]
#[verifier::external_body]
#[verifier::reject_recursive_types(T)]
pub struct ExMutexGuard<'a, T: ?Sized + 'a>(MutexGuard<'a, T>);

#[verifier::external_type_specification]
#[verifier::external_body]
#[verifier::reject_recursive_types(T)]
pub struct ExPoisonError<T>(PoisonError<T>);

/// What an append makes of the answer of the store's lock. With the log in
/// hand it stores a message with the text `content` behind all earlier
/// ones and returns a copy of it; with a poisoned lock it touches nothing
/// and reports that.
pub fn append_under(
    access: Result<&mut MessageLog, StoreUnavailable>,
    content: String,
) -> (outcome: Result<Message, StoreUnavailable>)
    ensures
        match access {
            Ok(log) => final(log)@ == appended(log@, content@) && (outcome matches Ok(message)
                && message@ == content@),
            Err(_) => outcome is Err,
        },
{
    match access {
        Ok(log) => Ok(log.append(content)),
        Err(unavailable) => Err(unavailable),
    }
}

/// What a snapshot makes of the answer of the store's lock. With the log
/// in hand it copies every message, in the order of arrival; with a
/// poisoned lock it reports that.
pub fn snapshot_under(access: Result<&MessageLog, StoreUnavailable>) -> (outcome: Result<
    Vec<Message>,
    StoreUnavailable,
>)
    ensures
        match access {
            Ok(log) => outcome matches Ok(messages) && messages.deep_view() == log@,
            Err(_) => outcome is Err,
        },
{
    match access {
        Ok(log) => Ok(log.snapshot()),
        Err(unavailable) => Err(unavailable),
    }
}

/// `Mutex::new`. Nothing is claimed of the new lock.
#[verifier::external_body]
fn guarded(log: MessageLog) -> (lock: Mutex<MessageLog>) {
    Mutex::new(log)
}

/// `Arc::clone`. Trusted: the second handle points to the lock that the
/// first points to.
#[verifier::external_body]
fn share(lock: &Arc<Mutex<MessageLog>>) -> (shared: Arc<Mutex<MessageLog>>)
    ensures
        shared == *lock,
{
    Arc::clone(lock)
}

/// `Mutex::lock`. Nothing is claimed of the outcome: whether the lock is
/// poisoned, and what the log behind it holds, depends on every other
/// holder. The lock lives inside a store, whose operations take it once and
/// give it back before they return, so the calling thread never holds it
/// already.
#[verifier::external_body]
fn lock<'a>(mutex: &'a Mutex<MessageLog>) -> (outcome: Result<
    MutexGuard<'a, MessageLog>,
    PoisonError<MutexGuard<'a, MessageLog>>,
>) {
    mutex.lock()
}

/// `DerefMut::deref_mut` on a guard: the log behind a lock that is held.
#[verifier::external_body]
fn held_mut<'a, 'b>(guard: &'a mut MutexGuard<'b, MessageLog>) -> (log: &'a mut MessageLog) {
    std::ops::DerefMut::deref_mut(guard)
}

/// `Deref::deref` on a guard: the log behind a lock that is held.
#[verifier::external_body]
fn held<'a, 'b>(guard: &'a MutexGuard<'b, MessageLog>) -> (log: &'a MessageLog) {
    std::ops::Deref::deref(guard)
}

/// The one message store of a service, shared by every request handler.
/// Each operation holds the store's lock from its first look at the log to
/// its last, so none sees an append half done.
pub struct MessageStore {
    shared: Arc<Mutex<MessageLog>>,
}

impl Clone for MessageStore {
    /// Another handle on the same store.
    fn clone(&self) -> (store: Self)
        ensures
            store.shared_lock() == self.shared_lock(),
    {
        MessageStore { shared: share(&self.shared) }
    }
}

impl MessageStore {
    /// The lock that guards the log of the store. Two handles are handles
    /// on one store where this is the same lock. What the log behind it
    /// holds changes with every append, so no function of the handle gives
    /// it.
    pub closed spec fn shared_lock(&self) -> Mutex<MessageLog> {
        *self.shared
    }

    /// A store of its own, without messages.
    pub fn new() -> (store: Self) {
        MessageStore { shared: Arc::new(guarded(MessageLog::new())) }
    }

    /// A store over the log behind `lock`. From now on only the operations
    /// of the store take that lock. A poisoned lock stays poisoned: every
    /// operation of the new store then reports `StoreUnavailable`.
    pub fn from_lock(lock: Mutex<MessageLog>) -> (store: Self)
        ensures
            store.shared_lock() == lock,
    {
        MessageStore { shared: Arc::new(lock) }
    }

    /// Appends a message with the text `content` and returns a copy of it,
    /// unless the lock is poisoned: it takes the lock and does what
    /// `append_under` makes of the answer.
    pub fn append(&self, content: String) -> (outcome: Result<Message, StoreUnavailable>)
        ensures
            outcome matches Ok(message) ==> message@ == content@,
    {
        match lock(&self.shared) {
            Ok(mut guard) => append_under(Ok(held_mut(&mut guard)), content),
            Err(_) => append_under(Err(StoreUnavailable), content),
        }
    }

    /// A copy of the messages as they are at the moment of the call, unless
    /// the lock is poisoned: it takes the lock and does what
    /// `snapshot_under` makes of the answer.
    pub fn snapshot(&self) -> (outcome: Result<Vec<Message>, StoreUnavailable>) {
        match lock(&self.shared) {
            Ok(guard) => snapshot_under(Ok(held(&guard))),
            Err(_) => snapshot_under(Err(StoreUnavailable)),
        }
    }
}

/// Whether `response` reports a new message with the text `content`.
pub open spec fn reports_created(response: ApiResponse<Message>, content: Seq<char>) -> bool {
    response matches ApiResponse::Created { data } && data@ == content
}

/// Whether `response` reports the messages `log`, in that order.
pub open spec fn reports_messages(response: ApiResponse<Vec<Message>>, log: Seq<Seq<char>>) -> bool {
    response matches ApiResponse::Success { data } && data.deep_view() == log
}

/// Whether `response` reports a store that cannot be reached. It names no
/// cause: the text is always the same.
pub open spec fn reports_unavailable<T>(response: ApiResponse<T>) -> bool {
    response matches ApiResponse::Error { error } && error@ == "internal server error"@
}

/// The response when a store cannot be reached.
pub fn unavailable<T>() -> (response: ApiResponse<T>)
    ensures
        reports_unavailable(response),
{
    ApiResponse::Error { error: "internal server error".to_owned() }
}

/// The response to a create request, from the outcome of its append.
pub fn create_response(outcome: Result<Message, StoreUnavailable>) -> (response: ApiResponse<
    Message,
>)
    ensures
        match outcome {
            Ok(message) => response == (ApiResponse::Created { data: message }),
            Err(_) => reports_unavailable(response),
        },
{
    match outcome {
        Ok(message) => ApiResponse::Created { data: message },
        Err(_) => unavailable(),
    }
}

/// The response to a list request, from the outcome of its snapshot.
pub fn list_response(outcome: Result<Vec<Message>, StoreUnavailable>) -> (response: ApiResponse<
    Vec<Message>,
>)
    ensures
        match outcome {
            Ok(messages) => response == (ApiResponse::Success { data: messages }),
            Err(_) => reports_unavailable(response),
        },
{
    match outcome {
        Ok(messages) => ApiResponse::Success { data: messages },
        Err(_) => unavailable(),
    }
}

/// Handles a create request: appends the payload's text to the store and
/// reports the new message. Where the store cannot be reached nothing is
/// stored, and the response says so.
pub fn create(payload: CreateMessage, messages_storage: &MessageStore) -> (response: ApiResponse<
    Message,
>)
    ensures
        reports_created(response, payload@) || reports_unavailable(response),
{
    create_response(messages_storage.append(payload.message))
}

/// Handles a list request: reports the messages of the store in the order
/// of their arrival, or that the store cannot be reached.
pub fn get(messages_storage: &MessageStore) -> (response: ApiResponse<Vec<Message>>)
    ensures
        response is Success || reports_unavailable(response),
{
    list_response(messages_storage.snapshot())
}

/// The log after one append for each text of `contents`, made one after
/// the other in that order, starting from `log`.
pub open spec fn after_appends(log: Seq<Seq<char>>, contents: Seq<Seq<char>>) -> Seq<Seq<char>>
    decreases contents.len(),
{
    if contents.len() == 0 {
        log
    } else {
        after_appends(appended(log, contents.first()), contents.drop_first())
    }
}

/// Appends only add at the end: after any run of appends the log is what
/// it was, followed by the new texts in the order of the calls.
pub proof fn lemma_appends_keep_call_order(log: Seq<Seq<char>>, contents: Seq<Seq<char>>)
    ensures
        after_appends(log, contents) == log + contents,
        log.is_prefix_of(after_appends(log, contents)),
        after_appends(log, contents).len() == log.len() + contents.len(),
    decreases contents.len(),
{
    if contents.len() > 0 {
        lemma_appends_keep_call_order(appended(log, contents.first()), contents.drop_first());
        assert(appended(log, contents.first()) + contents.drop_first() == log + contents);
    }
    assert(log + contents == after_appends(log, contents));
}

/// After creates with the texts `payloads`, made one after the other on a
/// new store, a list request reports exactly those texts, in call order,
/// with status 200.
pub proof fn lemma_list_after_creates(
    payloads: Seq<Seq<char>>,
    response: ApiResponse<Vec<Message>>,
)
    requires
        reports_messages(response, after_appends(Seq::empty(), payloads)),
    ensures
        response matches ApiResponse::Success { data } && data.deep_view() == payloads,
        response.spec_status() == 200,
{
    lemma_appends_keep_call_order(Seq::empty(), payloads);
    assert(Seq::<Seq<char>>::empty() + payloads == payloads);
}

/// No append is lost and none counts twice: the log grows by one message
/// for each append, and holds what it held before together with every new
/// text, each as often as it was sent.
pub proof fn lemma_appends_lose_nothing(log: Seq<Seq<char>>, contents: Seq<Seq<char>>)
    ensures
        after_appends(log, contents).len() == log.len() + contents.len(),
        after_appends(log, contents).to_multiset() == log.to_multiset().add(
            contents.to_multiset(),
        ),
{
    lemma_appends_keep_call_order(log, contents);
    vstd::seq_lib::lemma_multiset_commutative(log, contents);
}

/// The lock admits the appends of several callers in an order of its own
/// choosing. Whatever that order is, the store ends with the same number
/// of messages and the same texts, each as often as it was sent.
pub proof fn lemma_arrival_order_keeps_messages(
    log: Seq<Seq<char>>,
    one_order: Seq<Seq<char>>,
    other_order: Seq<Seq<char>>,
)
    requires
        one_order.to_multiset() == other_order.to_multiset(),
    ensures
        after_appends(log, one_order).len() == after_appends(log, other_order).len(),
        after_appends(log, one_order).to_multiset() == after_appends(
            log,
            other_order,
        ).to_multiset(),
{
    lemma_appends_lose_nothing(log, one_order);
    lemma_appends_lose_nothing(log, other_order);
    vstd::seq_lib::to_multiset_len(one_order);
    vstd::seq_lib::to_multiset_len(other_order);
}

/// A new message is answered with status 201 and the body
/// `{"data":{"content":<text>}}`, the text written as a JSON string.
pub proof fn lemma_created_on_the_wire(response: ApiResponse<Message>, content: Seq<char>)
    requires
        reports_created(response, content),
    ensures
        response.spec_status() == 201,
        response.json() == data_object_text(message_object_text(json_string(content))),
{
}

/// A list is answered with status 200 and the body `{"data":[..]}`, with
/// one object for each message, in the order of the log. The list of an
/// empty log is `{"data":[]}`.
pub proof fn lemma_messages_on_the_wire(response: ApiResponse<Vec<Message>>, log: Seq<Seq<char>>)
    requires
        reports_messages(response, log),
    ensures
        response.spec_status() == 200,
        response.json() == data_object_text(
            array_text(Seq::new(log.len(), |i: int| message_object_text(json_string(log[i])))),
        ),
        log.len() == 0 ==> response.json() == "{\"data\":[]}"@,
{
    let data = response->Success_data;
    assert(data.deep_view() == log);
    let objects = Seq::new(data@.len(), |i: int| data@[i].json());
    let expected = Seq::new(log.len(), |i: int| message_object_text(json_string(log[i])));
    assert(objects =~= expected) by {
        assert forall|i: int| 0 <= i < objects.len() implies objects[i] == expected[i] by {
            assert(data@[i]@ == log[i]);
        }
    }
    if log.len() == 0 {
        reveal_strlit("{\"data\":[]}");
        reveal_strlit("{\"data\":");
        reveal_strlit("[");
        reveal_strlit("]");
        reveal_strlit("}");
        assert(data_object_text(array_text(expected)) =~= "{\"data\":[]}"@);
    }
}

/// A store that cannot be reached is answered with status 500 and the body
/// `{"error":"internal server error"}`, whatever the request was.
pub proof fn lemma_unavailable_on_the_wire<T: JsonPayload>(response: ApiResponse<T>)
    requires
        reports_unavailable(response),
    ensures
        response.spec_status() == 500,
        response.json() == error_object_text(json_string("internal server error"@)),
{
}

} // verus!
