//! A future whose data is delivered from outside: the first poll leaves a
//! waker behind, the deliverer stores the bytes and wakes that waker, and
//! the next poll completes with the bytes read as text.

use std::sync::Arc;
use std::sync::Mutex;
use std::task::Waker;
use vstd::prelude::*;
use vstd::utf8::{valid_utf8, decode_utf8};
use crate::step::PollResult;

verus! {

#[verifier::external_type_specification]
#[verifier::external_body]
pub struct ExWaker(Waker);

#[verifier::external_type_specification]
#[verifier::external_body]
#[verifier::reject_recursive_types(T)]
pub struct ExMutex<T: ?Sized>(Mutex<T>);

/// `Mutex::new`: puts `value` behind a lock. Nothing is stated of the
/// result: what the lock holds is out of Verus's sight.
#[verifier::external_body]
fn new_mutex<T>(value: T) -> (m: Mutex<T>) {
    Mutex::new(value)
}

/// `String::from_utf8`: the bytes read as text, when they are valid
/// UTF-8, as std documents; `None` when they are not.
#[verifier::external_body]
fn string_from_utf8(bytes: Vec<u8>) -> (r: Option<String>)
    ensures
        r is Some <==> valid_utf8(bytes@),
        r matches Some(s) ==> s@ == decode_utf8(bytes@),
{
    String::from_utf8(bytes).ok()
}

/// What the shared state of a delivered future holds, as plain values.
pub struct FutureStateView {
    pub data: Option<Seq<u8>>,
    pub waker: Option<Waker>,
}

/// The state a delivered future shares with its deliverer.
pub struct MyFutureState {
    pub data: Option<Vec<u8>>,
    pub waker: Option<Waker>,
}

impl View for MyFutureState {
    type V = FutureStateView;

    open spec fn view(&self) -> FutureStateView {
        FutureStateView {
            data: match self.data {
                Some(d) => Some(d@),
                None => None,
            },
            waker: self.waker,
        }
    }
}

/// One poll with waker `w`: take the data if it is there, else leave `w`
/// behind to be woken.
pub open spec fn poll_model(v: FutureStateView, w: Waker) -> (FutureStateView, PollResult<
    Seq<char>,
>) {
    match v.data {
        Some(d) => (FutureStateView { data: None, waker: v.waker }, PollResult::Ready(decode_utf8(d))),
        None => (FutureStateView { data: None, waker: Some(w) }, PollResult::Pending),
    }
}

/// The deliverer stores `d`.
pub open spec fn deliver_model(v: FutureStateView, d: Seq<u8>) -> FutureStateView {
    FutureStateView { data: Some(d), waker: v.waker }
}

/// The deliverer takes the waker left behind, if any.
pub open spec fn take_waker_model(v: FutureStateView) -> (FutureStateView, Option<Waker>) {
    (FutureStateView { data: v.data, waker: None }, v.waker)
}

/// The text view of a poll's answer.
pub open spec fn text_outcome(r: PollResult<String>) -> PollResult<Seq<char>> {
    match r {
        PollResult::Pending => PollResult::Pending,
        PollResult::Ready(s) => PollResult::Ready(s@),
    }
}

impl MyFutureState {
    /// The state before anything has happened: no data, no waker.
    pub fn new() -> (s: MyFutureState)
        ensures
            s@.data is None,
            s@.waker is None,
    {
        MyFutureState { data: None, waker: None }
    }

    /// One poll with waker `waker`. Data that is there is taken and read as
    /// text (the future completes); otherwise `waker` is kept, to be woken
    /// when the data arrives.
    pub fn poll_step(&mut self, waker: Waker) -> (r: PollResult<String>)
        requires
            old(self)@.data matches Some(d) ==> valid_utf8(d),
        ensures
            (final(self)@, text_outcome(r)) == poll_model(old(self)@, waker),
    {
        match self.data.take() {
            Some(data) => {
                let text = string_from_utf8(data);
                match text {
                    Some(s) => PollResult::Ready(s),
                    None => PollResult::Pending,
                }
            },
            None => {
                self.waker = Some(waker);
                PollResult::Pending
            },
        }
    }

    /// Stores the delivered bytes.
    pub fn deliver(&mut self, data: Vec<u8>)
        ensures
            final(self)@ == deliver_model(old(self)@, data@),
    {
        self.data = Some(data);
    }

    /// Takes the waker that a poll left behind, if any.
    pub fn take_waker(&mut self) -> (w: Option<Waker>)
        ensures
            (final(self)@, w) == take_waker_model(old(self)@),
    {
        self.waker.take()
    }
}

/// A future that completes with the text delivered into its shared state.
pub struct MyFuture {
    pub state: Arc<Mutex<MyFutureState>>,
}

impl MyFuture {
    /// A fresh future and a handle on the state it shares, for the
    /// deliverer. The lock is made over `MyFutureState::new()`; what is
    /// proved is that the future's handle and the returned one are equal
    /// values. What the lock holds is not stated: a lock's contents are out
    /// of Verus's sight.
    pub fn new() -> (r: (MyFuture, Arc<Mutex<MyFutureState>>))
        ensures
            r.0.state == r.1,
    {
        let state = Arc::new(new_mutex(MyFutureState::new()));
        (MyFuture { state: state.clone() }, state)
    }
}

/// Once bytes have been delivered, a poll completes with them read as
/// text and clears them.
pub proof fn law_poll_reads_delivery(v: FutureStateView, d: Seq<u8>, w: Waker)
    ensures
        poll_model(deliver_model(v, d), w).1 == PollResult::Ready(decode_utf8(d)),
        poll_model(deliver_model(v, d), w).0.data is None,
{
}

/// A poll never leaves data behind: it either takes the data that was
/// there or, when there was none, there is still none. It completes only
/// with delivered data, read as text, and a completing poll leaves any
/// waker in place. So a future polled any number of times before a delivery
/// answers `Pending` each time.
pub proof fn law_poll_creates_no_data(v: FutureStateView, w: Waker, w2: Waker)
    ensures
        poll_model(v, w).0.data is None,
        poll_model(v, w).1 matches PollResult::Ready(t) ==> (v.data matches Some(d) && t
            == decode_utf8(d)),
        v.data is None ==> poll_model(v, w).1 == PollResult::<Seq<char>>::Pending,
        v.data is None ==> poll_model(poll_model(v, w).0, w2).1 == PollResult::<
            Seq<char>,
        >::Pending,
        v.data is Some ==> poll_model(v, w).0.waker == v.waker,
{
}

/// Taking the waker hands back the one that was left and leaves none, so a
/// second take gets nothing; the data is not touched.
pub proof fn law_waker_taken_once(v: FutureStateView)
    ensures
        take_waker_model(v).1 == v.waker,
        take_waker_model(take_waker_model(v).0).1 is None,
        take_waker_model(v).0.data == v.data,
{
}

/// No wake-up is lost: a future polled before its data arrives leaves its
/// waker, the deliverer that stores the data takes exactly that waker, and
/// the poll that follows completes with the delivered text.
pub proof fn law_no_lost_wakeup(v: FutureStateView, d: Seq<u8>, w: Waker, w2: Waker)
    requires
        v.data is None,
    ensures
        ({
            let (after_poll, first) = poll_model(v, w);
            let (after_take, taken) = take_waker_model(deliver_model(after_poll, d));
            let (after_second, second) = poll_model(after_take, w2);
            &&& first == PollResult::<Seq<char>>::Pending
            &&& taken == Some(w)
            &&& second == PollResult::Ready(decode_utf8(d))
            &&& after_second.data is None
        }),
{
}

} // verus!
