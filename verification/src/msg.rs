//! Messaging.
//!
//! A thread receives through its mailbox. The mailbox keeps the messages that
//! were sent to the thread and not yet received, oldest first, and has room
//! for one message of each sender under each interface: a sender whose
//! earlier message is still there is told that it is pending.
//!
//! A message travels as bytes in an [`Envelope`] that names the sender and
//! the interface. [`Sender`] and [`Receiver`] are the typed ends.
//!
//! A call that blocks is made in steps, as [`crate::wait`] describes: a step
//! of it reports [`Progress::Blocked`] where the caller has to wait.
use vstd::prelude::*;
use vstd::slice::slice_to_vec;
use crate::path::Interface;
use crate::path::InterfaceView;
use crate::path::Uid;
use crate::rsc::Handle;
use crate::thread::Thread;
use crate::thread::ThreadView;
use crate::wait::bounded;
use crate::wait::bounded_by;
use crate::wait::is_over;
use crate::wait::over;
use crate::wait::Progress;
use std::marker::PhantomData;
use std::rc::Rc;
use std::time::Duration;

verus! {

/// Message that can be received.
///
/// The library does not read an implementation of this trait. Of what its
/// functions return it knows what they have stated of themselves, and no
/// more: see [`declares`] and [`decodes`].
pub trait Input: Sized {
    /// Interface that is used in communication.
    fn interface() -> &'static Rc<Interface>;

    /// Construct the message from the bytes that were received.
    fn from_msg_bytes(b: &[u8]) -> Self;
}

/// Data that can be sent by the Sender.
///
/// The library does not read an implementation of this trait. Of what its
/// function returns it knows what the function has stated of itself, and no
/// more: see [`encodes`].
pub trait Output {
    /// Bytes that will be sent by the Sender.
    fn as_msg_bytes(&self) -> &[u8];
}

/// A signal: a message without content, which notifies by its interface
/// alone.
impl Output for () {
    fn as_msg_bytes(&self) -> (b: &[u8])
        ensures
            b@ == Seq::<u8>::empty(),
    {
        let none: &'static [u8] = &[];
        assert(none@ =~= Seq::<u8>::empty());
        none
    }
}

/// Whether `bytes` can be what `msg` gives as its bytes.
pub open spec fn encodes<O: Output>(msg: &O, bytes: Seq<u8>) -> bool {
    exists|b: &[u8]| #[trigger] call_ensures(O::as_msg_bytes, (msg,), b) && b@ == bytes
}

/// Whether `message` can be what the type `I` makes of `bytes`.
pub open spec fn decodes<I: Input>(bytes: Seq<u8>, message: I) -> bool {
    exists|b: &[u8]| b@ == bytes && #[trigger] call_ensures(I::from_msg_bytes, (b,), message)
}

/// Whether `interface` can be what the type `I` names as its interface.
pub open spec fn declares<I: Input>(interface: InterfaceView) -> bool {
    exists|i: &'static Rc<Interface>| #[trigger]
        call_ensures(I::interface, (), i) && i@ == interface
}

/// Error encountered on receiving.
#[derive(Clone, Copy, Debug, PartialEq, Eq, Structural)]
pub enum ReceiveError {
    /// The sending thread has died.
    Died,
    /// Connection with this thread was lost.
    ConnectionLost,
    /// Interface used to communicate is not the one that the messages are
    /// of.
    Unsupported,
}

/// Error encountered on sending.
#[derive(Clone, Copy, Debug, PartialEq, Eq, Structural)]
pub enum SendError {
    /// Receiver has died.
    Died,
    /// Connection with this thread was lost.
    ConnectionLost,
}

/// Error encountered on sending into a mailbox.
#[derive(Clone, Copy, Debug, PartialEq, Eq, Structural)]
pub enum MailboxSendError {
    /// Normal send error.
    Send(SendError),
    /// Mailbox already has some mail pending. Mailbox can contain only one
    /// mail of the same sender under the same interface.
    Pending,
}

/// What an [`Envelope`] is: who sent it, under which interface, and the bytes
/// of the message.
pub struct EnvelopeView {
    pub sender: ThreadView,
    pub interface: InterfaceView,
    pub payload: Seq<u8>,
}

/// The envelopes that come from `sender`, if one is named, and were sent
/// under `interface`, if one is named: under an interface that is the same,
/// as [`InterfaceView::same`] says.
pub open spec fn wanted(sender: Option<Uid>, interface: Option<InterfaceView>) -> spec_fn(
    EnvelopeView,
) -> bool {
    |e: EnvelopeView|
        {
            &&& sender matches Some(u) ==> e.sender.instance.uid == u
            &&& interface matches Some(i) ==> e.interface.same(i)
        }
}

/// Position of the oldest of the envelopes `s`, which stand oldest first, of
/// which `wanted` holds.
pub open spec fn oldest(s: Seq<EnvelopeView>, wanted: spec_fn(EnvelopeView) -> bool) -> Option<int>
    decreases s.len(),
{
    if s.len() == 0 {
        None
    } else if wanted(s[0]) {
        Some(0)
    } else {
        match oldest(s.drop_first(), wanted) {
            Some(i) => Some(i + 1),
            None => None,
        }
    }
}

/// What `oldest` finds is an envelope of which `wanted` holds and before
/// which there is no other; it finds none only where there is none.
pub proof fn oldest_is_first(s: Seq<EnvelopeView>, wanted: spec_fn(EnvelopeView) -> bool)
    ensures
        match oldest(s, wanted) {
            Some(i) => 0 <= i < s.len() && wanted(s[i]) && forall|j: int|
                0 <= j < i ==> !wanted(#[trigger] s[j]),
            None => forall|j: int| 0 <= j < s.len() ==> !wanted(#[trigger] s[j]),
        },
    decreases s.len(),
{
    if s.len() > 0 && !wanted(s[0]) {
        let rest = s.drop_first();
        oldest_is_first(rest, wanted);
        assert(forall|j: int| 0 < j < s.len() ==> s[j] == rest[j - 1]);
        match oldest(rest, wanted) {
            Some(i) => {
                assert forall|j: int| 0 <= j < i + 1 implies !wanted(#[trigger] s[j]) by {
                    if j > 0 {
                        assert(s[j] == rest[j - 1]);
                    }
                }
            },
            None => {
                assert forall|j: int| 0 <= j < s.len() implies !wanted(#[trigger] s[j]) by {
                    if j > 0 {
                        assert(s[j] == rest[j - 1]);
                    }
                }
            },
        }
    }
}

/// Where the first envelope of which `wanted` holds stands at `i`, `oldest`
/// finds it there.
pub proof fn first_is_oldest(s: Seq<EnvelopeView>, wanted: spec_fn(EnvelopeView) -> bool, i: int)
    requires
        0 <= i < s.len(),
        wanted(s[i]),
        forall|j: int| 0 <= j < i ==> !wanted(#[trigger] s[j]),
    ensures
        oldest(s, wanted) == Some(i),
{
    oldest_is_first(s, wanted);
}

/// Whether no two of the envelopes `s` have both the sender and the
/// interface in common.
pub open spec fn single_pending(s: Seq<EnvelopeView>) -> bool {
    forall|i: int, j: int|
        0 <= i < j < s.len() ==> !(#[trigger] s[i].sender.instance.uid
            == #[trigger] s[j].sender.instance.uid && s[i].interface.same(s[j].interface))
}

/// The mailbox `s` after `e` was handed in, and what the sender is told: the
/// envelope is refused as pending where the mailbox holds one of the same
/// sender under the same interface, and else put behind all others.
pub open spec fn deposited(s: Seq<EnvelopeView>, e: EnvelopeView) -> (
    Seq<EnvelopeView>,
    Result<(), MailboxSendError>,
) {
    if oldest(s, wanted(Some(e.sender.instance.uid), Some(e.interface))) is Some {
        (s, Err(MailboxSendError::Pending))
    } else {
        (s.push(e), Ok(()))
    }
}

/// The mailbox `s` after the oldest envelope of which `wanted` holds was
/// taken out of it, and that envelope.
pub open spec fn taken(s: Seq<EnvelopeView>, wanted: spec_fn(EnvelopeView) -> bool) -> (
    Seq<EnvelopeView>,
    Option<EnvelopeView>,
) {
    match oldest(s, wanted) {
        Some(i) => (s.remove(i), Some(s[i])),
        None => (s, None),
    }
}

/// A received message that was not yet given a type. It carries the identity
/// of the sending thread and the interface under which it was sent.
pub struct Envelope {
    sender: Rc<Thread>,
    interface: Rc<Interface>,
    payload: Vec<u8>,
}

/// A message that was received and accepted as one of type `T`.
pub struct Received<T> {
    /// The thread that sent the message.
    pub sender: Rc<Thread>,
    pub message: T,
}

impl View for Envelope {
    type V = EnvelopeView;

    closed spec fn view(&self) -> EnvelopeView {
        EnvelopeView { sender: self.sender@, interface: self.interface@, payload: self.payload@ }
    }
}

impl Envelope {
    /// The envelope that carries `payload` from `sender` under `interface`.
    pub fn new(sender: Rc<Thread>, interface: Rc<Interface>, payload: Vec<u8>) -> (e: Self)
        ensures
            e@ == (EnvelopeView { sender: sender@, interface: interface@, payload: payload@ }),
    {
        Envelope { sender, interface, payload }
    }

    /// The thread that sent the message.
    pub fn sender(&self) -> (t: &Rc<Thread>)
        ensures
            t@ == self@.sender,
    {
        &self.sender
    }

    /// The interface under which the message was sent.
    pub fn interface(&self) -> (i: &Rc<Interface>)
        ensures
            i@ == self@.interface,
    {
        &self.interface
    }

    /// The bytes of the message.
    pub fn payload(&self) -> (b: &Vec<u8>)
        ensures
            b@ == self@.payload,
    {
        &self.payload
    }

    /// Whether the envelope was sent under `interface`.
    pub fn is_under(&self, interface: &Interface) -> (under: bool)
        ensures
            under == self@.interface.same(interface@),
    {
        *self.interface == *interface
    }

    /// Accepts the message as one of type `I`. The envelope must have been
    /// sent under the interface that `I` names: any other is `Unsupported`.
    /// Else the message is what `I` makes of the bytes.
    pub fn accept<I: Input>(self) -> (r: Result<Received<I>, ReceiveError>)
        ensures
            exists|declared: InterfaceView|
                #![trigger declares::<I>(declared)]
                {
                    &&& declares::<I>(declared)
                    &&& !self@.interface.same(declared) ==> r == Err::<Received<I>, ReceiveError>(
                        ReceiveError::Unsupported,
                    )
                    &&& self@.interface.same(declared) ==> r is Ok && r->Ok_0.sender@
                        == self@.sender && decodes(self@.payload, r->Ok_0.message)
                },
    {
        let declared = I::interface();
        assert(declares::<I>(declared@));
        if self.is_under(&**declared) {
            let message = I::from_msg_bytes(self.payload.as_slice());
            Ok(Received { sender: self.sender, message })
        } else {
            Err(ReceiveError::Unsupported)
        }
    }
}

/// What each of the given envelopes is.
pub open spec fn envelope_views(pending: Seq<Envelope>) -> Seq<EnvelopeView> {
    pending.map_values(|e: Envelope| e@)
}

/// The interface that `interface` refers to, if any.
pub open spec fn tag_of(interface: Option<&Interface>) -> Option<InterfaceView> {
    match interface {
        Some(i) => Some(i@),
        None => None,
    }
}

/// The mail that was sent to a thread and not yet received, oldest first. It
/// never holds two messages of the same sender under the same interface.
pub struct Mailbox {
    pending: Vec<Envelope>,
}

impl View for Mailbox {
    type V = Seq<EnvelopeView>;

    closed spec fn view(&self) -> Seq<EnvelopeView> {
        envelope_views(self.pending@)
    }
}

impl Mailbox {
    #[verifier::type_invariant]
    spec fn well_formed(&self) -> bool {
        single_pending(envelope_views(self.pending@))
    }

    /// An empty mailbox.
    pub fn new() -> (m: Self)
        ensures
            m@ == Seq::<EnvelopeView>::empty(),
            single_pending(m@),
    {
        let m = Mailbox { pending: Vec::new() };
        assert(m@ =~= Seq::<EnvelopeView>::empty());
        m
    }

    /// Number of messages that wait in the mailbox.
    pub fn len(&self) -> (n: usize)
        ensures
            n == self@.len(),
    {
        self.pending.len()
    }

    /// Whether no message waits in the mailbox.
    pub fn is_empty(&self) -> (empty: bool)
        ensures
            empty == (self@.len() == 0),
    {
        self.pending.len() == 0
    }

    /// Position of the oldest envelope from `sender`, if one is named, under
    /// `interface`, if one is named.
    fn position(&self, sender: Option<Uid>, interface: Option<&Interface>) -> (at: Option<usize>)
        ensures
            match at {
                Some(i) => oldest(self@, wanted(sender, tag_of(interface))) == Some(i as int) && i
                    < self@.len(),
                None => oldest(self@, wanted(sender, tag_of(interface))) is None,
            },
    {
        let ghost pred = wanted(sender, tag_of(interface));
        let mut i: usize = 0;
        while i < self.pending.len()
            invariant
                i <= self.pending@.len(),
                pred == wanted(sender, tag_of(interface)),
                forall|j: int| 0 <= j < i ==> !pred(#[trigger] self@[j]),
            decreases self.pending@.len() - i,
        {
            let e = &self.pending[i];
            let from_sender = match sender {
                Some(u) => e.sender.uid() == u,
                None => true,
            };
            let under_interface = match interface {
                Some(wanted_interface) => *e.interface == *wanted_interface,
                None => true,
            };
            assert(self@[i as int] == e@);
            if from_sender && under_interface {
                proof {
                    first_is_oldest(self@, pred, i as int);
                }
                return Some(i);
            }
            i += 1;
        }
        proof {
            oldest_is_first(self@, pred);
        }
        None
    }

    /// Takes out the envelope at position `i`.
    fn remove(&mut self, i: usize) -> (e: Envelope)
        requires
            i < old(self)@.len(),
        ensures
            e@ == old(self)@[i as int],
            final(self)@ == old(self)@.remove(i as int),
    {
        proof {
            use_type_invariant(&*self);
        }
        let ghost before = self@;
        let mut pending: Vec<Envelope> = Vec::new();
        std::mem::swap(&mut self.pending, &mut pending);
        let e = pending.remove(i);
        proof {
            assert(envelope_views(pending@) =~= before.remove(i as int));
            single_pending_without(before, i as int);
        }
        self.pending = pending;
        e
    }

    /// Whether a message from `sender` under `interface` waits in the
    /// mailbox.
    pub fn is_pending(&self, sender: Uid, interface: &Interface) -> (pending: bool)
        ensures
            pending == (oldest(self@, wanted(Some(sender), Some(interface@))) is Some),
    {
        self.position(Some(sender), Some(interface)).is_some()
    }

    /// Hands in an envelope. It is put behind all others, unless a message
    /// of the same sender under the same interface still waits: then it is
    /// refused as `Pending` and the mailbox stays as it is.
    pub fn deposit(&mut self, envelope: Envelope) -> (r: Result<(), MailboxSendError>)
        ensures
            (final(self)@, r) == deposited(old(self)@, envelope@),
            single_pending(final(self)@),
    {
        proof {
            use_type_invariant(&*self);
        }
        let ghost before = self@;
        let ghost e = envelope@;
        if self.position(Some(envelope.sender.uid()), Some(&*envelope.interface)).is_some() {
            Err(MailboxSendError::Pending)
        } else {
            let mut pending: Vec<Envelope> = Vec::new();
            std::mem::swap(&mut self.pending, &mut pending);
            pending.push(envelope);
            proof {
                assert(envelope_views(pending@) =~= before.push(e));
                single_pending_with(before, e);
            }
            self.pending = pending;
            Ok(())
        }
    }

    /// Takes out the oldest envelope from `sender`, if one is named, under
    /// `interface`, if one is named.
    fn take_oldest(&mut self, sender: Option<Uid>, interface: Option<&Interface>) -> (e: Option<
        Envelope,
    >)
        ensures
            match taken(old(self)@, wanted(sender, tag_of(interface))) {
                (rest, Some(first)) => e is Some && e->0@ == first && final(self)@ == rest,
                (rest, None) => e is None && final(self)@ == rest,
            },
            single_pending(final(self)@),
    {
        let found = match self.position(sender, interface) {
            Some(i) => Some(self.remove(i)),
            None => None,
        };
        proof {
            use_type_invariant(&*self);
        }
        found
    }

    /// Receives the oldest message, whoever sent it; `None` if the mailbox
    /// is empty.
    pub fn receive(&mut self) -> (e: Option<Envelope>)
        ensures
            match e {
                Some(e) => old(self)@.len() > 0 && e@ == old(self)@[0] && final(self)@ == old(
                    self,
                )@.drop_first(),
                None => old(self)@.len() == 0 && final(self)@ == old(self)@,
            },
            single_pending(final(self)@),
    {
        let ghost before = self@;
        let e = self.take_oldest(None, None);
        proof {
            if before.len() > 0 {
                first_is_oldest(before, wanted(None, None), 0);
                assert(before.remove(0) =~= before.drop_first());
            }
        }
        e
    }

    /// Receives the oldest message that `thread` sent; `None` if there is
    /// none.
    pub fn receive_from(&mut self, thread: Uid) -> (e: Option<Envelope>)
        ensures
            match taken(old(self)@, wanted(Some(thread), None)) {
                (rest, Some(first)) => e is Some && e->0@ == first && final(self)@ == rest,
                (rest, None) => e is None && final(self)@ == rest,
            },
            single_pending(final(self)@),
    {
        self.take_oldest(Some(thread), None)
    }

    /// Takes out the message from `sender` under `interface`; `None` if
    /// there is none.
    pub fn take(&mut self, sender: Uid, interface: &Interface) -> (e: Option<Envelope>)
        ensures
            match taken(old(self)@, wanted(Some(sender), Some(interface@))) {
                (rest, Some(first)) => e is Some && e->0@ == first && final(self)@ == rest,
                (rest, None) => e is None && final(self)@ == rest,
            },
            single_pending(final(self)@),
    {
        self.take_oldest(Some(sender), Some(interface))
    }

    /// The oldest message under `interface`, which stays in the mailbox;
    /// `None` if there is none.
    pub fn peek(&self, interface: &Interface) -> (e: Option<&Envelope>)
        ensures
            match oldest(self@, wanted(None, Some(interface@))) {
                Some(i) => e is Some && e->0@ == self@[i],
                None => e is None,
            },
    {
        match self.position(None, Some(interface)) {
            Some(i) => {
                assert(self@[i as int] == self.pending@[i as int]@);
                Some(&self.pending[i])
            },
            None => None,
        }
    }

    /// Whether a message under one of `interfaces` waits in the mailbox.
    pub fn has_any(&self, interfaces: &[&Interface]) -> (any: bool)
        ensures
            any == any_under(self@, interfaces@),
    {
        let mut k: usize = 0;
        while k < interfaces.len()
            invariant
                k <= interfaces@.len(),
                forall|j: int|
                    0 <= j < k ==> oldest(self@, wanted(None, Some(#[trigger] interfaces@[j]@)))
                        is None,
            decreases interfaces@.len() - k,
        {
            if self.position(None, Some(interfaces[k])).is_some() {
                return true;
            }
            k += 1;
        }
        false
    }
}

/// Whether thread has any unread messages in the mailbox.
pub fn has_incoming(mailbox: &Mailbox) -> (incoming: bool)
    ensures
        incoming == (mailbox@.len() > 0),
{
    !mailbox.is_empty()
}

/// Whether a message under one of `interfaces` waits in `s`.
pub open spec fn any_under(s: Seq<EnvelopeView>, interfaces: Seq<&Interface>) -> bool {
    exists|k: int|
        0 <= k < interfaces.len() && oldest(s, wanted(None, Some(#[trigger] interfaces[k]@)))
            is Some
}

/// One step of waiting for any message under one of the given interfaces,
/// from any thread, for as long as it takes: the wait ends when such a
/// message is in the mailbox.
pub fn wait_any(mailbox: &Mailbox, interfaces: &[&Interface]) -> (r: Progress<()>)
    ensures
        r == if any_under(mailbox@, interfaces@) {
            Progress::Done(())
        } else {
            Progress::Blocked
        },
{
    if mailbox.has_any(interfaces) {
        Progress::Done(())
    } else {
        Progress::Blocked
    }
}

/// One step of waiting for any message under one of the given interfaces,
/// from any thread, for the time `wait` at most, of which `waited` has
/// passed. The wait ends with `Some` when such a message is in the mailbox,
/// and else with `None` when the time has run out.
pub fn wait_any_for(
    mailbox: &Mailbox,
    wait: Duration,
    interfaces: &[&Interface],
    waited: Duration,
) -> (r: Progress<Option<()>>)
    ensures
        r == if any_under(mailbox@, interfaces@) {
            Progress::Done(Some(()))
        } else if over(wait, waited) {
            Progress::Done(None)
        } else {
            Progress::Blocked
        },
{
    bounded(wait_any(mailbox, interfaces), &wait, &waited)
}

/// The mailbox `s` of the thread `dest` after `e` was sent to it, and what
/// the sender is told. Nothing is sent to a thread that has died, nor to one
/// to which the connection was lost; else the mailbox decides.
pub open spec fn sent(dest: ThreadView, s: Seq<EnvelopeView>, e: EnvelopeView) -> (
    Seq<EnvelopeView>,
    Result<(), MailboxSendError>,
) {
    if dest.state.dead() {
        (s, Err(MailboxSendError::Send(SendError::Died)))
    } else if !dest.reachable {
        (s, Err(MailboxSendError::Send(SendError::ConnectionLost)))
    } else {
        deposited(s, e)
    }
}

/// What a thread is told that wants to hand the rest of its time to `dest`:
/// that `dest` has died, or else that there is no connection over which time
/// could be handed, where `dest` cannot be reached or does not run on the
/// same computing unit, or else that the time is handed over.
pub open spec fn time_transfer(dest: ThreadView, same_unit: bool) -> Result<(), SendError> {
    if dest.state.dead() {
        Err(SendError::Died)
    } else if !dest.reachable || !same_unit {
        Err(SendError::ConnectionLost)
    } else {
        Ok(())
    }
}

/// What a sender that waits for its place in the mailbox is told, given what
/// a plain send was told: where the earlier message is still pending, the
/// sender is blocked.
pub open spec fn when_available(sent: Result<(), MailboxSendError>) -> Result<
    Progress<()>,
    SendError,
> {
    match sent {
        Ok(()) => Ok(Progress::Done(())),
        Err(MailboxSendError::Pending) => Ok(Progress::Blocked),
        Err(MailboxSendError::Send(e)) => Err(e),
    }
}

/// How far a rendezvous has come.
#[derive(Clone, Copy, Debug, PartialEq, Eq, Structural)]
pub enum Rendezvous {
    /// The message has not entered the mailbox yet: an earlier message of the
    /// sender under the interface has to be received first.
    Queued,
    /// The message waits in the mailbox for the receiver to take it.
    Offered,
    /// The receiver has taken the message: the rendezvous has succeeded.
    Taken,
    /// The time ran out before the receiver took the message. The message was
    /// not delivered.
    Expired,
}

/// The mailbox `s` of the thread `dest` after one step of a rendezvous that
/// stood at `at`, and where the rendezvous stands then. `e` is the envelope
/// of the message, and `expired` says whether the time of the rendezvous has
/// run out.
///
/// A message that is queued is sent as by a plain send, unless the time has
/// run out; while an earlier message is pending it stays queued. A message
/// that was offered is taken once it has left the mailbox. If it is still
/// there, it is taken back where the rendezvous cannot go on: where `dest`
/// has died, where the connection to it was lost, and where the time has run
/// out. A rendezvous that has ended stays as it is.
pub open spec fn rendezvous_after(
    at: Rendezvous,
    expired: bool,
    dest: ThreadView,
    s: Seq<EnvelopeView>,
    e: EnvelopeView,
) -> (Seq<EnvelopeView>, Result<Rendezvous, SendError>) {
    let slot = wanted(Some(e.sender.instance.uid), Some(e.interface));
    match at {
        Rendezvous::Queued => if expired {
            (s, Ok(Rendezvous::Expired))
        } else {
            match sent(dest, s, e) {
                (after, Ok(())) => (after, Ok(Rendezvous::Offered)),
                (after, Err(MailboxSendError::Pending)) => (after, Ok(Rendezvous::Queued)),
                (after, Err(MailboxSendError::Send(error))) => (after, Err(error)),
            }
        },
        Rendezvous::Offered => if oldest(s, slot) is None {
            (s, Ok(Rendezvous::Taken))
        } else if dest.state.dead() {
            (taken(s, slot).0, Err(SendError::Died))
        } else if !dest.reachable {
            (taken(s, slot).0, Err(SendError::ConnectionLost))
        } else if expired {
            (taken(s, slot).0, Ok(Rendezvous::Expired))
        } else {
            (s, Ok(Rendezvous::Offered))
        },
        Rendezvous::Taken => (s, Ok(Rendezvous::Taken)),
        Rendezvous::Expired => (s, Ok(Rendezvous::Expired)),
    }
}

/// Sender is used to send messages to one destination thread under one
/// interface that the receiving thread supports. Its output type is the one
/// that the interface defines and the receiver expects.
pub struct Sender<O: Output> {
    dest: Rc<Thread>,
    interface: Rc<Interface>,
    _output: PhantomData<O>,
}

impl<O: Output> Sender<O> {
    /// The thread that the messages go to.
    pub closed spec fn peer(&self) -> ThreadView {
        self.dest@
    }

    /// The interface that the messages are sent under.
    pub closed spec fn tag(&self) -> InterfaceView {
        self.interface@
    }

    /// The envelope in which `payload` travels when `from` sends it.
    pub open spec fn envelope(&self, from: ThreadView, payload: Seq<u8>) -> EnvelopeView {
        EnvelopeView { sender: from, interface: self.tag(), payload }
    }

    /// The place in a mailbox that is kept for what `from` sends through this
    /// sender.
    pub open spec fn slot(&self, from: ThreadView) -> spec_fn(EnvelopeView) -> bool {
        wanted(Some(from.instance.uid), Some(self.tag()))
    }

    /// A sender to `dest` under `interface`.
    pub fn new(dest: Rc<Thread>, interface: Rc<Interface>) -> (sender: Self)
        ensures
            sender.peer() == dest@,
            sender.tag() == interface@,
    {
        Sender { dest, interface, _output: PhantomData }
    }

    /// The thread that the messages go to.
    pub fn dest(&self) -> (t: &Rc<Thread>)
        ensures
            t@ == self.peer(),
    {
        &self.dest
    }

    /// The interface that the messages are sent under.
    pub fn interface(&self) -> (i: &Rc<Interface>)
        ensures
            i@ == self.tag(),
    {
        &self.interface
    }

    /// Sends the bytes `payload` into `mailbox`, the mailbox of the
    /// destination thread, in the name of the thread `from`.
    ///
    /// The message is refused with `Died` where the destination has ended,
    /// else with `ConnectionLost` where the connection to it was lost, else
    /// with `Pending` where an earlier message of `from` under this interface
    /// still waits. A refused message leaves the mailbox as it is.
    pub fn send_bytes(&self, from: &Rc<Thread>, mailbox: &mut Mailbox, payload: &[u8]) -> (r:
        Result<(), MailboxSendError>)
        ensures
            (final(mailbox)@, r) == sent(
                self.peer(),
                old(mailbox)@,
                self.envelope(from@, payload@),
            ),
            single_pending(final(mailbox)@),
    {
        proof {
            use_type_invariant(&*mailbox);
        }
        if self.dest.state().is_dead() {
            return Err(MailboxSendError::Send(SendError::Died));
        }
        if !self.dest.is_reachable() {
            return Err(MailboxSendError::Send(SendError::ConnectionLost));
        }
        mailbox.deposit(
            Envelope::new(Rc::clone(from), Rc::clone(&self.interface), slice_to_vec(payload)),
        )
    }

    /// Send message into `mailbox`, the mailbox of the destination thread,
    /// in the name of the thread `from`. This does not block, and does not
    /// guarantee that the message will be received: the receiver may discard
    /// it, or cease without reading.
    ///
    /// What is sent are the bytes that `msg` gives; the rest is as in
    /// [`Self::send_bytes`].
    pub fn send(&self, from: &Rc<Thread>, mailbox: &mut Mailbox, msg: &O) -> (r: Result<
        (),
        MailboxSendError,
    >)
        ensures
            exists|payload: Seq<u8>|
                #![trigger encodes(msg, payload)]
                encodes(msg, payload) && (final(mailbox)@, r) == sent(
                    self.peer(),
                    old(mailbox)@,
                    self.envelope(from@, payload),
                ),
            single_pending(final(mailbox)@),
    {
        let payload = msg.as_msg_bytes();
        assert(encodes(msg, payload@));
        self.send_bytes(from, mailbox, payload)
    }

    /// One step of a send that waits until the mailbox is available. It is
    /// the same as [`Self::send`], but where an earlier message is pending
    /// the sender is blocked, and sends when the place is free again.
    pub fn send_when_available(&self, from: &Rc<Thread>, mailbox: &mut Mailbox, msg: &O) -> (r:
        Result<Progress<()>, SendError>)
        ensures
            exists|payload: Seq<u8>|
                #![trigger encodes(msg, payload)]
                {
                    let (after, told) = sent(
                        self.peer(),
                        old(mailbox)@,
                        self.envelope(from@, payload),
                    );
                    encodes(msg, payload) && final(mailbox)@ == after && r == when_available(told)
                },
            single_pending(final(mailbox)@),
    {
        let payload = msg.as_msg_bytes();
        assert(encodes(msg, payload@));
        match self.send_bytes(from, mailbox, payload) {
            Ok(()) => Ok(Progress::Done(())),
            Err(MailboxSendError::Pending) => Ok(Progress::Blocked),
            Err(MailboxSendError::Send(e)) => Err(e),
        }
    }

    /// Send the remaining processor time of the caller to the destination,
    /// which then resumes at once and may send the time back. This works only
    /// between threads on the same computing unit; `same_unit` says whether
    /// the caller and the destination run on one.
    ///
    /// `Ok` says that the time is to be handed over.
    pub fn transfer_time(&self, same_unit: bool) -> (r: Result<(), SendError>)
        ensures
            r == time_transfer(self.peer(), same_unit),
    {
        if self.dest.state().is_dead() {
            Err(SendError::Died)
        } else if !self.dest.is_reachable() || !same_unit {
            Err(SendError::ConnectionLost)
        } else {
            Ok(())
        }
    }

    /// One step of a rendezvous that stands at `at`, with the bytes `payload`
    /// as the message; `expired` says whether the time of the rendezvous has
    /// run out.
    pub fn rendezvous_step(
        &self,
        from: &Rc<Thread>,
        mailbox: &mut Mailbox,
        payload: &[u8],
        at: Rendezvous,
        expired: bool,
    ) -> (r: Result<Rendezvous, SendError>)
        ensures
            (final(mailbox)@, r) == rendezvous_after(
                at,
                expired,
                self.peer(),
                old(mailbox)@,
                self.envelope(from@, payload@),
            ),
            single_pending(final(mailbox)@),
    {
        proof {
            use_type_invariant(&*mailbox);
        }
        match at {
            Rendezvous::Queued => {
                if expired {
                    return Ok(Rendezvous::Expired);
                }
                match self.send_bytes(from, mailbox, payload) {
                    Ok(()) => Ok(Rendezvous::Offered),
                    Err(MailboxSendError::Pending) => Ok(Rendezvous::Queued),
                    Err(MailboxSendError::Send(e)) => Err(e),
                }
            },
            Rendezvous::Offered => {
                if !self.is_pending(&**from, mailbox) {
                    Ok(Rendezvous::Taken)
                } else if self.dest.state().is_dead() {
                    self.withdraw(&**from, mailbox);
                    Err(SendError::Died)
                } else if !self.dest.is_reachable() {
                    self.withdraw(&**from, mailbox);
                    Err(SendError::ConnectionLost)
                } else if expired {
                    self.withdraw(&**from, mailbox);
                    Ok(Rendezvous::Expired)
                } else {
                    Ok(Rendezvous::Offered)
                }
            },
            Rendezvous::Taken => Ok(Rendezvous::Taken),
            Rendezvous::Expired => Ok(Rendezvous::Expired),
        }
    }

    /// One step of sending the message by making rendezvous with the
    /// receiver. A rendezvous begins at `Queued` and has succeeded at
    /// `Taken`: then the receiver has acquired the message, which it may
    /// still discard unread. The message enters the mailbox only after the
    /// earlier messages of the sender under this interface were received.
    ///
    /// `at` is where the rendezvous stood after the step before.
    pub fn rendezvous(
        &self,
        from: &Rc<Thread>,
        mailbox: &mut Mailbox,
        msg: &O,
        at: Rendezvous,
    ) -> (r: Result<Rendezvous, SendError>)
        ensures
            exists|payload: Seq<u8>|
                #![trigger encodes(msg, payload)]
                encodes(msg, payload) && (final(mailbox)@, r) == rendezvous_after(
                    at,
                    false,
                    self.peer(),
                    old(mailbox)@,
                    self.envelope(from@, payload),
                ),
            single_pending(final(mailbox)@),
    {
        let payload = msg.as_msg_bytes();
        assert(encodes(msg, payload@));
        self.rendezvous_step(from, mailbox, payload, at, false)
    }

    /// One step of a rendezvous that takes `duration` at most, of which
    /// `waited` has passed. When the time has run out and the receiver has
    /// not taken the message, the rendezvous has `Expired`: the message is
    /// not delivered, and the mailbox is left without it.
    ///
    /// `at` is where the rendezvous stood after the step before.
    pub fn rendezvous_for(
        &self,
        from: &Rc<Thread>,
        mailbox: &mut Mailbox,
        msg: &O,
        duration: Duration,
        at: Rendezvous,
        waited: Duration,
    ) -> (r: Result<Rendezvous, SendError>)
        ensures
            exists|payload: Seq<u8>|
                #![trigger encodes(msg, payload)]
                encodes(msg, payload) && (final(mailbox)@, r) == rendezvous_after(
                    at,
                    over(duration, waited),
                    self.peer(),
                    old(mailbox)@,
                    self.envelope(from@, payload),
                ),
            single_pending(final(mailbox)@),
    {
        let payload = msg.as_msg_bytes();
        assert(encodes(msg, payload@));
        let expired = is_over(&duration, &waited);
        self.rendezvous_step(from, mailbox, payload, at, expired)
    }

    /// Whether the message that `from` sent last through this sender still
    /// waits in `mailbox`: whether the receiver has not taken it yet.
    pub fn is_pending(&self, from: &Thread, mailbox: &Mailbox) -> (pending: bool)
        ensures
            pending == (oldest(mailbox@, self.slot(from@)) is Some),
    {
        mailbox.is_pending(from.uid(), &*self.interface)
    }

    /// Takes back the message that `from` sent through this sender, if it
    /// still waits in `mailbox`, and says whether it did. A message that was
    /// taken back is not delivered: the mailbox is as if it had never been
    /// sent.
    pub fn withdraw(&self, from: &Thread, mailbox: &mut Mailbox) -> (withdrawn: bool)
        ensures
            final(mailbox)@ == taken(old(mailbox)@, self.slot(from@)).0,
            withdrawn == (oldest(old(mailbox)@, self.slot(from@)) is Some),
            single_pending(final(mailbox)@),
    {
        mailbox.take(from.uid(), &*self.interface).is_some()
    }
}

/// The mailbox `s` after a receiver of what `src` sends under `tag` has
/// received from it, and the bytes that it has received.
///
/// The message of `src` under `tag` is taken out, if there is one. If there
/// is none, the receiver is told `Died` where `src` has ended, else
/// `ConnectionLost` where the connection to it was lost, and else that
/// nothing has arrived.
pub open spec fn received(src: ThreadView, tag: InterfaceView, s: Seq<EnvelopeView>) -> (
    Seq<EnvelopeView>,
    Result<Option<Seq<u8>>, ReceiveError>,
) {
    match taken(s, wanted(Some(src.instance.uid), Some(tag))) {
        (rest, Some(e)) => (rest, Ok(Some(e.payload))),
        (_, None) => if src.state.dead() {
            (s, Err(ReceiveError::Died))
        } else if !src.reachable {
            (s, Err(ReceiveError::ConnectionLost))
        } else {
            (s, Ok(None))
        },
    }
}

/// Whether a receiver of messages of type `I` from `src` under `tag` can
/// report `r` and leave the mailbox as `after`, where it was `before`.
///
/// A receiver under an interface other than the one that `I` names receives
/// nothing: that is `Unsupported`, and the mailbox stays as it is. Else it
/// receives as [`received`] says, and the message is what `I` makes of the
/// bytes.
pub open spec fn receives<I: Input>(
    src: ThreadView,
    tag: InterfaceView,
    before: Seq<EnvelopeView>,
    after: Seq<EnvelopeView>,
    r: Result<Option<I>, ReceiveError>,
) -> bool {
    exists|declared: InterfaceView|
        #![trigger declares::<I>(declared)]
        {
            &&& declares::<I>(declared)
            &&& !tag.same(declared) ==> r == Err::<Option<I>, ReceiveError>(ReceiveError::Unsupported)
                && after == before
            &&& tag.same(declared) ==> match received(src, tag, before) {
                (rest, Ok(Some(bytes))) => after == rest && r is Ok && r->Ok_0 is Some && decodes(
                    bytes,
                    r->Ok_0->0,
                ),
                (rest, Ok(None)) => after == rest && r is Ok && r->Ok_0 is None,
                (rest, Err(e)) => after == rest && r == Err::<Option<I>, ReceiveError>(e),
            }
        }
}

/// What a receiver that waits for a message is told, given what a receiver
/// that does not wait was told: where nothing has arrived, the receiver is
/// blocked.
pub open spec fn until_arrival<T>(got: Result<Option<T>, ReceiveError>) -> Result<
    Progress<T>,
    ReceiveError,
> {
    match got {
        Ok(Some(message)) => Ok(Progress::Done(message)),
        Ok(None) => Ok(Progress::Blocked),
        Err(e) => Err(e),
    }
}

/// Receiver is used to receive messages from one other thread under one
/// interface that the sending thread supports. Its input type is the one
/// that the interface defines.
pub struct Receiver<I: Input> {
    src: Rc<Thread>,
    interface: Rc<Interface>,
    _input: PhantomData<I>,
}

impl<I: Input> Receiver<I> {
    /// The thread that the messages come from.
    pub closed spec fn peer(&self) -> ThreadView {
        self.src@
    }

    /// The interface that the messages are sent under.
    pub closed spec fn tag(&self) -> InterfaceView {
        self.interface@
    }

    /// Try creating a receiver for the given interface: one for the sender of
    /// the oldest mail under `interface` in `mailbox`. It returns `None` if
    /// the mailbox has no mail that matches the interface.
    ///
    /// The input type is not checked here. A receiver under an interface
    /// other than the one that `I` names receives nothing but `Unsupported`.
    pub fn new(interface: &Rc<Interface>, mailbox: &Mailbox) -> (r: Option<Self>)
        ensures
            match oldest(mailbox@, wanted(None, Some(interface@))) {
                Some(i) => r is Some && r->0.peer() == mailbox@[i].sender && r->0.tag()
                    == interface@,
                None => r is None,
            },
    {
        match mailbox.peek(&**interface) {
            Some(e) => Some(
                Receiver {
                    src: Rc::clone(e.sender()),
                    interface: Rc::clone(interface),
                    _input: PhantomData,
                },
            ),
            None => None,
        }
    }

    /// Create a receiver for the oldest mail of type `I` in the mailbox:
    /// the oldest under the interface that `I` names. If there is no such
    /// mail, `None` is returned.
    pub fn get(mailbox: &Mailbox) -> (r: Option<Self>)
        ensures
            exists|declared: InterfaceView|
                #![trigger declares::<I>(declared)]
                declares::<I>(declared) && match oldest(mailbox@, wanted(None, Some(declared))) {
                    Some(i) => r is Some && r->0.peer() == mailbox@[i].sender && r->0.tag()
                        == declared,
                    None => r is None,
                },
    {
        let declared = I::interface();
        assert(declares::<I>(declared@));
        Receiver::new(declared, mailbox)
    }

    /// One step of creating a receiver for the given interface, for as long
    /// as it takes: the same as [`Self::new`], but the caller is blocked
    /// until mail under the interface is in the mailbox.
    pub fn new_sync(interface: &Rc<Interface>, mailbox: &Mailbox) -> (r: Progress<Self>)
        ensures
            match oldest(mailbox@, wanted(None, Some(interface@))) {
                Some(i) => r is Done && r->Done_0.peer() == mailbox@[i].sender && r->Done_0.tag()
                    == interface@,
                None => r is Blocked,
            },
    {
        match Receiver::new(interface, mailbox) {
            Some(receiver) => Progress::Done(receiver),
            None => Progress::Blocked,
        }
    }

    /// One step of creating a receiver for the given interface within the
    /// time `time`, of which `waited` has passed: the same as
    /// [`Self::new_sync`], but `None` is returned when the time has run out.
    pub fn new_sync_for(
        time: Duration,
        interface: &Rc<Interface>,
        mailbox: &Mailbox,
        waited: Duration,
    ) -> (r: Progress<Option<Self>>)
        ensures
            match oldest(mailbox@, wanted(None, Some(interface@))) {
                Some(i) => r is Done && r->Done_0 is Some && r->Done_0->0.peer()
                    == mailbox@[i].sender && r->Done_0->0.tag() == interface@,
                None => r is Done == over(time, waited) && (r is Done ==> r->Done_0 is None),
            },
    {
        bounded(Receiver::new_sync(interface, mailbox), &time, &waited)
    }

    /// One step of creating a receiver for the oldest mail of type `I`, for
    /// as long as it takes: the same as [`Self::get`], but the caller is
    /// blocked until there is such mail.
    pub fn get_sync(mailbox: &Mailbox) -> (r: Progress<Self>)
        ensures
            exists|declared: InterfaceView|
                #![trigger declares::<I>(declared)]
                declares::<I>(declared) && match oldest(mailbox@, wanted(None, Some(declared))) {
                    Some(i) => r is Done && r->Done_0.peer() == mailbox@[i].sender
                        && r->Done_0.tag() == declared,
                    None => r is Blocked,
                },
    {
        let declared = I::interface();
        assert(declares::<I>(declared@));
        Receiver::new_sync(declared, mailbox)
    }

    /// One step of creating a receiver for the oldest mail of type `I`
    /// within the time `time`, of which `waited` has passed: the same as
    /// [`Self::get_sync`], but `None` is returned when the time has run out.
    pub fn get_sync_for(time: Duration, mailbox: &Mailbox, waited: Duration) -> (r: Progress<
        Option<Self>,
    >)
        ensures
            exists|declared: InterfaceView|
                #![trigger declares::<I>(declared)]
                declares::<I>(declared) && match oldest(mailbox@, wanted(None, Some(declared))) {
                    Some(i) => r is Done && r->Done_0 is Some && r->Done_0->0.peer()
                        == mailbox@[i].sender && r->Done_0->0.tag() == declared,
                    None => r is Done == over(time, waited) && (r is Done ==> r->Done_0 is None),
                },
    {
        let declared = I::interface();
        assert(declares::<I>(declared@));
        Receiver::new_sync_for(time, declared, mailbox, waited)
    }

    /// A receiver for what `src` sends under `interface`.
    pub fn from_thread(src: Rc<Thread>, interface: Rc<Interface>) -> (r: Self)
        ensures
            r.peer() == src@,
            r.tag() == interface@,
    {
        Receiver { src, interface, _input: PhantomData }
    }

    /// The thread that the messages come from.
    pub fn src(&self) -> (t: &Rc<Thread>)
        ensures
            t@ == self.peer(),
    {
        &self.src
    }

    /// The interface that the messages are sent under.
    pub fn interface(&self) -> (i: &Rc<Interface>)
        ensures
            i@ == self.tag(),
    {
        &self.interface
    }

    /// Receives the bytes of a message from `mailbox`, the mailbox of the
    /// receiving thread, without blocking: `Ok(None)` says that nothing has
    /// arrived.
    pub fn recv_bytes(&self, mailbox: &mut Mailbox) -> (r: Result<Option<Vec<u8>>, ReceiveError>)
        ensures
            match received(self.peer(), self.tag(), old(mailbox)@) {
                (rest, Ok(Some(bytes))) => final(mailbox)@ == rest && r is Ok && r->Ok_0 is Some
                    && r->Ok_0->0@ == bytes,
                (rest, Ok(None)) => final(mailbox)@ == rest && r is Ok && r->Ok_0 is None,
                (rest, Err(e)) => final(mailbox)@ == rest && r == Err::<
                    Option<Vec<u8>>,
                    ReceiveError,
                >(e),
            },
            single_pending(final(mailbox)@),
    {
        match mailbox.take(self.src.uid(), &*self.interface) {
            Some(e) => Ok(Some(e.payload)),
            None => {
                if self.src.state().is_dead() {
                    Err(ReceiveError::Died)
                } else if !self.src.is_reachable() {
                    Err(ReceiveError::ConnectionLost)
                } else {
                    Ok(None)
                }
            },
        }
    }

    /// Receives a message from `mailbox`, the mailbox of the receiving
    /// thread, without blocking: `Ok(None)` says that nothing has arrived.
    ///
    /// A receiver under an interface other than the one that `I` names
    /// receives nothing: that is `Unsupported`, and the mailbox stays as it
    /// is. Else the message is what `I` makes of the bytes, and the rest is
    /// as in [`Self::recv_bytes`].
    pub fn recv(&self, mailbox: &mut Mailbox) -> (r: Result<Option<I>, ReceiveError>)
        ensures
            receives(self.peer(), self.tag(), old(mailbox)@, final(mailbox)@, r),
            single_pending(final(mailbox)@),
    {
        let declared = I::interface();
        assert(declares::<I>(declared@));
        if !(*self.interface == **declared) {
            proof {
                use_type_invariant(&*mailbox);
            }
            return Err(ReceiveError::Unsupported);
        }
        match self.recv_bytes(mailbox) {
            Ok(Some(bytes)) => Ok(Some(I::from_msg_bytes(bytes.as_slice()))),
            Ok(None) => Ok(None),
            Err(e) => Err(e),
        }
    }

    /// One step of receiving a message, for as long as it takes: the
    /// receiver is blocked until a message has arrived.
    pub fn recv_sync(&self, mailbox: &mut Mailbox) -> (r: Result<Progress<I>, ReceiveError>)
        ensures
            exists|got: Result<Option<I>, ReceiveError>|
                #![trigger until_arrival(got)]
                receives(self.peer(), self.tag(), old(mailbox)@, final(mailbox)@, got) && r
                    == until_arrival(got),
            single_pending(final(mailbox)@),
    {
        let got = self.recv(mailbox);
        let ghost witness = got;
        let r = match got {
            Ok(Some(message)) => Ok(Progress::Done(message)),
            Ok(None) => Ok(Progress::Blocked),
            Err(e) => Err(e),
        };
        assert(r == until_arrival(witness));
        r
    }

    /// One step of receiving a message for the time `wait` at most, of which
    /// `waited` has passed: the receiver is blocked until a message has
    /// arrived, and receives `None` when the time has run out.
    pub fn recv_sync_for(&self, mailbox: &mut Mailbox, wait: Duration, waited: Duration) -> (r:
        Result<Progress<Option<I>>, ReceiveError>)
        ensures
            exists|got: Result<Option<I>, ReceiveError>|
                #![trigger until_arrival(got)]
                receives(self.peer(), self.tag(), old(mailbox)@, final(mailbox)@, got) && r
                    == match until_arrival(got) {
                    Ok(step) => Ok(bounded_by(step, over(wait, waited))),
                    Err(e) => Err(e),
                },
            single_pending(final(mailbox)@),
    {
        let got = self.recv(mailbox);
        let ghost witness = got;
        let r = match got {
            Ok(Some(message)) => Ok(bounded(Progress::Done(message), &wait, &waited)),
            Ok(None) => Ok(bounded(Progress::Blocked, &wait, &waited)),
            Err(e) => Err(e),
        };
        assert(r == match until_arrival(witness) {
            Ok(step) => Ok(bounded_by(step, over(wait, waited))),
            Err(e) => Err(e),
        });
        r
    }
}

/// While a message waits, a second one of the same sender under the same
/// interface is refused as pending, and changes nothing.
pub proof fn second_send_is_pending(s: Seq<EnvelopeView>, first: EnvelopeView, second: EnvelopeView)
    requires
        deposited(s, first).1 is Ok,
        second.sender.instance.uid == first.sender.instance.uid,
        second.interface.same(first.interface),
    ensures
        deposited(deposited(s, first).0, second) == (
            deposited(s, first).0,
            Err::<(), MailboxSendError>(MailboxSendError::Pending),
        ),
{
    let slot = wanted(Some(second.sender.instance.uid), Some(second.interface));
    let after = s.push(first);
    oldest_is_first(after, slot);
    assert(slot(after[s.len() as int]));
}

/// A mailbox that holds one message at most of each sender under each
/// interface still does after `e` was put into it, if it held none of the
/// sender of `e` under the interface of `e`.
pub proof fn single_pending_with(s: Seq<EnvelopeView>, e: EnvelopeView)
    requires
        single_pending(s),
        oldest(s, wanted(Some(e.sender.instance.uid), Some(e.interface))) is None,
    ensures
        single_pending(s.push(e)),
{
    let slot = wanted(Some(e.sender.instance.uid), Some(e.interface));
    let after = s.push(e);
    oldest_is_first(s, slot);
    assert forall|i: int, j: int| 0 <= i < j < after.len() implies !(
    #[trigger] after[i].sender.instance.uid == #[trigger] after[j].sender.instance.uid
        && after[i].interface.same(after[j].interface)) by {
        if j == s.len() {
            assert(!slot(s[i]));
        }
    }
}

/// A mailbox that holds one message at most of each sender under each
/// interface still does after one was taken out of it.
pub proof fn single_pending_without(s: Seq<EnvelopeView>, k: int)
    requires
        single_pending(s),
        0 <= k < s.len(),
    ensures
        single_pending(s.remove(k)),
{
    let rest = s.remove(k);
    assert forall|i: int, j: int| 0 <= i < j < rest.len() implies !(
    #[trigger] rest[i].sender.instance.uid == #[trigger] rest[j].sender.instance.uid
        && rest[i].interface.same(rest[j].interface)) by {
        let i0 = if i < k {
            i
        } else {
            i + 1
        };
        let j0 = if j < k {
            j
        } else {
            j + 1
        };
        assert(rest[i] == s[i0] && rest[j] == s[j0]);
    }
}

/// The mailbox keeps its rule: after a message was handed in, and after one
/// was taken out, it still holds one message at most of each sender under
/// each interface.
pub proof fn mailbox_stays_single_pending(
    s: Seq<EnvelopeView>,
    e: EnvelopeView,
    wanted: spec_fn(EnvelopeView) -> bool,
)
    requires
        single_pending(s),
    ensures
        single_pending(deposited(s, e).0),
        single_pending(taken(s, wanted).0),
{
    if deposited(s, e).1 is Ok {
        single_pending_with(s, e);
    }
    oldest_is_first(s, wanted);
    if let Some(k) = oldest(s, wanted) {
        single_pending_without(s, k);
    }
}

/// First in, first out: a message that arrives never overtakes one that
/// waits. What is found in a mailbox after `e` was put behind the others is
/// what was found before; `e` is found only where nothing was.
pub proof fn newer_never_overtakes(
    s: Seq<EnvelopeView>,
    e: EnvelopeView,
    wanted: spec_fn(EnvelopeView) -> bool,
)
    ensures
        oldest(s.push(e), wanted) == match oldest(s, wanted) {
            Some(i) => Some(i),
            None => if wanted(e) {
                Some(s.len() as int)
            } else {
                None
            },
        },
{
    let after = s.push(e);
    oldest_is_first(s, wanted);
    oldest_is_first(after, wanted);
    match oldest(s, wanted) {
        Some(i) => {
            assert(after[i] == s[i]);
            assert forall|j: int| 0 <= j < i implies !wanted(#[trigger] after[j]) by {
                assert(after[j] == s[j]);
            }
            first_is_oldest(after, wanted, i);
        },
        None => {
            assert forall|j: int| 0 <= j < s.len() implies !wanted(#[trigger] after[j]) by {
                assert(after[j] == s[j]);
            }
            if wanted(e) {
                assert(after[s.len() as int] == e);
                first_is_oldest(after, wanted, s.len() as int);
            } else {
                assert forall|j: int| 0 <= j < after.len() implies !wanted(#[trigger] after[j]) by {
                    if j < s.len() {
                        assert(after[j] == s[j]);
                    }
                }
                if let Some(k) = oldest(after, wanted) {
                    assert(wanted(after[k]));
                }
            }
        },
    }
}

/// A message that was handed in and taken back leaves no trace: the mailbox
/// is what it was before.
pub proof fn withdrawn_leaves_no_trace(s: Seq<EnvelopeView>, e: EnvelopeView)
    requires
        deposited(s, e).1 is Ok,
    ensures
        taken(deposited(s, e).0, wanted(Some(e.sender.instance.uid), Some(e.interface))) == (
            s,
            Some(e),
        ),
{
    let slot = wanted(Some(e.sender.instance.uid), Some(e.interface));
    newer_never_overtakes(s, e, slot);
    assert(s.push(e).remove(s.len() as int) =~= s);
}

/// A rendezvous waits its turn: while an earlier message of the sender under
/// the interface is pending, the message stays queued and the mailbox stays
/// as it is.
pub proof fn rendezvous_waits_its_turn(dest: ThreadView, s: Seq<EnvelopeView>, e: EnvelopeView)
    requires
        !dest.state.dead(),
        dest.reachable,
        oldest(s, wanted(Some(e.sender.instance.uid), Some(e.interface))) is Some,
    ensures
        rendezvous_after(Rendezvous::Queued, false, dest, s, e) == (
            s,
            Ok::<Rendezvous, SendError>(Rendezvous::Queued),
        ),
{
}

/// A rendezvous succeeds when the receiver takes the message: once the
/// message that was offered has been taken out of the mailbox, the next step
/// finds the rendezvous `Taken`, whether or not the time has run out.
pub proof fn rendezvous_succeeds_on_receipt(
    dest: ThreadView,
    s: Seq<EnvelopeView>,
    e: EnvelopeView,
    expired: bool,
)
    requires
        rendezvous_after(Rendezvous::Queued, false, dest, s, e).1 == Ok::<Rendezvous, SendError>(
            Rendezvous::Offered,
        ),
    ensures
        ({
            let offered = rendezvous_after(Rendezvous::Queued, false, dest, s, e).0;
            let slot = wanted(Some(e.sender.instance.uid), Some(e.interface));
            &&& taken(offered, slot) == (s, Some(e))
            &&& rendezvous_after(Rendezvous::Offered, expired, dest, s, e) == (
                s,
                Ok::<Rendezvous, SendError>(Rendezvous::Taken),
            )
        }),
{
    withdrawn_leaves_no_trace(s, e);
}

/// A rendezvous that runs out of time is without effect: the message that
/// was offered and not taken is not delivered, and the mailbox is what it was
/// before the message was offered.
pub proof fn expired_rendezvous_leaves_no_trace(
    dest: ThreadView,
    s: Seq<EnvelopeView>,
    e: EnvelopeView,
)
    requires
        rendezvous_after(Rendezvous::Queued, false, dest, s, e).1 == Ok::<Rendezvous, SendError>(
            Rendezvous::Offered,
        ),
    ensures
        ({
            let offered = rendezvous_after(Rendezvous::Queued, false, dest, s, e).0;
            rendezvous_after(Rendezvous::Offered, true, dest, offered, e) == (
                s,
                Ok::<Rendezvous, SendError>(Rendezvous::Expired),
            )
        }),
        rendezvous_after(Rendezvous::Queued, true, dest, s, e) == (
            s,
            Ok::<Rendezvous, SendError>(Rendezvous::Expired),
        ),
{
    withdrawn_leaves_no_trace(s, e);
}

/// A rendezvous that has ended stays as it is, and so does the mailbox.
pub proof fn ended_rendezvous_stays(
    at: Rendezvous,
    expired: bool,
    dest: ThreadView,
    s: Seq<EnvelopeView>,
    e: EnvelopeView,
)
    requires
        at == Rendezvous::Taken || at == Rendezvous::Expired,
    ensures
        rendezvous_after(at, expired, dest, s, e) == (s, Ok::<Rendezvous, SendError>(at)),
{
}

/// A rendezvous does not wait for a thread that is gone: where the message
/// was offered and not taken, and the receiver has died or the connection to
/// it was lost, the rendezvous fails and the message is taken back.
pub proof fn rendezvous_fails_without_receiver(
    expired: bool,
    dest: ThreadView,
    s: Seq<EnvelopeView>,
    e: EnvelopeView,
)
    requires
        oldest(s, wanted(Some(e.sender.instance.uid), Some(e.interface))) is Some,
        dest.state.dead() || !dest.reachable,
    ensures
        ({
            let slot = wanted(Some(e.sender.instance.uid), Some(e.interface));
            let (after, told) = rendezvous_after(Rendezvous::Offered, expired, dest, s, e);
            &&& after == taken(s, slot).0
            &&& told == Err::<Rendezvous, SendError>(
                if dest.state.dead() {
                    SendError::Died
                } else {
                    SendError::ConnectionLost
                },
            )
        }),
{
}

/// The place of a sender under an interface does not depend on how the
/// interface is written: what is found under `a` is found under every
/// interface that is the same as `a`.
pub proof fn same_interface_same_place(
    s: Seq<EnvelopeView>,
    sender: Option<Uid>,
    a: InterfaceView,
    b: InterfaceView,
)
    requires
        a.same(b),
    ensures
        oldest(s, wanted(sender, Some(a))) == oldest(s, wanted(sender, Some(b))),
{
    let under_a = wanted(sender, Some(a));
    let under_b = wanted(sender, Some(b));
    oldest_is_first(s, under_a);
    oldest_is_first(s, under_b);
    assert forall|j: int| 0 <= j < s.len() implies under_a(#[trigger] s[j]) == under_b(s[j]) by {}
    match oldest(s, under_a) {
        Some(i) => {
            first_is_oldest(s, under_b, i);
        },
        None => {
            if let Some(k) = oldest(s, under_b) {
                assert(under_a(s[k]));
            }
        },
    }
}

/// First in, first out between one sender and one receiver. Where the sender
/// `src` makes rendezvous with `first` and then with `second` under one
/// interface, and nothing else of it waits under that interface: `second`
/// stays queued while `first` is offered; the receiver receives the bytes of
/// `first`, which ends the first rendezvous; only then `second` is offered,
/// and the receiver receives its bytes next. Nothing is lost, and the mailbox
/// ends as it began.
pub proof fn rendezvous_is_first_in_first_out(
    dest: ThreadView,
    src: ThreadView,
    tag: InterfaceView,
    s: Seq<EnvelopeView>,
    first: EnvelopeView,
    second: EnvelopeView,
)
    requires
        !dest.state.dead(),
        dest.reachable,
        first.sender.instance.uid == src.instance.uid,
        second.sender.instance.uid == src.instance.uid,
        first.interface.same(tag),
        second.interface.same(tag),
        oldest(s, wanted(Some(src.instance.uid), Some(tag))) is None,
    ensures
        rendezvous_after(Rendezvous::Queued, false, dest, s, first) == (
            s.push(first),
            Ok::<Rendezvous, SendError>(Rendezvous::Offered),
        ),
        rendezvous_after(Rendezvous::Queued, false, dest, s.push(first), second) == (
            s.push(first),
            Ok::<Rendezvous, SendError>(Rendezvous::Queued),
        ),
        received(src, tag, s.push(first)) == (
            s,
            Ok::<Option<Seq<u8>>, ReceiveError>(Some(first.payload)),
        ),
        rendezvous_after(Rendezvous::Offered, false, dest, s, first) == (
            s,
            Ok::<Rendezvous, SendError>(Rendezvous::Taken),
        ),
        rendezvous_after(Rendezvous::Queued, false, dest, s, second) == (
            s.push(second),
            Ok::<Rendezvous, SendError>(Rendezvous::Offered),
        ),
        received(src, tag, s.push(second)) == (
            s,
            Ok::<Option<Seq<u8>>, ReceiveError>(Some(second.payload)),
        ),
        rendezvous_after(Rendezvous::Offered, false, dest, s, second) == (
            s,
            Ok::<Rendezvous, SendError>(Rendezvous::Taken),
        ),
{
    let uid = Some(src.instance.uid);
    same_interface_same_place(s, uid, tag, first.interface);
    same_interface_same_place(s, uid, tag, second.interface);
    same_interface_same_place(s.push(first), uid, tag, first.interface);
    same_interface_same_place(s.push(first), uid, tag, second.interface);
    same_interface_same_place(s.push(second), uid, tag, second.interface);
    withdrawn_leaves_no_trace(s, first);
    withdrawn_leaves_no_trace(s, second);
    newer_never_overtakes(s, first, wanted(uid, Some(tag)));
    newer_never_overtakes(s, second, wanted(uid, Some(tag)));
    assert(s.push(first).remove(s.len() as int) =~= s);
    assert(s.push(second).remove(s.len() as int) =~= s);
}

/// A receiver that is not told `Unsupported` receives what the mailbox holds
/// for it: the mailbox is left as [`received`] says, and the message is what
/// the receiver's type makes of the bytes that were taken out.
pub proof fn receipt_is_of_the_bytes<I: Input>(
    src: ThreadView,
    tag: InterfaceView,
    before: Seq<EnvelopeView>,
    after: Seq<EnvelopeView>,
    r: Result<Option<I>, ReceiveError>,
)
    requires
        receives::<I>(src, tag, before, after, r),
        r != Err::<Option<I>, ReceiveError>(ReceiveError::Unsupported),
    ensures
        match received(src, tag, before) {
            (rest, Ok(Some(bytes))) => after == rest && r is Ok && r->Ok_0 is Some && decodes(
                bytes,
                r->Ok_0->0,
            ),
            (rest, Ok(None)) => after == rest && r is Ok && r->Ok_0 is None,
            (rest, Err(e)) => after == rest && r == Err::<Option<I>, ReceiveError>(e),
        },
{
}

} // verus!
