use arrayvec::ArrayVec;
use kobzar::msg::{
    has_incoming, wait_any, wait_any_for, Envelope, Input, Mailbox, MailboxSendError, Output,
    ReceiveError, Receiver, Rendezvous, SendError, Sender,
};
use kobzar::path::{InstanceId, Interface, Path, Uid, Version};
use kobzar::rsc::Handle;
use kobzar::thread::{PerformancePolicy, Publicity, State, Thread};
use kobzar::wait::Progress;
use std::rc::Rc;
use std::time::Duration;

fn nodes(parts: &[&'static str]) -> ArrayVec<&'static str, 8> {
    let mut v = ArrayVec::new();
    for p in parts {
        v.push(*p);
    }
    v
}

fn chat() -> Rc<Interface> {
    Rc::new(Interface::new(Path::new(nodes(&["app", "chat"])), Version(1, 0, 0)))
}

fn ping() -> Rc<Interface> {
    Rc::new(Interface::new(Path::new(nodes(&["app", "ping"])), Version(1, 0, 0)))
}

fn thread_in(n: u128, state: State, reachable: bool) -> Rc<Thread> {
    let instance = Rc::new(InstanceId::new(
        Rc::new(Interface::new(Path::new(nodes(&["app", "worker"])), Version(1, 0, 0))),
        Uid { high: 0, low: n, duplicate: None },
    ));
    Rc::new(Thread::new(instance, state, Publicity::Public, PerformancePolicy::Normal, reachable))
}

fn thread(n: u128) -> Rc<Thread> {
    thread_in(n, State::Running, true)
}

#[derive(Debug, PartialEq)]
struct Text(Vec<u8>);

impl Output for Text {
    fn as_msg_bytes(&self) -> &[u8] {
        &self.0
    }
}

impl Input for Text {
    fn interface() -> &'static Rc<Interface> {
        Box::leak(Box::new(chat()))
    }

    fn from_msg_bytes(b: &[u8]) -> Self {
        Text(b.to_vec())
    }
}

#[derive(Debug, PartialEq)]
struct Ping;

impl Input for Ping {
    fn interface() -> &'static Rc<Interface> {
        Box::leak(Box::new(ping()))
    }

    fn from_msg_bytes(_: &[u8]) -> Self {
        Ping
    }
}

fn text(s: &str) -> Text {
    Text(s.as_bytes().to_vec())
}

#[test]
fn second_send_while_one_is_pending_fails() {
    let (s, r) = (thread(1), thread(2));
    let mut mailbox = Mailbox::new();
    let sender = Sender::<Text>::new(Rc::clone(&r), chat());
    assert_eq!(sender.send(&s, &mut mailbox, &text("one")), Ok(()));
    assert_eq!(sender.send(&s, &mut mailbox, &text("two")), Err(MailboxSendError::Pending));
    assert_eq!(mailbox.len(), 1);
    assert_eq!(mailbox.receive().unwrap().payload().as_slice(), b"one");
}

#[test]
fn slot_is_free_again_after_receipt() {
    let (s, r) = (thread(1), thread(2));
    let mut mailbox = Mailbox::new();
    let sender = Sender::<Text>::new(Rc::clone(&r), chat());
    let receiver = Receiver::<Text>::from_thread(Rc::clone(&s), chat());
    assert_eq!(sender.send(&s, &mut mailbox, &text("one")), Ok(()));
    assert_eq!(receiver.recv(&mut mailbox), Ok(Some(text("one"))));
    assert_eq!(sender.send(&s, &mut mailbox, &text("two")), Ok(()));
    assert_eq!(receiver.recv(&mut mailbox), Ok(Some(text("two"))));
    assert_eq!(receiver.recv(&mut mailbox), Ok(None));
}

#[test]
fn other_sender_or_interface_has_its_own_slot() {
    let (a, b, r) = (thread(1), thread(3), thread(2));
    let mut mailbox = Mailbox::new();
    let chat_sender = Sender::<Text>::new(Rc::clone(&r), chat());
    let ping_sender = Sender::<()>::new(Rc::clone(&r), ping());
    assert_eq!(chat_sender.send(&a, &mut mailbox, &text("a")), Ok(()));
    assert_eq!(chat_sender.send(&b, &mut mailbox, &text("b")), Ok(()));
    assert_eq!(ping_sender.send(&a, &mut mailbox, &()), Ok(()));
    assert_eq!(chat_sender.send(&b, &mut mailbox, &text("b2")), Err(MailboxSendError::Pending));
    assert_eq!(ping_sender.send(&a, &mut mailbox, &()), Err(MailboxSendError::Pending));
    assert_eq!(mailbox.len(), 3);
}

#[test]
fn rendezvous_messages_arrive_first_in_first_out() {
    let (s, r) = (thread(1), thread(2));
    let mut mailbox = Mailbox::new();
    let sender = Sender::<Text>::new(Rc::clone(&r), chat());
    let receiver = Receiver::<Text>::from_thread(Rc::clone(&s), chat());
    let (m1, m2) = (text("M1"), text("M2"));
    assert_eq!(receiver.recv_sync(&mut mailbox), Ok(Progress::Blocked));
    let first = sender.rendezvous(&s, &mut mailbox, &m1, Rendezvous::Queued);
    assert_eq!(first, Ok(Rendezvous::Offered));
    assert_eq!(sender.rendezvous(&s, &mut mailbox, &m1, Rendezvous::Offered), Ok(Rendezvous::Offered));
    let second = sender.rendezvous(&s, &mut mailbox, &m2, Rendezvous::Queued);
    assert_eq!(second, Ok(Rendezvous::Queued));
    assert_eq!(mailbox.len(), 1);
    assert_eq!(receiver.recv_sync(&mut mailbox), Ok(Progress::Done(text("M1"))));
    assert_eq!(sender.rendezvous(&s, &mut mailbox, &m1, Rendezvous::Offered), Ok(Rendezvous::Taken));
    assert_eq!(sender.rendezvous(&s, &mut mailbox, &m2, Rendezvous::Queued), Ok(Rendezvous::Offered));
    assert_eq!(receiver.recv_sync(&mut mailbox), Ok(Progress::Done(text("M2"))));
    assert_eq!(sender.rendezvous(&s, &mut mailbox, &m2, Rendezvous::Offered), Ok(Rendezvous::Taken));
    assert_eq!(sender.rendezvous(&s, &mut mailbox, &m2, Rendezvous::Taken), Ok(Rendezvous::Taken));
    assert_eq!(receiver.recv_sync(&mut mailbox), Ok(Progress::Blocked));
    assert!(mailbox.is_empty());
}

#[test]
fn timed_out_rendezvous_is_not_delivered() {
    let (s, r) = (thread(1), thread(2));
    let mut mailbox = Mailbox::new();
    let sender = Sender::<Text>::new(Rc::clone(&r), chat());
    let receiver = Receiver::<Text>::from_thread(Rc::clone(&s), chat());
    let msg = text("late");
    let limit = Duration::from_millis(10);
    let step = |mailbox: &mut Mailbox, at: Rendezvous, waited: Duration| {
        sender.rendezvous_for(&s, mailbox, &msg, limit, at, waited)
    };
    assert_eq!(step(&mut mailbox, Rendezvous::Queued, Duration::ZERO), Ok(Rendezvous::Offered));
    assert_eq!(mailbox.len(), 1);
    assert_eq!(
        step(&mut mailbox, Rendezvous::Offered, Duration::from_millis(5)),
        Ok(Rendezvous::Offered)
    );
    assert_eq!(
        step(&mut mailbox, Rendezvous::Offered, Duration::from_nanos(9_999_999)),
        Ok(Rendezvous::Offered)
    );
    assert_eq!(mailbox.len(), 1);
    assert_eq!(
        step(&mut mailbox, Rendezvous::Offered, Duration::from_millis(10)),
        Ok(Rendezvous::Expired)
    );
    assert!(mailbox.is_empty());
    assert!(!has_incoming(&mailbox));
    assert_eq!(
        step(&mut mailbox, Rendezvous::Expired, Duration::from_millis(11)),
        Ok(Rendezvous::Expired)
    );
    assert_eq!(receiver.recv(&mut mailbox), Ok(None));
    assert!(mailbox.receive().is_none());
    assert_eq!(sender.send(&s, &mut mailbox, &msg), Ok(()));
    assert_eq!(receiver.recv(&mut mailbox), Ok(Some(text("late"))));
}

#[test]
fn rendezvous_that_is_taken_in_time_succeeds_even_late() {
    let (s, r) = (thread(1), thread(2));
    let mut mailbox = Mailbox::new();
    let sender = Sender::<Text>::new(Rc::clone(&r), chat());
    let receiver = Receiver::<Text>::from_thread(Rc::clone(&s), chat());
    let msg = text("x");
    let limit = Duration::from_millis(10);
    assert_eq!(
        sender.rendezvous_for(&s, &mut mailbox, &msg, limit, Rendezvous::Queued, Duration::ZERO),
        Ok(Rendezvous::Offered)
    );
    assert_eq!(receiver.recv(&mut mailbox), Ok(Some(text("x"))));
    assert_eq!(
        sender.rendezvous_for(
            &s,
            &mut mailbox,
            &msg,
            limit,
            Rendezvous::Offered,
            Duration::from_millis(30)
        ),
        Ok(Rendezvous::Taken)
    );
}

#[test]
fn rendezvous_that_expires_in_the_queue_sends_nothing() {
    let (s, r) = (thread(1), thread(2));
    let mut mailbox = Mailbox::new();
    let sender = Sender::<Text>::new(Rc::clone(&r), chat());
    assert_eq!(sender.send(&s, &mut mailbox, &text("earlier")), Ok(()));
    let msg = text("queued");
    let limit = Duration::from_millis(10);
    assert_eq!(
        sender.rendezvous_for(&s, &mut mailbox, &msg, limit, Rendezvous::Queued, Duration::ZERO),
        Ok(Rendezvous::Queued)
    );
    assert_eq!(
        sender.rendezvous_for(
            &s,
            &mut mailbox,
            &msg,
            limit,
            Rendezvous::Queued,
            Duration::from_millis(10)
        ),
        Ok(Rendezvous::Expired)
    );
    assert_eq!(mailbox.len(), 1);
    assert_eq!(mailbox.receive().unwrap().payload().as_slice(), b"earlier");
}

#[test]
fn rendezvous_with_a_dead_or_lost_thread_fails() {
    let s = thread(1);
    let mut mailbox = Mailbox::new();
    let dead = Sender::<Text>::new(thread_in(2, State::Killed, true), chat());
    assert_eq!(
        dead.rendezvous(&s, &mut mailbox, &text("x"), Rendezvous::Queued),
        Err(SendError::Died)
    );
    let lost = Sender::<Text>::new(thread_in(2, State::Running, false), chat());
    assert_eq!(
        lost.rendezvous(&s, &mut mailbox, &text("x"), Rendezvous::Queued),
        Err(SendError::ConnectionLost)
    );
    assert_eq!(
        lost.rendezvous_step(&s, &mut mailbox, b"x", Rendezvous::Queued, false),
        Err(SendError::ConnectionLost)
    );
    assert!(mailbox.is_empty());
}

#[test]
fn rendezvous_does_not_wait_for_a_receiver_that_is_gone() {
    let s = thread(1);
    let msg = text("x");
    for (state, reachable, error) in [
        (State::Killed, true, SendError::Died),
        (State::Ceased, false, SendError::Died),
        (State::Running, false, SendError::ConnectionLost),
    ] {
        let mut mailbox = Mailbox::new();
        let sender = Sender::<Text>::new(thread(2), chat());
        assert_eq!(sender.rendezvous(&s, &mut mailbox, &msg, Rendezvous::Queued), Ok(Rendezvous::Offered));
        let later = Sender::<Text>::new(thread_in(2, state, reachable), chat());
        assert_eq!(later.rendezvous(&s, &mut mailbox, &msg, Rendezvous::Offered), Err(error));
        assert!(mailbox.is_empty());
    }
    let mut mailbox = Mailbox::new();
    let gone = Sender::<Text>::new(thread_in(2, State::Killed, true), chat());
    assert_eq!(gone.rendezvous(&s, &mut mailbox, &msg, Rendezvous::Offered), Ok(Rendezvous::Taken));
}

#[test]
fn send_when_available_blocks_while_pending() {
    let (s, r) = (thread(1), thread(2));
    let mut mailbox = Mailbox::new();
    let sender = Sender::<Text>::new(Rc::clone(&r), chat());
    assert_eq!(
        sender.send_when_available(&s, &mut mailbox, &text("one")),
        Ok(Progress::Done(()))
    );
    assert_eq!(sender.send_when_available(&s, &mut mailbox, &text("two")), Ok(Progress::Blocked));
    assert_eq!(mailbox.len(), 1);
    assert_eq!(mailbox.receive().unwrap().payload().as_slice(), b"one");
    assert_eq!(
        sender.send_when_available(&s, &mut mailbox, &text("two")),
        Ok(Progress::Done(()))
    );
    assert_eq!(mailbox.receive().unwrap().payload().as_slice(), b"two");
    let dead = Sender::<Text>::new(thread_in(2, State::Ceased, true), chat());
    assert_eq!(dead.send_when_available(&s, &mut mailbox, &text("x")), Err(SendError::Died));
    let lost = Sender::<Text>::new(thread_in(2, State::Paused, false), chat());
    assert_eq!(
        lost.send_when_available(&s, &mut mailbox, &text("x")),
        Err(SendError::ConnectionLost)
    );
}

#[test]
fn send_bytes_sends_the_bytes_given() {
    let (s, r) = (thread(1), thread(2));
    let mut mailbox = Mailbox::new();
    let sender = Sender::<Text>::new(Rc::clone(&r), chat());
    assert_eq!(sender.send_bytes(&s, &mut mailbox, &[1, 2, 3]), Ok(()));
    assert_eq!(sender.send_bytes(&s, &mut mailbox, &[4]), Err(MailboxSendError::Pending));
    let receiver = Receiver::<Text>::from_thread(Rc::clone(&s), chat());
    assert_eq!(receiver.recv_bytes(&mut mailbox), Ok(Some(vec![1, 2, 3])));
    assert_eq!(receiver.recv_bytes(&mut mailbox), Ok(None));
}

#[test]
fn recv_sync_for_gives_up_when_the_time_is_over() {
    let (s, r) = (thread(1), thread(2));
    let mut mailbox = Mailbox::new();
    let receiver = Receiver::<Text>::from_thread(Rc::clone(&s), chat());
    let wait = Duration::from_millis(10);
    assert_eq!(
        receiver.recv_sync_for(&mut mailbox, wait, Duration::from_millis(9)),
        Ok(Progress::Blocked)
    );
    assert_eq!(
        receiver.recv_sync_for(&mut mailbox, wait, Duration::from_millis(10)),
        Ok(Progress::Done(None))
    );
    let sender = Sender::<Text>::new(r, chat());
    assert_eq!(sender.send(&s, &mut mailbox, &text("in time")), Ok(()));
    assert_eq!(
        receiver.recv_sync_for(&mut mailbox, wait, Duration::from_millis(3)),
        Ok(Progress::Done(Some(text("in time"))))
    );
    assert_eq!(sender.send(&s, &mut mailbox, &text("just")), Ok(()));
    assert_eq!(
        receiver.recv_sync_for(&mut mailbox, wait, Duration::from_millis(12)),
        Ok(Progress::Done(Some(text("just"))))
    );
    let from_dead = Receiver::<Text>::from_thread(thread_in(1, State::Killed, true), chat());
    assert_eq!(from_dead.recv_sync(&mut mailbox), Err(ReceiveError::Died));
    assert_eq!(
        from_dead.recv_sync_for(&mut mailbox, wait, Duration::from_millis(12)),
        Err(ReceiveError::Died)
    );
    let wrong = Receiver::<Ping>::from_thread(Rc::clone(&s), chat());
    assert_eq!(wrong.recv_sync(&mut mailbox), Err(ReceiveError::Unsupported));
}

#[test]
fn receiver_is_awaited_until_mail_arrives() {
    let (s, r) = (thread(7), thread(2));
    let mut mailbox = Mailbox::new();
    let time = Duration::from_secs(1);
    assert!(matches!(Receiver::<Text>::new_sync(&chat(), &mailbox), Progress::Blocked));
    assert!(matches!(Receiver::<Text>::get_sync(&mailbox), Progress::Blocked));
    assert!(matches!(
        Receiver::<Text>::new_sync_for(time, &chat(), &mailbox, Duration::from_millis(999)),
        Progress::Blocked
    ));
    assert!(matches!(
        Receiver::<Text>::new_sync_for(time, &chat(), &mailbox, time),
        Progress::Done(None)
    ));
    assert!(matches!(
        Receiver::<Text>::get_sync_for(time, &mailbox, Duration::from_millis(1)),
        Progress::Blocked
    ));
    assert!(matches!(
        Receiver::<Text>::get_sync_for(time, &mailbox, Duration::from_secs(2)),
        Progress::Done(None)
    ));
    let sender = Sender::<Text>::new(r, chat());
    assert_eq!(sender.send(&s, &mut mailbox, &text("x")), Ok(()));
    match Receiver::<Text>::new_sync(&chat(), &mailbox) {
        Progress::Done(receiver) => assert_eq!(receiver.src().uid().low, 7),
        Progress::Blocked => panic!("mail is there"),
    }
    match Receiver::<Text>::get_sync(&mailbox) {
        Progress::Done(receiver) => assert_eq!(receiver.src().uid().low, 7),
        Progress::Blocked => panic!("mail is there"),
    }
    match Receiver::<Text>::new_sync_for(time, &chat(), &mailbox, Duration::from_secs(5)) {
        Progress::Done(Some(receiver)) => assert_eq!(receiver.src().uid().low, 7),
        _ => panic!("mail is there"),
    }
    match Receiver::<Text>::get_sync_for(time, &mailbox, Duration::ZERO) {
        Progress::Done(Some(receiver)) => assert_eq!(receiver.src().uid().low, 7),
        _ => panic!("mail is there"),
    }
    assert!(matches!(Receiver::<Ping>::get_sync(&mailbox), Progress::Blocked));
}

#[test]
fn wait_any_ends_when_a_message_of_the_interfaces_is_there() {
    let (a, r) = (thread(1), thread(2));
    let mut mailbox = Mailbox::new();
    let (c, p) = (chat(), ping());
    let wait = Duration::from_millis(10);
    assert_eq!(wait_any(&mailbox, &[&c, &p]), Progress::Blocked);
    assert_eq!(wait_any_for(&mailbox, wait, &[&c, &p], Duration::from_millis(9)), Progress::Blocked);
    assert_eq!(
        wait_any_for(&mailbox, wait, &[&c, &p], Duration::from_millis(10)),
        Progress::Done(None)
    );
    let pings = Sender::<()>::new(r, ping());
    assert_eq!(pings.send(&a, &mut mailbox, &()), Ok(()));
    assert_eq!(wait_any(&mailbox, &[&c, &p]), Progress::Done(()));
    assert_eq!(wait_any(&mailbox, &[&c]), Progress::Blocked);
    assert_eq!(
        wait_any_for(&mailbox, wait, &[&p], Duration::from_millis(1)),
        Progress::Done(Some(()))
    );
    assert_eq!(
        wait_any_for(&mailbox, wait, &[&p], Duration::from_millis(50)),
        Progress::Done(Some(()))
    );
    assert_eq!(wait_any_for(&mailbox, wait, &[&c], Duration::from_millis(50)), Progress::Done(None));
    assert_eq!(mailbox.len(), 1);
}

#[test]
fn withdraw_takes_back_a_pending_message() {
    let (s, r) = (thread(1), thread(2));
    let mut mailbox = Mailbox::new();
    let sender = Sender::<Text>::new(Rc::clone(&r), chat());
    let receiver = Receiver::<Text>::from_thread(Rc::clone(&s), chat());
    assert_eq!(sender.send(&s, &mut mailbox, &text("late")), Ok(()));
    assert!(sender.is_pending(&s, &mailbox));
    assert!(sender.withdraw(&s, &mut mailbox));
    assert!(!sender.is_pending(&s, &mailbox));
    assert!(mailbox.is_empty());
    assert_eq!(receiver.recv(&mut mailbox), Ok(None));
    assert!(!sender.withdraw(&s, &mut mailbox));
}

#[test]
fn withdraw_takes_only_the_own_message() {
    let (a, b, r) = (thread(1), thread(3), thread(2));
    let mut mailbox = Mailbox::new();
    let sender = Sender::<Text>::new(Rc::clone(&r), chat());
    assert_eq!(sender.send(&a, &mut mailbox, &text("a")), Ok(()));
    assert_eq!(sender.send(&b, &mut mailbox, &text("b")), Ok(()));
    assert!(sender.withdraw(&a, &mut mailbox));
    assert_eq!(mailbox.len(), 1);
    assert_eq!(mailbox.receive().unwrap().sender().uid().low, 3);
}

#[test]
fn send_to_dead_thread_fails_with_died() {
    for state in [State::Ceased, State::Killed] {
        let mut mailbox = Mailbox::new();
        let sender = Sender::<Text>::new(thread_in(2, state, true), chat());
        assert_eq!(
            sender.send(&thread(1), &mut mailbox, &text("x")),
            Err(MailboxSendError::Send(SendError::Died))
        );
        assert!(mailbox.is_empty());
    }
    let mut mailbox = Mailbox::new();
    let unreachable_and_dead = Sender::<Text>::new(thread_in(2, State::Killed, false), chat());
    assert_eq!(
        unreachable_and_dead.send(&thread(1), &mut mailbox, &text("x")),
        Err(MailboxSendError::Send(SendError::Died))
    );
}

#[test]
fn send_without_connection_fails_with_connection_lost() {
    let mut mailbox = Mailbox::new();
    let s = thread(1);
    let reachable = Sender::<Text>::new(thread(2), chat());
    assert_eq!(reachable.send(&s, &mut mailbox, &text("x")), Ok(()));
    let sender = Sender::<Text>::new(thread_in(2, State::Paused, false), chat());
    assert_eq!(
        sender.send(&s, &mut mailbox, &text("y")),
        Err(MailboxSendError::Send(SendError::ConnectionLost))
    );
    assert_eq!(mailbox.len(), 1);
}

#[test]
fn send_to_a_thread_that_waits_for_a_request_goes_through() {
    for state in [
        State::Paused,
        State::PausedRunRequested,
        State::RunningPauseRequested,
        State::RunningCeaseRequested,
        State::PausedCeaseRequested,
    ] {
        let mut mailbox = Mailbox::new();
        let sender = Sender::<Text>::new(thread_in(2, state, true), chat());
        assert_eq!(sender.send(&thread(1), &mut mailbox, &text("x")), Ok(()));
    }
}

#[test]
fn recv_takes_only_from_its_peer_and_interface() {
    let (a, b, r) = (thread(1), thread(3), thread(2));
    let mut mailbox = Mailbox::new();
    let sender = Sender::<Text>::new(Rc::clone(&r), chat());
    assert_eq!(sender.send(&a, &mut mailbox, &text("from a")), Ok(()));
    assert_eq!(sender.send(&b, &mut mailbox, &text("from b")), Ok(()));
    let from_b = Receiver::<Text>::from_thread(Rc::clone(&b), chat());
    assert_eq!(from_b.recv(&mut mailbox), Ok(Some(text("from b"))));
    assert_eq!(from_b.recv(&mut mailbox), Ok(None));
    assert_eq!(mailbox.len(), 1);
    let from_a = Receiver::<Text>::from_thread(Rc::clone(&a), chat());
    assert_eq!(from_a.recv(&mut mailbox), Ok(Some(text("from a"))));
}

#[test]
fn recv_from_dead_peer_gives_what_waits_and_then_died() {
    let alive = thread(1);
    let mut mailbox = Mailbox::new();
    let sender = Sender::<Text>::new(thread(2), chat());
    assert_eq!(sender.send(&alive, &mut mailbox, &text("last words")), Ok(()));
    let receiver = Receiver::<Text>::from_thread(thread_in(1, State::Ceased, false), chat());
    assert_eq!(receiver.recv(&mut mailbox), Ok(Some(text("last words"))));
    assert_eq!(receiver.recv(&mut mailbox), Err(ReceiveError::Died));
    let killed = Receiver::<Text>::from_thread(thread_in(1, State::Killed, true), chat());
    assert_eq!(killed.recv(&mut mailbox), Err(ReceiveError::Died));
}

#[test]
fn recv_without_connection_fails_with_connection_lost() {
    let mut mailbox = Mailbox::new();
    let receiver = Receiver::<Text>::from_thread(thread_in(1, State::Running, false), chat());
    assert_eq!(receiver.recv(&mut mailbox), Err(ReceiveError::ConnectionLost));
}

#[test]
fn recv_under_another_interface_is_unsupported() {
    let s = thread(1);
    let mut mailbox = Mailbox::new();
    let sender = Sender::<()>::new(thread(2), ping());
    assert_eq!(sender.send(&s, &mut mailbox, &()), Ok(()));
    let receiver = Receiver::<Text>::from_thread(Rc::clone(&s), ping());
    assert_eq!(receiver.recv(&mut mailbox), Err(ReceiveError::Unsupported));
    assert_eq!(mailbox.len(), 1);
    let right = Receiver::<Ping>::from_thread(s, ping());
    assert_eq!(right.recv(&mut mailbox), Ok(Some(Ping)));
}

#[test]
fn receiver_is_made_for_the_oldest_mail_of_the_interface() {
    let (a, b, r) = (thread(1), thread(3), thread(2));
    let mut mailbox = Mailbox::new();
    assert!(Receiver::<Text>::new(&chat(), &mailbox).is_none());
    assert!(Receiver::<Text>::get(&mailbox).is_none());
    let pings = Sender::<()>::new(Rc::clone(&r), ping());
    let chats = Sender::<Text>::new(Rc::clone(&r), chat());
    assert_eq!(pings.send(&a, &mut mailbox, &()), Ok(()));
    assert_eq!(chats.send(&b, &mut mailbox, &text("b")), Ok(()));
    assert_eq!(chats.send(&a, &mut mailbox, &text("a")), Ok(()));
    let receiver = Receiver::<Text>::new(&chat(), &mailbox).unwrap();
    assert_eq!(receiver.src().uid().low, 3);
    assert!(**receiver.interface() == *chat());
    assert_eq!(mailbox.len(), 3);
    assert_eq!(receiver.recv(&mut mailbox), Ok(Some(text("b"))));
    let next = Receiver::<Text>::get(&mailbox).unwrap();
    assert_eq!(next.src().uid().low, 1);
    let for_ping = Receiver::<Ping>::get(&mailbox).unwrap();
    assert_eq!(for_ping.src().uid().low, 1);
    assert_eq!(for_ping.recv(&mut mailbox), Ok(Some(Ping)));
    assert!(Receiver::<Ping>::get(&mailbox).is_none());
}

#[test]
fn envelopes_are_received_oldest_first() {
    let (a, b, r) = (thread(1), thread(3), thread(2));
    let mut mailbox = Mailbox::new();
    assert!(!has_incoming(&mailbox));
    assert!(mailbox.is_empty());
    assert!(mailbox.receive().is_none());
    let chats = Sender::<Text>::new(Rc::clone(&r), chat());
    let pings = Sender::<()>::new(Rc::clone(&r), ping());
    assert_eq!(chats.send(&a, &mut mailbox, &text("first")), Ok(()));
    assert_eq!(pings.send(&b, &mut mailbox, &()), Ok(()));
    assert_eq!(chats.send(&b, &mut mailbox, &text("third")), Ok(()));
    assert!(has_incoming(&mailbox));
    assert!(!mailbox.is_empty());
    let e = mailbox.receive().unwrap();
    assert_eq!(e.sender().uid().low, 1);
    assert!(**e.interface() == *chat());
    assert_eq!(e.payload().as_slice(), b"first");
    let e = mailbox.receive().unwrap();
    assert_eq!(e.sender().uid().low, 3);
    assert!(**e.interface() == *ping());
    assert!(e.payload().is_empty());
    let e = mailbox.receive().unwrap();
    assert_eq!(e.payload().as_slice(), b"third");
    assert!(mailbox.receive().is_none());
    assert!(!has_incoming(&mailbox));
}

#[test]
fn receive_from_takes_the_oldest_of_one_thread() {
    let (a, b, r) = (thread(1), thread(3), thread(2));
    let mut mailbox = Mailbox::new();
    let chats = Sender::<Text>::new(Rc::clone(&r), chat());
    let pings = Sender::<()>::new(Rc::clone(&r), ping());
    assert_eq!(chats.send(&a, &mut mailbox, &text("a chat")), Ok(()));
    assert_eq!(pings.send(&b, &mut mailbox, &()), Ok(()));
    assert_eq!(chats.send(&b, &mut mailbox, &text("b chat")), Ok(()));
    let e = mailbox.receive_from(b.uid()).unwrap();
    assert!(**e.interface() == *ping());
    let e = mailbox.receive_from(b.uid()).unwrap();
    assert_eq!(e.payload().as_slice(), b"b chat");
    assert!(mailbox.receive_from(b.uid()).is_none());
    assert_eq!(mailbox.len(), 1);
    assert!(mailbox.receive_from(a.uid()).is_some());
}

#[test]
fn peek_and_take_by_slot() {
    let (a, r) = (thread(1), thread(2));
    let mut mailbox = Mailbox::new();
    let chats = Sender::<Text>::new(Rc::clone(&r), chat());
    assert!(mailbox.peek(&chat()).is_none());
    assert!(!mailbox.is_pending(a.uid(), &chat()));
    assert_eq!(chats.send(&a, &mut mailbox, &text("x")), Ok(()));
    assert!(mailbox.is_pending(a.uid(), &chat()));
    assert!(!mailbox.is_pending(a.uid(), &ping()));
    assert!(!mailbox.is_pending(r.uid(), &chat()));
    assert_eq!(mailbox.peek(&chat()).unwrap().payload().as_slice(), b"x");
    assert!(mailbox.peek(&ping()).is_none());
    assert_eq!(mailbox.len(), 1);
    assert!(mailbox.take(a.uid(), &ping()).is_none());
    assert!(mailbox.take(r.uid(), &chat()).is_none());
    assert_eq!(mailbox.take(a.uid(), &chat()).unwrap().payload().as_slice(), b"x");
    assert!(mailbox.is_empty());
}

#[test]
fn deposit_refuses_a_second_envelope_in_the_slot() {
    let a = thread(1);
    let mut mailbox = Mailbox::new();
    assert_eq!(mailbox.deposit(Envelope::new(Rc::clone(&a), chat(), vec![1])), Ok(()));
    assert_eq!(
        mailbox.deposit(Envelope::new(Rc::clone(&a), chat(), vec![2])),
        Err(MailboxSendError::Pending)
    );
    assert_eq!(mailbox.deposit(Envelope::new(Rc::clone(&a), ping(), vec![3])), Ok(()));
    assert_eq!(mailbox.len(), 2);
    assert_eq!(mailbox.receive().unwrap().payload().as_slice(), &[1]);
    assert_eq!(mailbox.receive().unwrap().payload().as_slice(), &[3]);
}

#[test]
fn waiting_for_any_of_some_interfaces() {
    let (a, r) = (thread(1), thread(2));
    let mut mailbox = Mailbox::new();
    let (c, p) = (chat(), ping());
    assert!(!mailbox.has_any(&[&c, &p]));
    assert!(!mailbox.has_any(&[]));
    let pings = Sender::<()>::new(Rc::clone(&r), ping());
    assert_eq!(pings.send(&a, &mut mailbox, &()), Ok(()));
    assert!(mailbox.has_any(&[&c, &p]));
    assert!(mailbox.has_any(&[&p]));
    assert!(!mailbox.has_any(&[&c]));
    assert!(!mailbox.has_any(&[]));
}

#[test]
fn envelope_is_accepted_under_its_interface_only() {
    let a = thread(1);
    let accepted = Envelope::new(Rc::clone(&a), chat(), b"hello".to_vec()).accept::<Text>();
    let received = accepted.ok().unwrap();
    assert_eq!(received.message, text("hello"));
    assert_eq!(received.sender.uid().low, 1);
    let refused = Envelope::new(Rc::clone(&a), ping(), b"hello".to_vec()).accept::<Text>();
    assert_eq!(refused.err(), Some(ReceiveError::Unsupported));
    let other_version = Rc::new(Interface::new(Path::new(nodes(&["app", "chat"])), Version(1, 0, 1)));
    let refused = Envelope::new(a, other_version, vec![]).accept::<Text>();
    assert_eq!(refused.err(), Some(ReceiveError::Unsupported));
}

#[test]
fn signal_has_no_bytes() {
    assert!(().as_msg_bytes().is_empty());
    let (a, r) = (thread(1), thread(2));
    let mut mailbox = Mailbox::new();
    let signal = Sender::<()>::new(r, ping());
    assert_eq!(signal.send(&a, &mut mailbox, &()), Ok(()));
    let e = mailbox.receive().unwrap();
    assert!(e.payload().is_empty());
    assert!(**e.interface() == *ping());
    assert!(**signal.interface() == *ping());
    assert_eq!(signal.dest().uid().low, 2);
}

#[test]
fn time_is_transferred_on_the_same_unit_only() {
    let alive = Sender::<()>::new(thread(2), ping());
    assert_eq!(alive.transfer_time(true), Ok(()));
    assert_eq!(alive.transfer_time(false), Err(SendError::ConnectionLost));
    let lost = Sender::<()>::new(thread_in(2, State::Running, false), ping());
    assert_eq!(lost.transfer_time(true), Err(SendError::ConnectionLost));
    for state in [State::Ceased, State::Killed] {
        let dead = Sender::<()>::new(thread_in(2, state, true), ping());
        assert_eq!(dead.transfer_time(true), Err(SendError::Died));
        assert_eq!(dead.transfer_time(false), Err(SendError::Died));
    }
    let paused = Sender::<()>::new(thread_in(2, State::Paused, true), ping());
    assert_eq!(paused.transfer_time(true), Ok(()));
}
