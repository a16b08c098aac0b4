//! Threads: their life cycle, and what an owner may ask of them.
//!
//! An owner asks, and the environment confirms. What was asked for shows in
//! the state until the confirmation arrives: a thread that was allowed to
//! run is `PausedRunRequested` first and `Running` once the environment has
//! confirmed it.
use vstd::prelude::*;
use vstd::std_specs::cmp::PartialOrdSpecImpl;
use crate::path::InstanceId;
use crate::path::InstanceIdView;
use crate::path::Interface;
use crate::path::LocalPath;
use crate::path::Uid;
use crate::rsc::refreshed;
use crate::rsc::Handle;
use crate::rsc::Variable;
use crate::wait::is_over;
use crate::wait::over;
use crate::wait::Progress;
use std::cmp::Ordering;
use std::ops::Deref;
use std::rc::Rc;
use std::time::Duration;

verus! {

/// A number in IEEE 754 single precision, held by its bits. The library
/// carries such numbers to the scheduler and never computes with them.
#[derive(Clone, Copy, Debug, PartialEq, Eq, Structural)]
pub struct Scalar(pub u32);

/// Priority is the relative importance of a thread over another one. It
/// helps the scheduler to decide which thread runs next, and for how long.
pub type Priority = Scalar;

/// State of the thread.
#[derive(Clone, Copy, Debug, PartialEq, Eq, Structural)]
pub enum State {
    Running,
    Paused,
    Ceased,
    Killed,
    PausedRunRequested,
    RunningPauseRequested,
    RunningCeaseRequested,
    PausedCeaseRequested,
}

impl State {
    /// The state after the owner has allowed the thread to run: a paused
    /// thread waits for the run to be confirmed, any other stays as it is.
    pub open spec fn after_allow_run(self) -> State {
        match self {
            State::Paused => State::PausedRunRequested,
            other => other,
        }
    }

    /// The state after the owner has asked for a pause: a running thread
    /// waits for the pause to be confirmed, any other stays as it is.
    pub open spec fn after_request_pause(self) -> State {
        match self {
            State::Running => State::RunningPauseRequested,
            other => other,
        }
    }

    /// The state after the owner has asked the thread to cease: a running or
    /// paused thread waits for that to be confirmed, any other stays as it
    /// is.
    pub open spec fn after_request_cease(self) -> State {
        match self {
            State::Running => State::RunningCeaseRequested,
            State::Paused => State::PausedCeaseRequested,
            other => other,
        }
    }

    /// The state after the environment has confirmed what was asked for. A
    /// state in which nothing was asked for stays as it is.
    pub open spec fn after_confirm(self) -> State {
        match self {
            State::PausedRunRequested => State::Running,
            State::RunningPauseRequested => State::Paused,
            State::RunningCeaseRequested => State::Ceased,
            State::PausedCeaseRequested => State::Ceased,
            other => other,
        }
    }

    /// The state after a kill: a thread that is alive is killed, whatever
    /// was asked of it before; a dead one stays as it is.
    pub open spec fn after_kill(self) -> State {
        match self {
            State::Ceased => State::Ceased,
            _ => State::Killed,
        }
    }

    /// Whether the thread has ended, by ceasing or by being killed.
    pub open spec fn dead(self) -> bool {
        self == State::Ceased || self == State::Killed
    }

    pub fn is_running(&self) -> (b: bool)
        ensures
            b == (*self == State::Running),
    {
        State::Running == *self
    }

    pub fn is_paused(&self) -> (b: bool)
        ensures
            b == (*self == State::Paused),
    {
        State::Paused == *self
    }

    pub fn is_pause_requested(&self) -> (b: bool)
        ensures
            b == (*self == State::RunningPauseRequested),
    {
        State::RunningPauseRequested == *self
    }

    pub fn is_run_requested(&self) -> (b: bool)
        ensures
            b == (*self == State::PausedRunRequested),
    {
        State::PausedRunRequested == *self
    }

    pub fn is_killed(&self) -> (b: bool)
        ensures
            b == (*self == State::Killed),
    {
        State::Killed == *self
    }

    pub fn is_ceased(&self) -> (b: bool)
        ensures
            b == (*self == State::Ceased),
    {
        State::Ceased == *self
    }

    pub fn is_cease_requested(&self) -> (b: bool)
        ensures
            b == (*self == State::PausedCeaseRequested || *self == State::RunningCeaseRequested),
    {
        State::PausedCeaseRequested == *self || State::RunningCeaseRequested == *self
    }

    pub fn is_dead(&self) -> (b: bool)
        ensures
            b == self.dead(),
            b == (*self == State::Ceased || *self == State::Killed),
    {
        self.is_killed() || self.is_ceased()
    }

    /// The state after the owner has allowed the thread to run.
    pub fn allow_run(self) -> (next: State)
        ensures
            next == self.after_allow_run(),
    {
        match self {
            State::Paused => State::PausedRunRequested,
            other => other,
        }
    }

    /// The state after the owner has asked for a pause.
    pub fn request_pause(self) -> (next: State)
        ensures
            next == self.after_request_pause(),
    {
        match self {
            State::Running => State::RunningPauseRequested,
            other => other,
        }
    }

    /// The state after the owner has asked the thread to cease.
    pub fn request_cease(self) -> (next: State)
        ensures
            next == self.after_request_cease(),
    {
        match self {
            State::Running => State::RunningCeaseRequested,
            State::Paused => State::PausedCeaseRequested,
            other => other,
        }
    }

    /// The state after the environment has confirmed what was asked for.
    pub fn confirm(self) -> (next: State)
        ensures
            next == self.after_confirm(),
    {
        match self {
            State::PausedRunRequested => State::Running,
            State::RunningPauseRequested => State::Paused,
            State::RunningCeaseRequested => State::Ceased,
            State::PausedCeaseRequested => State::Ceased,
            other => other,
        }
    }

    /// The state after a kill.
    pub fn kill(self) -> (next: State)
        ensures
            next == self.after_kill(),
    {
        match self {
            State::Ceased => State::Ceased,
            _ => State::Killed,
        }
    }
}

/// A dead thread stays as it is: no request, confirmation or kill leaves
/// `Ceased` or `Killed`.
pub proof fn dead_is_final(s: State)
    requires
        s.dead(),
    ensures
        s.after_allow_run() == s,
        s.after_request_pause() == s,
        s.after_request_cease() == s,
        s.after_confirm() == s,
        s.after_kill() == s,
{
}

/// A request never ends a thread, and never changes what a thread that waits
/// for a confirmation waits for.
pub proof fn requests_keep_alive(s: State)
    requires
        !s.dead(),
    ensures
        !s.after_allow_run().dead(),
        !s.after_request_pause().dead(),
        !s.after_request_cease().dead(),
        s.after_allow_run() == s || s == State::Paused,
        s.after_request_pause() == s || s == State::Running,
        s.after_request_cease() == s || s == State::Running || s == State::Paused,
{
}

/// A confirmation ends a thread only if it was asked to cease, and never
/// kills it. After a confirmation nothing is left to confirm.
pub proof fn confirmation_follows_request(s: State)
    ensures
        s.after_confirm() == State::Ceased ==> s == State::Ceased || s
            == State::RunningCeaseRequested || s == State::PausedCeaseRequested,
        s.after_confirm() == State::Killed ==> s == State::Killed,
        s.after_confirm().after_confirm() == s.after_confirm(),
{
}

/// What an owner asks for comes about in two steps, the request and its
/// confirmation, and the thread is alive in between: a paused thread that is
/// allowed to run is running after the confirmation, a running thread that is
/// asked to pause is paused after it, and a running or paused thread that is
/// asked to cease has ceased after it.
pub proof fn request_is_confirmed(s: State)
    ensures
        s == State::Paused ==> !s.after_allow_run().dead() && s.after_allow_run().after_confirm()
            == State::Running,
        s == State::Running ==> !s.after_request_pause().dead()
            && s.after_request_pause().after_confirm() == State::Paused,
        s == State::Running || s == State::Paused ==> !s.after_request_cease().dead()
            && s.after_request_cease().after_confirm() == State::Ceased,
{
}

/// Performance policy defines the way CPU time is allocated for given thread.
/// `Performance` ranks above `Normal`.
#[derive(Clone, Copy, Debug, PartialEq, Eq, Structural)]
pub enum PerformancePolicy {
    /// Request best performance possible for given thread.
    Performance,
    /// No special requests.
    Normal,
}

impl PerformancePolicy {
    /// How much the policy asks for.
    pub open spec fn rank(self) -> nat {
        match self {
            PerformancePolicy::Performance => 1,
            PerformancePolicy::Normal => 0,
        }
    }

    /// How `self` stands to `other` by rank.
    pub open spec fn order(self, other: PerformancePolicy) -> Ordering {
        if self.rank() < other.rank() {
            Ordering::Less
        } else if self.rank() == other.rank() {
            Ordering::Equal
        } else {
            Ordering::Greater
        }
    }

    /// Whether a caller who may have `most_supported` at most may have this
    /// policy.
    pub fn permitted_by(self, most_supported: PerformancePolicy) -> (ok: bool)
        ensures
            ok == (self.rank() <= most_supported.rank()),
    {
        match (self, most_supported) {
            (PerformancePolicy::Performance, PerformancePolicy::Normal) => false,
            _ => true,
        }
    }
}

impl PartialOrd for PerformancePolicy {
    fn partial_cmp(&self, other: &Self) -> (o: Option<Ordering>) {
        match (*self, *other) {
            (PerformancePolicy::Performance, PerformancePolicy::Normal) => Some(Ordering::Greater),
            (PerformancePolicy::Normal, PerformancePolicy::Performance) => Some(Ordering::Less),
            _ => Some(Ordering::Equal),
        }
    }
}

impl PartialOrdSpecImpl for PerformancePolicy {
    open spec fn obeys_partial_cmp_spec() -> bool {
        true
    }

    open spec fn partial_cmp_spec(&self, other: &Self) -> Option<Ordering> {
        Some(self.order(*other))
    }
}

/// Detailed information about how and when to run a task.
#[derive(Clone, Copy, PartialEq)]
pub struct TaskDetail {
    /// Estimated time left for execution to end.
    pub estimate_left: Duration,
    /// Margin for error for task execution time.
    pub margin: Duration,
    /// Priority over other tasks of the same type.
    pub priority: Priority,
}

/// `time::Time`, a clock time within a day.
#[verifier::external_type_specification]
#[verifier::external_body]
pub struct ExTime(time::Time);

/// Thread type with associated information, by which the scheduler decides
/// on time allocation and execution order.
#[derive(Clone, Copy, PartialEq)]
pub enum Type {
    /// Thread that is executed as task. It has associated estimate time of
    /// completion.
    TimerTask(TaskDetail),
    /// Task that caches information that might be needed later. Such tasks
    /// run when the system would otherwise be idle, and may not run at all.
    CachingTask {
        basic: TaskDetail,
        /// How probable it is that the cached information will be needed,
        /// from zero to one.
        probability: Scalar,
        /// Time in the network until which the data should be cached. A task
        /// that was not run by then is asked for a new time, for another
        /// type, or to cease.
        until: time::Time,
    },
    /// Typical application thread that runs in parallel with other threads.
    Parallel,
}

/// Publicity defines who can initiate communication with selected thread.
#[derive(Clone, Copy, Debug, PartialEq, Eq, PartialOrd, Ord, Structural)]
pub enum Publicity {
    /// All external threads can initiate communication with selected thread.
    Public,
    /// Only threads from the same or descendant packages can initiate
    /// communication.
    Package,
    /// No threads from the same package can initiate communication but
    /// descendant threads can.
    Descendant,
    /// No threads can initiate communication with selected thread.
    Private,
}

/// What a [`Thread`] is.
pub struct ThreadView {
    pub instance: InstanceIdView,
    pub state: State,
    pub publicity: Publicity,
    pub performance: PerformancePolicy,
    pub reachable: bool,
}

/// General information about a thread in the network, as of the time the
/// snapshot was taken.
pub struct Thread {
    instance: Rc<InstanceId>,
    state: State,
    publicity: Publicity,
    performance: PerformancePolicy,
    reachable: bool,
}

impl View for Thread {
    type V = ThreadView;

    closed spec fn view(&self) -> ThreadView {
        ThreadView {
            instance: self.instance@,
            state: self.state,
            publicity: self.publicity,
            performance: self.performance,
            reachable: self.reachable,
        }
    }
}

impl Thread {
    /// The snapshot of the thread `instance` with the given state and
    /// policies. `reachable` says whether the environment has a connection to
    /// the thread.
    pub fn new(
        instance: Rc<InstanceId>,
        state: State,
        publicity: Publicity,
        performance: PerformancePolicy,
        reachable: bool,
    ) -> (t: Self)
        ensures
            t@ == (ThreadView { instance: instance@, state, publicity, performance, reachable }),
    {
        Thread { instance, state, publicity, performance, reachable }
    }

    /// State of the thread when the snapshot was taken.
    pub fn state(&self) -> (s: State)
        ensures
            s == self@.state,
    {
        self.state
    }

    /// The instance that this thread is.
    pub fn instance(&self) -> (i: &Rc<InstanceId>)
        ensures
            i@ == self@.instance,
    {
        &self.instance
    }

    /// Who may initiate communication with the thread.
    pub fn publicity(&self) -> (p: Publicity)
        ensures
            p == self@.publicity,
    {
        self.publicity
    }

    /// The performance policy of the thread.
    pub fn performance_policy(&self) -> (p: PerformancePolicy)
        ensures
            p == self@.performance,
    {
        self.performance
    }

    /// Whether the environment had a connection to the thread.
    pub fn is_reachable(&self) -> (r: bool)
        ensures
            r == self@.reachable,
    {
        self.reachable
    }
}

impl Clone for Thread {
    fn clone(&self) -> (t: Self)
        ensures
            t == *self,
    {
        Thread {
            instance: Rc::clone(&self.instance),
            state: self.state,
            publicity: self.publicity,
            performance: self.performance,
            reachable: self.reachable,
        }
    }
}

impl Handle for Thread {
    open spec fn id(&self) -> Uid {
        self@.instance.uid
    }

    fn uid(&self) -> (u: Uid) {
        self.instance.uid()
    }
}

impl Variable for Thread {
    fn update(&mut self, latest: Self) {
        if latest.uid() == self.uid() {
            *self = latest;
        }
    }

    fn download_latest(&self, latest: Self) -> (fresh: Self) {
        if latest.uid() == self.uid() {
            latest
        } else {
            self.clone()
        }
    }
}

/// A thread together with the rights of its owner, who can affect its
/// execution and change some of its data.
pub struct OwnedThread {
    thread: Thread,
}

impl View for OwnedThread {
    type V = ThreadView;

    closed spec fn view(&self) -> ThreadView {
        self.thread@
    }
}

impl Deref for OwnedThread {
    type Target = Thread;

    fn deref(&self) -> (t: &Thread)
        ensures
            t@ == self@,
    {
        &self.thread
    }
}

impl OwnedThread {
    /// The thread `thread`, held by its owner.
    pub fn new(thread: Thread) -> (owned: Self)
        ensures
            owned@ == thread@,
    {
        OwnedThread { thread }
    }

    /// Allow execution of this thread.
    pub fn allow_run(&mut self)
        ensures
            final(self)@ == (ThreadView { state: old(self)@.state.after_allow_run(), ..old(self)@ }),
    {
        self.thread.state = self.thread.state.allow_run();
    }

    /// Request pausing of this thread, to prevent further execution until a
    /// run is allowed again.
    pub fn request_pause(&mut self)
        ensures
            final(self)@ == (ThreadView {
                state: old(self)@.state.after_request_pause(),
                ..old(self)@
            }),
    {
        self.thread.state = self.thread.state.request_pause();
    }

    /// Notify thread to cease.
    pub fn request_cease(&mut self)
        ensures
            final(self)@ == (ThreadView {
                state: old(self)@.state.after_request_cease(),
                ..old(self)@
            }),
    {
        self.thread.state = self.thread.state.request_cease();
    }

    /// Takes note that the environment has confirmed what was asked of the
    /// thread.
    pub fn confirm(&mut self)
        ensures
            final(self)@ == (ThreadView { state: old(self)@.state.after_confirm(), ..old(self)@ }),
    {
        self.thread.state = self.thread.state.confirm();
    }

    /// Kill thread immediately, without request and confirmation. A thread
    /// may guard itself against that, and takes or drops the guard as it
    /// likes; `guarded` says whether it holds the guard now. Not even the
    /// owner can kill a guarded thread. What a killed thread owned is lost,
    /// and shared resources that it was changing may be left corrupted: it
    /// is best to use [`Self::request_cease`] instead.
    ///
    /// `Err` is returned, and nothing changes, if the thread is guarded.
    /// Else the thread is killed, unless it has ceased already: a thread that
    /// has ended stays as it is.
    pub fn brute_kill(&mut self, guarded: bool) -> (r: Result<(), ()>)
        ensures
            r is Err <==> guarded,
            r is Err ==> final(self)@ == old(self)@,
            r is Ok ==> final(self)@ == (ThreadView {
                state: old(self)@.state.after_kill(),
                ..old(self)@
            }),
    {
        if guarded {
            Err(())
        } else {
            self.thread.state = self.thread.state.kill();
            Ok(())
        }
    }

    /// One step of sleeping for at least the given duration, of which
    /// `waited` has passed. The thread is blocked until it has waited for
    /// `duration`: it may be woken later, never earlier.
    pub fn sleep(&mut self, duration: Duration, waited: Duration) -> (r: Progress<()>)
        ensures
            final(self)@ == old(self)@,
            r == if over(duration, waited) {
                Progress::Done(())
            } else {
                Progress::Blocked
            },
    {
        if is_over(&duration, &waited) {
            Progress::Done(())
        } else {
            Progress::Blocked
        }
    }

    /// Try changing the performance policy. `most_supported` is the highest
    /// policy that the environment permits the caller. A policy above it is
    /// refused with `Err(most_supported)` and nothing changes: the policy is
    /// never lowered silently.
    pub fn set_performance_policy(
        &mut self,
        policy: PerformancePolicy,
        most_supported: PerformancePolicy,
    ) -> (r: Result<(), PerformancePolicy>)
        ensures
            r is Ok <==> policy.rank() <= most_supported.rank(),
            r is Ok ==> final(self)@ == (ThreadView { performance: policy, ..old(self)@ }),
            r is Err ==> r == Err::<(), PerformancePolicy>(most_supported) && final(self)@ == old(
                self,
            )@,
    {
        if policy.permitted_by(most_supported) {
            self.thread.performance = policy;
            Ok(())
        } else {
            Err(most_supported)
        }
    }

    /// Get current performance policy.
    pub fn performance_policy(&self) -> (p: PerformancePolicy)
        ensures
            p == self@.performance,
    {
        self.thread.performance
    }
}

/// Information that is required to build a thread.
pub struct ThreadBuilder<'a, 'b> {
    pub local_path: LocalPath<'a>,
    pub ty: Type,
    pub publicity: Publicity,
    /// The performance policy that is asked for.
    pub performance: PerformancePolicy,
    pub imp: &'b Interface,
}

/// Why a thread was not built.
#[derive(Clone, Copy, Debug, PartialEq, Eq, Structural)]
pub enum ThreadBuildError {
    /// Creator has no rights to create this type of threads.
    ThreadCreationNotPermitted,
    /// Performance policy requested is not permitted for creator.
    PerformancePolicyNotPermitted { most_supported: PerformancePolicy },
    /// Implementation for requested interface was not found.
    NotFound,
}

impl<'a, 'b> ThreadBuilder<'a, 'b> {
    /// Whether `implementer` is an implementer of the interface that the
    /// thread is to implement.
    pub open spec fn implemented_by(&self, implementer: Option<Rc<InstanceId>>) -> bool {
        implementer is Some && implementer->0@.interface.same(self.imp@)
    }

    /// What [`Self::build`] answers, if not a thread.
    pub open spec fn refused(
        &self,
        permitted: bool,
        most_supported: PerformancePolicy,
        implementer: Option<Rc<InstanceId>>,
    ) -> Option<ThreadBuildError> {
        if !permitted {
            Some(ThreadBuildError::ThreadCreationNotPermitted)
        } else if self.performance.rank() > most_supported.rank() {
            Some(ThreadBuildError::PerformancePolicyNotPermitted { most_supported })
        } else if !self.implemented_by(implementer) {
            Some(ThreadBuildError::NotFound)
        } else {
            None
        }
    }

    /// Builds the thread from what the environment answered to the request:
    /// whether the creator may create threads of this type (`permitted`),
    /// the highest performance policy it may ask for (`most_supported`), and
    /// the instance that will run as the new thread (`implementer`), if the
    /// environment found an implementation.
    ///
    /// The new thread is paused, and has the publicity and the performance
    /// policy that were asked for. The build is refused, in this order,
    /// where the creator lacks the right, where the policy is above
    /// `most_supported`, and where there is no implementer or it implements
    /// another interface.
    pub fn build(
        &self,
        permitted: bool,
        most_supported: PerformancePolicy,
        implementer: Option<Rc<InstanceId>>,
    ) -> (r: Result<OwnedThread, ThreadBuildError>)
        ensures
            match self.refused(permitted, most_supported, implementer) {
                Some(e) => r == Err::<OwnedThread, ThreadBuildError>(e),
                None => r is Ok && r->Ok_0@ == (ThreadView {
                    instance: implementer->0@,
                    state: State::Paused,
                    publicity: self.publicity,
                    performance: self.performance,
                    reachable: true,
                }),
            },
    {
        if !permitted {
            return Err(ThreadBuildError::ThreadCreationNotPermitted);
        }
        if !self.performance.permitted_by(most_supported) {
            return Err(ThreadBuildError::PerformancePolicyNotPermitted { most_supported });
        }
        match implementer {
            Some(instance) => {
                if **instance.interface() == *self.imp {
                    Ok(
                        OwnedThread::new(
                            Thread::new(
                                instance,
                                State::Paused,
                                self.publicity,
                                self.performance,
                                true,
                            ),
                        ),
                    )
                } else {
                    Err(ThreadBuildError::NotFound)
                }
            },
            None => Err(ThreadBuildError::NotFound),
        }
    }
}

} // verus!
