//! The misbehaviour monitor.
//!
//! The monitor watches the clients that one chain hosts. It first checks each
//! client in scope once, then listens to the chain's events and checks a
//! client again whenever the chain reports an update of it. Checking means
//! asking for misbehaviour detection; the monitor never judges headers
//! itself. It decides which clients are in scope and when to ask.
//!
//! The monitor does no input or output. It is a machine that is told what
//! happened (an [`Event`]) and answers with what to do next (an [`Action`]).
//! The caller performs each action against the chain and hands the outcome
//! back as the next event. One action is outstanding at any time.

use vstd::prelude::*;
use crate::any::AnyClientState;
use crate::events::ClientMisbehaviour;
use crate::events::CreateClient;
use crate::events::IbcEvent;
use crate::events::UpdateClient;
use crate::identifier::ClientId;

verus! {

/// What submitting evidence of misbehaviour gave: the events of the chain
/// that accepted it.
#[derive(Debug, PartialEq, Eq)]
pub struct SubmissionResult {
    pub events: Vec<IbcEvent>,
}

/// A client to check, with the update that gave rise to the check. The first
/// check of a client has no update.
#[derive(Debug, PartialEq, Eq)]
pub struct Target {
    pub client_id: ClientId,
    pub update: Option<UpdateClient>,
}

/// Something the operator is told.
#[derive(Debug, PartialEq, Eq)]
pub enum Notice {
    /// Misbehaviour was found and evidence of it was submitted.
    EvidenceSubmitted { client_id: ClientId, result: SubmissionResult },
    /// The state of a client could not be had; the client was not checked.
    ClientStateUnavailable { client_id: ClientId, reason: String },
    /// Detection or the submission of evidence failed for a client.
    DetectionFailed { client_id: ClientId, reason: String },
    /// The chain created a client. Nothing about the new client has been
    /// verified, and the monitor does not watch it.
    ClientCreated(CreateClient),
    /// The chain accepted evidence of misbehaviour that came from elsewhere.
    MisbehaviourObserved(ClientMisbehaviour),
}

/// A piece of work that waits its turn.
#[derive(Debug, PartialEq, Eq)]
pub enum Work {
    Scan(Target),
    Notify(Notice),
}

/// How far the check of one client has come.
#[derive(Copy, Clone, Debug, PartialEq, Eq, Structural)]
pub enum Stage {
    /// The state of the client has been asked for.
    AwaitingClientState,
    /// Detection has been asked for.
    AwaitingDetection,
}

/// Where the monitor stands.
#[derive(Debug, PartialEq, Eq)]
pub enum Phase {
    /// Not started.
    Idle,
    /// Bootstrapping: the clients of the chain have been asked for.
    ResolvingClients,
    /// Scanning: the check of one client is under way.
    Scanning { target: Target, stage: Stage },
    /// A notice is with the operator.
    Reporting,
    /// A subscription to the chain's events has been asked for.
    Subscribing,
    /// Listening: the next batch of events has been asked for.
    Listening,
    /// Stopped for good.
    Shutdown,
}

/// Why the monitor stopped, where it did not stop on request.
#[derive(Debug, PartialEq, Eq)]
pub enum MonitorError {
    /// The clients of the chain could not be listed.
    QueryClientsFailed(String),
    /// The subscription failed and no attempt to renew it is left.
    SubscriptionLost(String),
    /// The caller reported something that does not answer the outstanding
    /// action.
    UnexpectedEvent,
}

/// What the caller tells the monitor.
#[derive(Debug, PartialEq, Eq)]
pub enum Event {
    /// Begin. Answers nothing; it is the first event.
    Start,
    /// The clients of the chain. Answers `QueryClients`.
    Clients(Vec<ClientId>),
    /// The clients could not be listed. Answers `QueryClients`.
    ClientsFailed(String),
    /// The latest state of the client. Answers `QueryClientState`.
    ClientState(AnyClientState),
    /// The state of the client could not be had. Answers `QueryClientState`.
    ClientStateFailed(String),
    /// Detection ran: it found nothing, or it found misbehaviour and
    /// submitted evidence. Answers `Detect`.
    Detected(Option<SubmissionResult>),
    /// The counterparty chain could not be reached, or detection or the
    /// submission failed. Answers `Detect`.
    DetectionFailed(String),
    /// The operator has the notice. Answers `Report`.
    Reported,
    /// The subscription is open. Answers `Subscribe`.
    Subscribed,
    /// The subscription could not be opened. Answers `Subscribe`.
    SubscribeFailed(String),
    /// A batch of events, in the order in which the chain emitted them.
    /// Answers `Receive`.
    Batch(Vec<IbcEvent>),
    /// The subscription is closed or the wait timed out. Answers `Receive`.
    ReceiveFailed(String),
}

/// What the monitor asks the caller to do.
#[derive(Debug, PartialEq, Eq)]
pub enum Action {
    /// List the clients that the chain hosts.
    QueryClients,
    /// Query the latest state of a client.
    QueryClientState(ClientId),
    /// Check a client: reach the chain that `client_state` names, bind a
    /// foreign client to the two chains, and have it detect misbehaviour and
    /// submit the evidence, for `update` if there is one.
    Detect { client_id: ClientId, client_state: AnyClientState, update: Option<UpdateClient> },
    /// Tell the operator.
    Report(Notice),
    /// Open a subscription to the chain's events.
    Subscribe,
    /// Wait for the next batch of events.
    Receive,
    /// Stop: cleanly, or with the error that ended the monitor.
    Exit(Result<(), MonitorError>),
}

/// The monitor of one chain.
#[derive(Debug, PartialEq, Eq)]
pub struct Monitor {
    /// The one client to watch; every client of the chain where there is none.
    pub client_filter: Option<ClientId>,
    /// How many times in a row a lost subscription is renewed.
    pub max_retries: u32,
    /// How many of those attempts are left.
    pub retries_left: u32,
    /// A stop has been asked for.
    pub stop_requested: bool,
    /// The first checks are done and a subscription has been opened.
    pub subscribed: bool,
    pub phase: Phase,
    /// The work that waits, in the order in which it will be done.
    pub queue: Vec<Work>,
}

/// A monitor as contracts see it: the queue is a sequence.
pub struct MonitorView {
    pub client_filter: Option<ClientId>,
    pub max_retries: u32,
    pub retries_left: u32,
    pub stop_requested: bool,
    pub subscribed: bool,
    pub phase: Phase,
    pub queue: Seq<Work>,
}

impl View for Monitor {
    type V = MonitorView;

    open spec fn view(&self) -> MonitorView {
        MonitorView {
            client_filter: self.client_filter,
            max_retries: self.max_retries,
            retries_left: self.retries_left,
            stop_requested: self.stop_requested,
            subscribed: self.subscribed,
            phase: self.phase,
            queue: self.queue@,
        }
    }
}

/// The first check of each client, in the order of the list.
pub open spec fn first_scans(ids: Seq<ClientId>) -> Seq<Work> {
    Seq::new(ids.len(), |i: int| Work::Scan(Target { client_id: ids[i], update: None }))
}

/// The filter lets the client through: there is no filter, or it names this
/// client.
pub open spec fn in_scope(filter: Option<ClientId>, client_id: ClientId) -> bool {
    match filter {
        Some(wanted) => wanted@ == client_id@,
        None => true,
    }
}

/// The work that one event of the chain calls for.
///
/// An update of a client in scope calls for a check of that client with the
/// update; an update of any other client calls for nothing. The creation of a
/// client and misbehaviour reported by the chain are told to the operator.
/// Every other event is ignored.
pub open spec fn work_of_event(filter: Option<ClientId>, event: IbcEvent) -> Option<Work> {
    match event {
        IbcEvent::UpdateClient(update) => if in_scope(filter, update.0.client_id) {
            Some(Work::Scan(Target { client_id: update.0.client_id, update: Some(update) }))
        } else {
            None
        },
        IbcEvent::CreateClient(create) => Some(Work::Notify(Notice::ClientCreated(create))),
        IbcEvent::ClientMisbehaviour(misbehaviour) => Some(
            Work::Notify(Notice::MisbehaviourObserved(misbehaviour)),
        ),
        _ => None,
    }
}

/// The work that a batch of events calls for: the work of each event, in the
/// order of the batch.
pub open spec fn work_of_batch(filter: Option<ClientId>, events: Seq<IbcEvent>) -> Seq<Work>
    decreases events.len(),
{
    if events.len() == 0 {
        Seq::empty()
    } else {
        let before = work_of_batch(filter, events.drop_last());
        match work_of_event(filter, events.last()) {
            Some(work) => before.push(work),
            None => before,
        }
    }
}

impl MonitorView {
    /// The monitor is in a state that it can reach from a new monitor.
    ///
    /// No more attempts are left than the monitor may make in a row, and
    /// while the monitor has not started, resolves the clients, subscribes or
    /// listens, no work waits: the monitor asks for a subscription or for the
    /// next batch only once it has worked off what it had.
    pub open spec fn wf(self) -> bool {
        &&& self.retries_left <= self.max_retries
        &&& (self.phase is Idle || self.phase is ResolvingClients || self.phase is Subscribing
            || self.phase is Listening) ==> self.queue.len() == 0
    }

    /// The same monitor in another phase.
    pub open spec fn in_phase(self, phase: Phase) -> MonitorView {
        MonitorView { phase, ..self }
    }

    /// The same monitor with other work waiting.
    pub open spec fn with_queue(self, queue: Seq<Work>) -> MonitorView {
        MonitorView { queue, ..self }
    }

    /// What the monitor does when it is free to go on.
    ///
    /// It takes up the work that has waited longest: a check starts with the
    /// query for the client's state, a notice goes to the operator. With no
    /// work waiting, the monitor stops if a stop was asked for, opens the
    /// subscription if it has none, and otherwise waits for the next batch. A
    /// stop thus takes effect between batches and never in the middle of
    /// one.
    pub open spec fn advance(self) -> (MonitorView, Action) {
        if self.queue.len() > 0 {
            match self.queue[0] {
                Work::Scan(target) => (
                    MonitorView {
                        phase: Phase::Scanning { target, stage: Stage::AwaitingClientState },
                        queue: self.queue.remove(0),
                        ..self
                    },
                    Action::QueryClientState(target.client_id),
                ),
                Work::Notify(notice) => (
                    MonitorView { phase: Phase::Reporting, queue: self.queue.remove(0), ..self },
                    Action::Report(notice),
                ),
            }
        } else if self.stop_requested {
            (self.in_phase(Phase::Shutdown), Action::Exit(Ok(())))
        } else if !self.subscribed {
            (self.in_phase(Phase::Subscribing), Action::Subscribe)
        } else {
            (self.in_phase(Phase::Listening), Action::Receive)
        }
    }

    /// What the monitor does when the subscription fails: it asks for a new
    /// one while attempts are left, and stops with `SubscriptionLost` when
    /// none is.
    pub open spec fn retry(self, reason: String) -> (MonitorView, Action) {
        if self.retries_left > 0 {
            (
                MonitorView {
                    phase: Phase::Subscribing,
                    retries_left: (self.retries_left - 1) as u32,
                    subscribed: false,
                    ..self
                },
                Action::Subscribe,
            )
        } else {
            (
                self.in_phase(Phase::Shutdown),
                Action::Exit(Err(MonitorError::SubscriptionLost(reason))),
            )
        }
    }

    /// What a request to stop does: it ends a monitor that waits for the next
    /// batch, and is noted by a monitor that is at work.
    pub open spec fn stop(self) -> (MonitorView, Option<Action>) {
        if self.phase is Listening {
            (
                MonitorView { stop_requested: true, phase: Phase::Shutdown, ..self },
                Some(Action::Exit(Ok(()))),
            )
        } else {
            (MonitorView { stop_requested: true, ..self }, None)
        }
    }

    /// The monitor stops because the event does not answer what it asked.
    pub open spec fn refuse(self) -> (MonitorView, Action) {
        (self.in_phase(Phase::Shutdown), Action::Exit(Err(MonitorError::UnexpectedEvent)))
    }

    /// The next state of the monitor and the action it asks for, given its
    /// state and what happened.
    pub open spec fn step(self, event: Event) -> (MonitorView, Action) {
        match (self.phase, event) {
            (Phase::Idle, Event::Start) => match self.client_filter {
                Some(client_id) => self.with_queue(
                    seq![Work::Scan(Target { client_id, update: None })],
                ).advance(),
                None => (self.in_phase(Phase::ResolvingClients), Action::QueryClients),
            },
            (Phase::ResolvingClients, Event::Clients(ids)) => self.with_queue(
                first_scans(ids@),
            ).advance(),
            (Phase::ResolvingClients, Event::ClientsFailed(reason)) => (
                self.in_phase(Phase::Shutdown),
                Action::Exit(Err(MonitorError::QueryClientsFailed(reason))),
            ),
            (
                Phase::Scanning { target, stage: Stage::AwaitingClientState },
                Event::ClientState(client_state),
            ) => if client_state.frozen() {
                self.advance()
            } else {
                (
                    self.in_phase(Phase::Scanning { target, stage: Stage::AwaitingDetection }),
                    Action::Detect {
                        client_id: target.client_id,
                        client_state,
                        update: target.update,
                    },
                )
            },
            (
                Phase::Scanning { target, stage: Stage::AwaitingClientState },
                Event::ClientStateFailed(reason),
            ) => (
                self.in_phase(Phase::Reporting),
                Action::Report(
                    Notice::ClientStateUnavailable { client_id: target.client_id, reason },
                ),
            ),
            (
                Phase::Scanning { target, stage: Stage::AwaitingDetection },
                Event::Detected(Some(result)),
            ) => (
                self.in_phase(Phase::Reporting),
                Action::Report(Notice::EvidenceSubmitted { client_id: target.client_id, result }),
            ),
            (Phase::Scanning { target, stage: Stage::AwaitingDetection }, Event::Detected(None)) =>
                self.advance(),
            (
                Phase::Scanning { target, stage: Stage::AwaitingDetection },
                Event::DetectionFailed(reason),
            ) => (
                self.in_phase(Phase::Reporting),
                Action::Report(Notice::DetectionFailed { client_id: target.client_id, reason }),
            ),
            (Phase::Reporting, Event::Reported) => self.advance(),
            (Phase::Subscribing, Event::Subscribed) => MonitorView {
                subscribed: true,
                retries_left: self.max_retries,
                ..self
            }.advance(),
            (Phase::Subscribing, Event::SubscribeFailed(reason)) => self.retry(reason),
            (Phase::Listening, Event::Batch(events)) => self.with_queue(
                work_of_batch(self.client_filter, events@),
            ).advance(),
            (Phase::Listening, Event::ReceiveFailed(reason)) => self.retry(reason),
            _ => self.refuse(),
        }
    }
}

/// The work that one event of the chain calls for.
pub fn event_work(filter: &Option<ClientId>, event: &IbcEvent) -> (work: Option<Work>)
    ensures
        work == work_of_event(*filter, *event),
{
    match event {
        IbcEvent::UpdateClient(update) => {
            let wanted = match filter {
                Some(wanted) => *wanted == update.0.client_id,
                None => true,
            };
            if wanted {
                Some(
                    Work::Scan(
                        Target { client_id: update.0.client_id.clone(), update: Some(update.clone()) },
                    ),
                )
            } else {
                None
            }
        },
        IbcEvent::CreateClient(create) => Some(Work::Notify(Notice::ClientCreated(create.clone()))),
        IbcEvent::ClientMisbehaviour(misbehaviour) => Some(
            Work::Notify(Notice::MisbehaviourObserved(misbehaviour.clone())),
        ),
        _ => None,
    }
}

/// The work that a batch of events calls for, in the order of the batch.
pub fn batch_work(filter: &Option<ClientId>, events: &Vec<IbcEvent>) -> (work: Vec<Work>)
    ensures
        work@ == work_of_batch(*filter, events@),
{
    let mut work: Vec<Work> = Vec::new();
    let mut i: usize = 0;
    while i < events.len()
        invariant
            i <= events.len(),
            work@ == work_of_batch(*filter, events@.take(i as int)),
        decreases events.len() - i,
    {
        assert(events@.take(i + 1).drop_last() == events@.take(i as int));
        match event_work(filter, &events[i]) {
            Some(item) => {
                work.push(item);
            },
            None => {},
        }
        i = i + 1;
    }
    assert(events@.take(i as int) == events@);
    work
}

/// The first check of each client, in the order of the list.
pub fn scans_of(ids: &Vec<ClientId>) -> (work: Vec<Work>)
    ensures
        work@ == first_scans(ids@),
{
    let mut work: Vec<Work> = Vec::new();
    let mut i: usize = 0;
    while i < ids.len()
        invariant
            i <= ids.len(),
            work@ == first_scans(ids@.take(i as int)),
        decreases ids.len() - i,
    {
        work.push(Work::Scan(Target { client_id: ids[i].clone(), update: None }));
        i = i + 1;
        assert(work@ == first_scans(ids@.take(i as int)));
    }
    assert(ids@.take(i as int) == ids@);
    work
}

impl Monitor {
    /// A monitor that has not started. It watches `client_filter` alone, or
    /// every client of the chain where the filter is `None`, and renews a
    /// lost subscription up to `max_retries` times in a row.
    pub fn new(client_filter: Option<ClientId>, max_retries: u32) -> (m: Monitor)
        ensures
            m@.wf(),
            m@ == (MonitorView {
                client_filter,
                max_retries,
                retries_left: max_retries,
                stop_requested: false,
                subscribed: false,
                phase: Phase::Idle,
                queue: Seq::empty(),
            }),
    {
        Monitor {
            client_filter,
            max_retries,
            retries_left: max_retries,
            stop_requested: false,
            subscribed: false,
            phase: Phase::Idle,
            queue: Vec::new(),
        }
    }

    /// Asks the monitor to stop.
    ///
    /// A monitor that waits for the next batch stops at once: the answer is
    /// the `Exit` to perform in place of the outstanding `Receive`. In every
    /// other phase the request is noted and there is no answer yet: the
    /// monitor finishes the work it has and stops where it would next wait.
    pub fn request_stop(self) -> (r: (Monitor, Option<Action>))
        ensures
            (r.0@, r.1) == self@.stop(),
    {
        let mut m = self;
        m.stop_requested = true;
        let listening = match &m.phase {
            Phase::Listening => true,
            _ => false,
        };
        if listening {
            m.phase = Phase::Shutdown;
            (m, Some(Action::Exit(Ok(()))))
        } else {
            (m, None)
        }
    }

    /// The monitor has stopped.
    pub fn is_shutdown(&self) -> (stopped: bool)
        ensures
            stopped == (self.phase is Shutdown),
    {
        match &self.phase {
            Phase::Shutdown => true,
            _ => false,
        }
    }

    fn advance(self) -> (r: (Monitor, Action))
        ensures
            (r.0@, r.1) == self@.advance(),
    {
        let mut m = self;
        if m.queue.len() > 0 {
            let head = m.queue.remove(0);
            match head {
                Work::Scan(target) => {
                    let client_id = target.client_id.clone();
                    m.phase = Phase::Scanning { target, stage: Stage::AwaitingClientState };
                    (m, Action::QueryClientState(client_id))
                },
                Work::Notify(notice) => {
                    m.phase = Phase::Reporting;
                    (m, Action::Report(notice))
                },
            }
        } else if m.stop_requested {
            m.phase = Phase::Shutdown;
            (m, Action::Exit(Ok(())))
        } else if !m.subscribed {
            m.phase = Phase::Subscribing;
            (m, Action::Subscribe)
        } else {
            m.phase = Phase::Listening;
            (m, Action::Receive)
        }
    }

    fn retry(self, reason: String) -> (r: (Monitor, Action))
        ensures
            (r.0@, r.1) == self@.retry(reason),
    {
        let mut m = self;
        if m.retries_left > 0 {
            m.retries_left = m.retries_left - 1;
            m.subscribed = false;
            m.phase = Phase::Subscribing;
            (m, Action::Subscribe)
        } else {
            m.phase = Phase::Shutdown;
            (m, Action::Exit(Err(MonitorError::SubscriptionLost(reason))))
        }
    }

    fn report(self, notice: Notice) -> (r: (Monitor, Action))
        ensures
            r.0@ == self@.in_phase(Phase::Reporting),
            r.1 == Action::Report(notice),
    {
        let mut m = self;
        m.phase = Phase::Reporting;
        (m, Action::Report(notice))
    }

    fn halt(self, outcome: Result<(), MonitorError>) -> (r: (Monitor, Action))
        ensures
            r.0@ == self@.in_phase(Phase::Shutdown),
            r.1 == Action::Exit(outcome),
    {
        let mut m = self;
        m.phase = Phase::Shutdown;
        (m, Action::Exit(outcome))
    }

    /// Takes what happened and gives the monitor's next state and the action
    /// it asks for.
    ///
    /// The first checks come first: of the filter's client, or of every
    /// client that the chain lists. A check queries the client's state. A
    /// frozen client is passed over: no detection is asked for and nothing is
    /// reported. For a live client the monitor asks for detection, and
    /// reports evidence that was submitted. A failure to get the state or to
    /// detect is reported and ends the check of that client only. When the
    /// first checks are done the monitor subscribes and listens. Each batch
    /// is worked off in order before the next is awaited. A failed
    /// subscription is renewed while attempts are left; an opened
    /// subscription restores the attempts. An event that does not answer the
    /// outstanding action stops the monitor with `UnexpectedEvent`.
    pub fn step(self, event: Event) -> (r: (Monitor, Action))
        ensures
            (r.0@, r.1) == self@.step(event),
    {
        let mut m = self;
        let phase = m.take_phase();
        match (phase, event) {
            (Phase::Idle, Event::Start) => {
                match &m.client_filter {
                    Some(client_id) => {
                        let target = Target { client_id: client_id.clone(), update: None };
                        let mut queue: Vec<Work> = Vec::new();
                        queue.push(Work::Scan(target));
                        assert(queue@ =~= seq![Work::Scan(target)]);
                        m.queue = queue;
                        m.advance()
                    },
                    None => {
                        m.phase = Phase::ResolvingClients;
                        (m, Action::QueryClients)
                    },
                }
            },
            (Phase::ResolvingClients, Event::Clients(ids)) => {
                m.queue = scans_of(&ids);
                m.advance()
            },
            (Phase::ResolvingClients, Event::ClientsFailed(reason)) => m.halt(
                Err(MonitorError::QueryClientsFailed(reason)),
            ),
            (
                Phase::Scanning { target, stage: Stage::AwaitingClientState },
                Event::ClientState(client_state),
            ) => {
                if client_state.is_frozen() {
                    m.advance()
                } else {
                    let client_id = target.client_id.clone();
                    let update = target.update.clone();
                    m.phase = Phase::Scanning { target, stage: Stage::AwaitingDetection };
                    (m, Action::Detect { client_id, client_state, update })
                }
            },
            (
                Phase::Scanning { target, stage: Stage::AwaitingClientState },
                Event::ClientStateFailed(reason),
            ) => m.report(Notice::ClientStateUnavailable { client_id: target.client_id, reason }),
            (
                Phase::Scanning { target, stage: Stage::AwaitingDetection },
                Event::Detected(Some(result)),
            ) => m.report(Notice::EvidenceSubmitted { client_id: target.client_id, result }),
            (Phase::Scanning { target, stage: Stage::AwaitingDetection }, Event::Detected(None)) => {
                m.advance()
            },
            (
                Phase::Scanning { target, stage: Stage::AwaitingDetection },
                Event::DetectionFailed(reason),
            ) => m.report(Notice::DetectionFailed { client_id: target.client_id, reason }),
            (Phase::Reporting, Event::Reported) => m.advance(),
            (Phase::Subscribing, Event::Subscribed) => {
                m.subscribed = true;
                m.retries_left = m.max_retries;
                m.advance()
            },
            (Phase::Subscribing, Event::SubscribeFailed(reason)) => m.retry(reason),
            (Phase::Listening, Event::Batch(events)) => {
                m.queue = batch_work(&m.client_filter, &events);
                m.advance()
            },
            (Phase::Listening, Event::ReceiveFailed(reason)) => m.retry(reason),
            _ => m.halt(Err(MonitorError::UnexpectedEvent)),
        }
    }

    fn take_phase(&mut self) -> (phase: Phase)
        ensures
            phase == old(self).phase,
            final(self)@ == old(self)@.in_phase(Phase::Shutdown),
    {
        let mut phase = Phase::Shutdown;
        std::mem::swap(&mut self.phase, &mut phase);
        phase
    }
}

/// Going on never asks for detection: detection is asked for only in answer
/// to the state of a live client.
pub proof fn lemma_advance_never_detects(m: MonitorView)
    ensures
        !(m.advance().1 is Detect),
{
}

/// Once a client's state says that the client is frozen, the check of that
/// client ends there, whatever update gave rise to it: the monitor goes on
/// as if the check were done, and asks for no detection.
pub proof fn lemma_frozen_client_is_passed_over(
    m: MonitorView,
    target: Target,
    client_state: AnyClientState,
)
    requires
        m.phase == (Phase::Scanning { target, stage: Stage::AwaitingClientState }),
        client_state.frozen(),
    ensures
        m.step(Event::ClientState(client_state)) == m.advance(),
        !(m.step(Event::ClientState(client_state)).1 is Detect),
{
}

/// For a live client the monitor asks for detection, and hands on the
/// client's identifier, its state and the update unchanged.
pub proof fn lemma_live_client_is_checked(
    m: MonitorView,
    target: Target,
    client_state: AnyClientState,
)
    requires
        m.phase == (Phase::Scanning { target, stage: Stage::AwaitingClientState }),
        !client_state.frozen(),
    ensures
        m.step(Event::ClientState(client_state)).1 == (Action::Detect {
            client_id: target.client_id,
            client_state,
            update: target.update,
        }),
{
}

/// A failure that concerns one client does not stop the monitor: it is
/// reported, and the monitor stays out of `Shutdown`.
pub proof fn lemma_client_failure_is_not_fatal(m: MonitorView, reason: String)
    requires
        m.phase is Scanning,
    ensures
        m.phase->stage == Stage::AwaitingClientState ==> {
            let next = m.step(Event::ClientStateFailed(reason));
            next.1 is Report && next.0.phase is Reporting
        },
        m.phase->stage == Stage::AwaitingDetection ==> {
            let next = m.step(Event::DetectionFailed(reason));
            next.1 is Report && next.0.phase is Reporting
        },
{
}

/// An update of a client that the filter does not name calls for no work.
pub proof fn lemma_filtered_update_is_dropped(filter: ClientId, update: UpdateClient)
    requires
        filter@ != update.0.client_id@,
    ensures
        work_of_event(Some(filter), IbcEvent::UpdateClient(update)) is None,
{
}

/// A lost subscription is renewed while an attempt is left: the monitor asks
/// to subscribe and does not stop. A subscription that opens restores every
/// attempt.
pub proof fn lemma_lost_subscription_is_renewed(m: MonitorView, reason: String)
    requires
        m.phase is Listening,
        m.retries_left > 0,
    ensures
        m.step(Event::ReceiveFailed(reason)).1 == Action::Subscribe,
        m.step(Event::ReceiveFailed(reason)).0.phase is Subscribing,
        m.step(Event::ReceiveFailed(reason)).0.retries_left == m.retries_left - 1,
        m.step(Event::ReceiveFailed(reason)).0.step(Event::Subscribed).0.retries_left
            == m.max_retries,
{
}

/// A stop that is asked for while the monitor is at work does not interrupt
/// the work: the phase and the waiting work stay as they are, and the
/// monitor does not exit while work waits.
pub proof fn lemma_stop_waits_for_the_batch(m: MonitorView)
    requires
        !(m.phase is Listening),
    ensures
        m.stop().1 is None,
        m.stop().0.phase == m.phase,
        m.stop().0.queue == m.queue,
        m.queue.len() > 0 ==> !(m.stop().0.advance().1 is Exit),
{
}

/// The monitor asks to exit exactly when it enters `Shutdown`.
pub proof fn lemma_exit_means_shutdown(m: MonitorView, event: Event)
    ensures
        m.step(event).1 is Exit <==> m.step(event).0.phase is Shutdown,
{
}

/// A monitor that has stopped stays stopped: whatever it is told, it answers
/// with `Exit` and remains in `Shutdown`.
pub proof fn lemma_shutdown_is_terminal(m: MonitorView, event: Event)
    requires
        m.phase is Shutdown,
    ensures
        m.step(event).0.phase is Shutdown,
        m.step(event).1 == Action::Exit(Err(MonitorError::UnexpectedEvent)),
{
}

/// Detection is asked for live clients only: whatever the monitor is told in
/// whatever state, a request for detection carries a client state that is not
/// frozen.
pub proof fn lemma_detection_is_for_live_clients(m: MonitorView, event: Event)
    ensures
        m.step(event).1 matches Action::Detect { client_state, .. } ==> !client_state.frozen(),
{
}

/// The work of a batch is the work of its events, one after the other: the
/// work of two batches in a row is the work of the first followed by the work
/// of the second. No event changes what another calls for.
pub proof fn lemma_batch_work_concatenates(
    filter: Option<ClientId>,
    first: Seq<IbcEvent>,
    second: Seq<IbcEvent>,
)
    ensures
        work_of_batch(filter, first + second) == work_of_batch(filter, first) + work_of_batch(
            filter,
            second,
        ),
    decreases second.len(),
{
    if second.len() == 0 {
        assert(first + second =~= first);
        assert(work_of_batch(filter, first) + Seq::<Work>::empty() =~= work_of_batch(
            filter,
            first,
        ));
    } else {
        lemma_batch_work_concatenates(filter, first, second.drop_last());
        assert((first + second).drop_last() =~= first + second.drop_last());
        assert((first + second).last() == second.last());
        let before = work_of_batch(filter, second.drop_last());
        match work_of_event(filter, second.last()) {
            Some(work) => {
                assert((work_of_batch(filter, first) + before).push(work) =~= work_of_batch(
                    filter,
                    first,
                ) + before.push(work));
            },
            None => {},
        }
    }
}

/// A monitor that is well formed stays so, whatever it is told and whenever
/// it is asked to stop. A batch therefore never arrives while work waits, and
/// no work is dropped for a new batch.
pub proof fn lemma_step_keeps_well_formed(m: MonitorView, event: Event)
    requires
        m.wf(),
    ensures
        m.step(event).0.wf(),
        m.stop().0.wf(),
        m.step(event).1 is Receive || m.step(event).1 is Subscribe ==> m.step(event).0.queue.len()
            == 0,
{
}

} // verus!
