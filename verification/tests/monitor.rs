use ibc_monitor::any::AnyClientState;
use ibc_monitor::client_type::ClientType;
use ibc_monitor::events::Attributes;
use ibc_monitor::events::ClientMisbehaviour;
use ibc_monitor::events::CreateClient;
use ibc_monitor::events::IbcEvent;
use ibc_monitor::events::UpdateClient;
use ibc_monitor::height::Height;
use ibc_monitor::identifier::ChainId;
use ibc_monitor::identifier::ClientId;
use ibc_monitor::mock::client_state::MockClientState;
use ibc_monitor::mock::header::MockHeader;
use ibc_monitor::monitor::batch_work;
use ibc_monitor::monitor::event_work;
use ibc_monitor::monitor::scans_of;
use ibc_monitor::monitor::Action;
use ibc_monitor::monitor::Event;
use ibc_monitor::monitor::Monitor;
use ibc_monitor::monitor::MonitorError;
use ibc_monitor::monitor::Notice;
use ibc_monitor::monitor::Phase;
use ibc_monitor::monitor::Stage;
use ibc_monitor::monitor::SubmissionResult;
use ibc_monitor::monitor::Target;
use ibc_monitor::monitor::Work;
use ibc_monitor::tendermint::TendermintClientState;

fn id(text: &str) -> ClientId {
    ClientId::from_str(text)
}

fn live(chain: &str) -> AnyClientState {
    AnyClientState::Tendermint(TendermintClientState::new(
        ChainId::from_str(chain),
        Height::new(1, 10),
    ))
}

fn frozen(chain: &str) -> AnyClientState {
    AnyClientState::Tendermint(
        TendermintClientState::new(ChainId::from_str(chain), Height::new(1, 10))
            .with_frozen_height(Height::new(1, 9)),
    )
}

fn attributes(client: &str) -> Attributes {
    Attributes {
        height: Height::new(0, 100),
        client_id: id(client),
        client_type: ClientType::Tendermint,
        consensus_height: Height::new(1, 11),
    }
}

fn update(client: &str) -> UpdateClient {
    UpdateClient(attributes(client))
}

/// A monitor without a filter that has done its first checks (there were no
/// clients) and waits for events.
fn listening(filter: Option<ClientId>, max_retries: u32) -> Monitor {
    let unfiltered = filter.is_none();
    let client = filter.clone();
    let m = Monitor::new(filter, max_retries);
    let (m, action) = m.step(Event::Start);
    let m = if unfiltered {
        assert_eq!(action, Action::QueryClients);
        let (m, action) = m.step(Event::Clients(vec![]));
        assert_eq!(action, Action::Subscribe);
        m
    } else {
        assert_eq!(action, Action::QueryClientState(client.unwrap()));
        let (m, action) = m.step(Event::ClientState(frozen("ibc-1")));
        assert_eq!(action, Action::Subscribe);
        m
    };
    let (m, action) = m.step(Event::Subscribed);
    assert_eq!(action, Action::Receive);
    assert_eq!(m.phase, Phase::Listening);
    m
}

#[test]
fn new_monitor_is_idle() {
    let m = Monitor::new(None, 3);
    assert_eq!(m.phase, Phase::Idle);
    assert_eq!(m.retries_left, 3);
    assert_eq!(m.max_retries, 3);
    assert!(m.queue.is_empty());
    assert!(!m.stop_requested);
    assert!(!m.is_shutdown());
}

#[test]
fn bootstrap_skips_frozen_client_and_checks_live_one() {
    let m = Monitor::new(None, 3);
    let (m, action) = m.step(Event::Start);
    assert_eq!(action, Action::QueryClients);
    assert_eq!(m.phase, Phase::ResolvingClients);

    let (m, action) = m.step(Event::Clients(vec![id("07-tendermint-0"), id("07-tendermint-1")]));
    assert_eq!(action, Action::QueryClientState(id("07-tendermint-0")));

    // The first client is frozen: no detection, straight on to the second.
    let (m, action) = m.step(Event::ClientState(frozen("ibc-1")));
    assert_eq!(action, Action::QueryClientState(id("07-tendermint-1")));

    let (m, action) = m.step(Event::ClientState(live("ibc-2")));
    assert_eq!(
        action,
        Action::Detect {
            client_id: id("07-tendermint-1"),
            client_state: live("ibc-2"),
            update: None,
        }
    );
    assert_eq!(
        m.phase,
        Phase::Scanning {
            target: Target { client_id: id("07-tendermint-1"), update: None },
            stage: Stage::AwaitingDetection,
        }
    );

    let (m, action) = m.step(Event::Detected(None));
    assert_eq!(action, Action::Subscribe);
    let (m, action) = m.step(Event::Subscribed);
    assert_eq!(action, Action::Receive);
    assert_eq!(m.phase, Phase::Listening);
}

#[test]
fn bootstrap_with_filter_checks_that_client_only() {
    let m = Monitor::new(Some(id("07-tendermint-9")), 3);
    let (m, action) = m.step(Event::Start);
    assert_eq!(action, Action::QueryClientState(id("07-tendermint-9")));
    let (m, action) = m.step(Event::ClientState(live("ibc-1")));
    assert_eq!(
        action,
        Action::Detect {
            client_id: id("07-tendermint-9"),
            client_state: live("ibc-1"),
            update: None,
        }
    );
    let (_, action) = m.step(Event::Detected(None));
    assert_eq!(action, Action::Subscribe);
}

#[test]
fn update_of_another_client_is_dropped_by_the_filter() {
    let m = listening(Some(id("07-tendermint-9")), 3);
    let batch = vec![IbcEvent::UpdateClient(update("07-tendermint-5"))];
    let (m, action) = m.step(Event::Batch(batch));
    assert_eq!(action, Action::Receive);
    assert_eq!(m.phase, Phase::Listening);
    assert!(m.queue.is_empty());

    let filter = Some(id("07-tendermint-9"));
    assert_eq!(event_work(&filter, &IbcEvent::UpdateClient(update("07-tendermint-5"))), None);
}

#[test]
fn update_of_the_filtered_client_is_checked() {
    let m = listening(Some(id("07-tendermint-9")), 3);
    let batch = vec![
        IbcEvent::UpdateClient(update("07-tendermint-5")),
        IbcEvent::UpdateClient(update("07-tendermint-9")),
    ];
    let (m, action) = m.step(Event::Batch(batch));
    assert_eq!(action, Action::QueryClientState(id("07-tendermint-9")));
    let (m, action) = m.step(Event::ClientState(live("ibc-1")));
    assert_eq!(
        action,
        Action::Detect {
            client_id: id("07-tendermint-9"),
            client_state: live("ibc-1"),
            update: Some(update("07-tendermint-9")),
        }
    );
    let (_, action) = m.step(Event::Detected(None));
    assert_eq!(action, Action::Receive);
}

#[test]
fn submitted_evidence_is_reported_and_listening_goes_on() {
    let m = listening(None, 3);
    let (m, action) = m.step(Event::Batch(vec![IbcEvent::UpdateClient(update("07-tendermint-2"))]));
    assert_eq!(action, Action::QueryClientState(id("07-tendermint-2")));
    let (m, _) = m.step(Event::ClientState(live("ibc-1")));
    let result = SubmissionResult {
        events: vec![IbcEvent::ClientMisbehaviour(ClientMisbehaviour(attributes(
            "07-tendermint-2",
        )))],
    };
    let (m, action) = m.step(Event::Detected(Some(result)));
    assert_eq!(
        action,
        Action::Report(Notice::EvidenceSubmitted {
            client_id: id("07-tendermint-2"),
            result: SubmissionResult {
                events: vec![IbcEvent::ClientMisbehaviour(ClientMisbehaviour(attributes(
                    "07-tendermint-2"
                )))],
            },
        })
    );
    assert_eq!(m.phase, Phase::Reporting);
    let (m, action) = m.step(Event::Reported);
    assert_eq!(action, Action::Receive);
    assert_eq!(m.phase, Phase::Listening);
    let (_, action) = m.step(Event::Batch(vec![IbcEvent::UpdateClient(update("07-tendermint-3"))]));
    assert_eq!(action, Action::QueryClientState(id("07-tendermint-3")));
}

#[test]
fn closed_subscription_is_renewed_before_the_monitor_gives_up() {
    let m = listening(None, 2);
    let (m, action) = m.step(Event::ReceiveFailed(String::from("channel closed")));
    assert_eq!(action, Action::Subscribe);
    assert_eq!(m.phase, Phase::Subscribing);
    assert_eq!(m.retries_left, 1);
    assert!(!m.is_shutdown());

    let (m, action) = m.step(Event::SubscribeFailed(String::from("connection refused")));
    assert_eq!(action, Action::Subscribe);
    assert_eq!(m.retries_left, 0);

    let (m, action) = m.step(Event::SubscribeFailed(String::from("connection refused")));
    assert_eq!(
        action,
        Action::Exit(Err(MonitorError::SubscriptionLost(String::from("connection refused"))))
    );
    assert!(m.is_shutdown());
}

#[test]
fn opened_subscription_restores_the_attempts() {
    let m = listening(None, 2);
    let (m, _) = m.step(Event::ReceiveFailed(String::from("timeout")));
    assert_eq!(m.retries_left, 1);
    let (m, action) = m.step(Event::SubscribeFailed(String::from("refused")));
    assert_eq!(action, Action::Subscribe);
    assert_eq!(m.retries_left, 0);
    let (m, action) = m.step(Event::Subscribed);
    assert_eq!(action, Action::Receive);
    assert_eq!(m.retries_left, 2);
    let (m, action) = m.step(Event::Batch(vec![]));
    assert_eq!(action, Action::Receive);
    assert_eq!(m.retries_left, 2);
}

#[test]
fn without_attempts_a_closed_subscription_ends_the_monitor() {
    let m = listening(None, 0);
    let (m, action) = m.step(Event::ReceiveFailed(String::from("channel closed")));
    assert_eq!(
        action,
        Action::Exit(Err(MonitorError::SubscriptionLost(String::from("channel closed"))))
    );
    assert!(m.is_shutdown());
}

#[test]
fn failure_for_one_client_is_reported_and_the_next_is_checked() {
    let m = Monitor::new(None, 1);
    let (m, _) = m.step(Event::Start);
    let (m, _) = m.step(Event::Clients(vec![id("a"), id("b"), id("c")]));
    let (m, action) = m.step(Event::ClientStateFailed(String::from("rpc timeout")));
    assert_eq!(
        action,
        Action::Report(Notice::ClientStateUnavailable {
            client_id: id("a"),
            reason: String::from("rpc timeout"),
        })
    );
    let (m, action) = m.step(Event::Reported);
    assert_eq!(action, Action::QueryClientState(id("b")));
    let (m, _) = m.step(Event::ClientState(live("ibc-7")));
    let (m, action) = m.step(Event::DetectionFailed(String::from("no counterparty")));
    assert_eq!(
        action,
        Action::Report(Notice::DetectionFailed {
            client_id: id("b"),
            reason: String::from("no counterparty"),
        })
    );
    assert!(!m.is_shutdown());
    let (_, action) = m.step(Event::Reported);
    assert_eq!(action, Action::QueryClientState(id("c")));
}

#[test]
fn failed_listing_of_clients_ends_the_monitor() {
    let m = Monitor::new(None, 1);
    let (m, _) = m.step(Event::Start);
    let (m, action) = m.step(Event::ClientsFailed(String::from("rpc down")));
    assert_eq!(
        action,
        Action::Exit(Err(MonitorError::QueryClientsFailed(String::from("rpc down"))))
    );
    assert!(m.is_shutdown());
}

#[test]
fn batch_is_worked_off_in_order() {
    let m = listening(None, 1);
    let batch = vec![
        IbcEvent::NewBlock(Height::new(0, 100)),
        IbcEvent::UpdateClient(update("x")),
        IbcEvent::CreateClient(CreateClient(attributes("y"))),
        IbcEvent::ChainError(String::from("oops")),
        IbcEvent::ClientMisbehaviour(ClientMisbehaviour(attributes("z"))),
        IbcEvent::UpdateClient(update("x")),
    ];
    assert_eq!(
        batch_work(&None, &batch),
        vec![
            Work::Scan(Target { client_id: id("x"), update: Some(update("x")) }),
            Work::Notify(Notice::ClientCreated(CreateClient(attributes("y")))),
            Work::Notify(Notice::MisbehaviourObserved(ClientMisbehaviour(attributes("z")))),
            Work::Scan(Target { client_id: id("x"), update: Some(update("x")) }),
        ]
    );
    let (m, action) = m.step(Event::Batch(batch));
    assert_eq!(action, Action::QueryClientState(id("x")));
    let (m, action) = m.step(Event::ClientState(frozen("ibc-1")));
    assert_eq!(action, Action::Report(Notice::ClientCreated(CreateClient(attributes("y")))));
    let (m, action) = m.step(Event::Reported);
    assert_eq!(
        action,
        Action::Report(Notice::MisbehaviourObserved(ClientMisbehaviour(attributes("z"))))
    );
    let (m, action) = m.step(Event::Reported);
    assert_eq!(action, Action::QueryClientState(id("x")));
    let (_, action) = m.step(Event::ClientState(frozen("ibc-1")));
    assert_eq!(action, Action::Receive);
}

#[test]
fn events_that_are_no_client_events_call_for_no_work() {
    assert_eq!(event_work(&None, &IbcEvent::NewBlock(Height::new(0, 1))), None);
    assert_eq!(event_work(&None, &IbcEvent::ChainError(String::from("e"))), None);
    assert_eq!(batch_work(&None, &vec![]), vec![]);
}

#[test]
fn first_scans_follow_the_list() {
    assert_eq!(
        scans_of(&vec![id("a"), id("b")]),
        vec![
            Work::Scan(Target { client_id: id("a"), update: None }),
            Work::Scan(Target { client_id: id("b"), update: None }),
        ]
    );
    assert_eq!(scans_of(&vec![]), vec![]);
}

#[test]
fn stop_while_listening_ends_the_monitor_at_once() {
    let m = listening(None, 1);
    let (m, action) = m.request_stop();
    assert_eq!(action, Some(Action::Exit(Ok(()))));
    assert!(m.stop_requested);
    assert!(m.is_shutdown());
}

#[test]
fn stop_takes_effect_between_batches() {
    let m = listening(None, 1);
    let batch = vec![IbcEvent::UpdateClient(update("x")), IbcEvent::UpdateClient(update("y"))];
    let (m, action) = m.step(Event::Batch(batch));
    assert_eq!(action, Action::QueryClientState(id("x")));
    let (m, action) = m.request_stop();
    assert_eq!(action, None);
    assert!(m.stop_requested);
    assert!(!m.is_shutdown());
    let (m, action) = m.step(Event::ClientState(live("ibc-1")));
    assert!(matches!(action, Action::Detect { .. }));
    let (m, action) = m.step(Event::Detected(None));
    assert_eq!(action, Action::QueryClientState(id("y")));
    let (m, action) = m.step(Event::ClientState(frozen("ibc-1")));
    assert_eq!(action, Action::Exit(Ok(())));
    assert!(m.is_shutdown());
}

#[test]
fn stop_before_the_start_ends_after_the_first_checks() {
    let m = Monitor::new(None, 1);
    let (m, action) = m.request_stop();
    assert_eq!(action, None);
    let (m, action) = m.step(Event::Start);
    assert_eq!(action, Action::QueryClients);
    let (m, action) = m.step(Event::Clients(vec![]));
    assert_eq!(action, Action::Exit(Ok(())));
    assert!(m.is_shutdown());
}

#[test]
fn event_that_answers_nothing_ends_the_monitor() {
    let m = Monitor::new(None, 1);
    let (m, action) = m.step(Event::Subscribed);
    assert_eq!(action, Action::Exit(Err(MonitorError::UnexpectedEvent)));
    assert!(m.is_shutdown());
    let (m, action) = m.step(Event::Start);
    assert_eq!(action, Action::Exit(Err(MonitorError::UnexpectedEvent)));
    assert!(m.is_shutdown());

    let m = listening(None, 1);
    let (m, action) = m.step(Event::Detected(None));
    assert_eq!(action, Action::Exit(Err(MonitorError::UnexpectedEvent)));
    assert!(m.is_shutdown());
}

#[test]
fn mock_client_is_live_and_gets_checked() {
    let state = AnyClientState::Mock(MockClientState(MockHeader::new(Height::new(0, 3))));
    let m = Monitor::new(Some(id("9999-mock-0")), 1);
    let (m, _) = m.step(Event::Start);
    let (_, action) = m.step(Event::ClientState(state.clone()));
    assert_eq!(
        action,
        Action::Detect { client_id: id("9999-mock-0"), client_state: state, update: None }
    );
}

#[test]
fn client_event_accessors() {
    let u = update("07-tendermint-5");
    assert_eq!(u.client_id(), &id("07-tendermint-5"));
    assert_eq!(u.consensus_height(), Height::new(1, 11));
    assert_eq!(CreateClient(attributes("c")).client_id(), &id("c"));
    assert_eq!(ClientMisbehaviour(attributes("m")).client_id(), &id("m"));
    assert_eq!(u.clone(), u);
    let e = IbcEvent::UpdateClient(u);
    assert_eq!(e.clone(), e);
}
