use mqtt_thread::addresses::{AddressSet, MeshAddress};
use mqtt_thread::monitor::NetworkRole;
use mqtt_thread::selector::AddressRule;
use mqtt_thread::session::{HandshakeFailure, OutOfTurn, SessionOutcome};
use mqtt_thread::supervisor::{
    rest_for, Supervisor, SupervisorAction, SupervisorPhase, CYCLE_DELAY_SECS,
    PUBLISH_INTERVAL_SECS,
};

fn link_local() -> MeshAddress {
    let mut octets = [0u8; 16];
    octets[0] = 0xfe;
    octets[1] = 0x80;
    octets[15] = 0x01;
    MeshAddress::new(octets, 64)
}

fn mesh_local() -> MeshAddress {
    let mut octets = [0u8; 16];
    octets[0] = 0xfd;
    octets[1] = 0xb4;
    octets[15] = 0x02;
    MeshAddress::new(octets, 64)
}

fn set_of(items: &[MeshAddress]) -> AddressSet {
    let mut set = AddressSet::new();
    for item in items {
        set.record(Some(*item));
    }
    set
}

fn cycling() -> Supervisor {
    let (mut supervisor, _) = Supervisor::new(AddressRule::LinkLocal);
    supervisor.on_changed(NetworkRole::Child).unwrap();
    supervisor.on_snapshot(&set_of(&[link_local()])).unwrap();
    supervisor.on_bound().unwrap();
    supervisor
}

#[test]
fn the_first_session_runs_from_the_address_that_came_late() {
    let (mut supervisor, first) = Supervisor::new(AddressRule::LinkLocal);
    assert_eq!(first, SupervisorAction::AwaitChange);
    assert_eq!(supervisor.phase(), SupervisorPhase::Joining);

    let mut asked = vec![first];
    asked.push(supervisor.on_changed(NetworkRole::Detached).unwrap());
    asked.push(supervisor.on_changed(NetworkRole::Detached).unwrap());
    assert_eq!(supervisor.phase(), SupervisorPhase::Joining);
    assert_eq!(supervisor.bound(), None);
    assert_eq!(asked, vec![SupervisorAction::AwaitChange; 3]);

    assert_eq!(
        supervisor.on_changed(NetworkRole::Child),
        Ok(SupervisorAction::TakeSnapshot)
    );
    assert_eq!(supervisor.phase(), SupervisorPhase::Acquiring);
    assert_eq!(
        supervisor.on_snapshot(&set_of(&[link_local()])),
        Ok(SupervisorAction::Bind(link_local()))
    );
    assert_eq!(supervisor.bound(), Some(link_local()));
    assert_eq!(
        supervisor.on_bound(),
        Ok(SupervisorAction::Sleep(1))
    );
    assert_eq!(
        supervisor.on_timer(),
        Ok(SupervisorAction::RunSession(link_local()))
    );
    assert_eq!(supervisor.phase(), SupervisorPhase::InSession);
    assert_eq!(
        supervisor.on_session_ended(SessionOutcome::Published),
        Ok(SupervisorAction::Sleep(6))
    );
    assert_eq!(
        supervisor.on_timer(),
        Ok(SupervisorAction::RunSession(link_local()))
    );
}

#[test]
fn no_session_is_asked_for_before_an_address_is_there() {
    let (mut supervisor, _) = Supervisor::new(AddressRule::LinkLocal);
    assert_eq!(supervisor.on_timer(), Err(OutOfTurn));
    assert_eq!(supervisor.on_bound(), Err(OutOfTurn));
    assert_eq!(supervisor.on_snapshot(&set_of(&[link_local()])), Err(OutOfTurn));
    assert_eq!(
        supervisor.on_session_ended(SessionOutcome::Published),
        Err(OutOfTurn)
    );
    assert_eq!(supervisor.phase(), SupervisorPhase::Joining);

    supervisor.on_changed(NetworkRole::Router).unwrap();
    assert_eq!(
        supervisor.on_snapshot(&AddressSet::new()),
        Ok(SupervisorAction::AwaitChange)
    );
    assert_eq!(
        supervisor.on_snapshot(&set_of(&[mesh_local()])),
        Ok(SupervisorAction::AwaitChange)
    );
    assert_eq!(supervisor.phase(), SupervisorPhase::Acquiring);
    assert_eq!(supervisor.bound(), None);
    assert_eq!(supervisor.on_timer(), Err(OutOfTurn));
    assert_eq!(supervisor.on_bound(), Err(OutOfTurn));

    assert_eq!(
        supervisor.on_changed(NetworkRole::Detached),
        Ok(SupervisorAction::TakeSnapshot)
    );
    assert_eq!(
        supervisor.on_snapshot(&set_of(&[mesh_local(), link_local()])),
        Ok(SupervisorAction::Bind(link_local()))
    );
    assert_eq!(supervisor.on_timer(), Err(OutOfTurn));
    assert_eq!(supervisor.phase(), SupervisorPhase::Binding);
}

#[test]
fn the_marker_rule_picks_the_mesh_local_address() {
    let (mut supervisor, _) = Supervisor::new(AddressRule::FirstSegment(0xfdb4));
    supervisor.on_changed(NetworkRole::Child).unwrap();
    assert_eq!(
        supervisor.on_snapshot(&set_of(&[link_local(), mesh_local()])),
        Ok(SupervisorAction::Bind(mesh_local()))
    );
}

#[test]
fn every_outcome_is_followed_by_a_rest_and_the_next_session() {
    let outcomes = [
        (SessionOutcome::Published, 6),
        (SessionOutcome::PublishFailure, 6),
        (SessionOutcome::TransportFailure, 1),
        (SessionOutcome::HandshakeFailure(HandshakeFailure::NetworkError), 1),
        (SessionOutcome::HandshakeFailure(HandshakeFailure::Other(0x86)), 1),
    ];
    let mut supervisor = cycling();
    for round in 0..3 {
        for (outcome, rest) in outcomes {
            assert_eq!(
                supervisor.on_timer(),
                Ok(SupervisorAction::RunSession(link_local())),
                "round {}",
                round
            );
            assert_eq!(supervisor.on_timer(), Err(OutOfTurn));
            assert_eq!(
                supervisor.on_session_ended(outcome),
                Ok(SupervisorAction::Sleep(rest))
            );
            assert_eq!(rest_for(outcome), rest);
            assert_eq!(supervisor.phase(), SupervisorPhase::Pausing);
        }
    }
}

#[test]
fn the_rests_are_one_and_five_seconds() {
    assert_eq!(CYCLE_DELAY_SECS, 1);
    assert_eq!(PUBLISH_INTERVAL_SECS, 5);
}

#[test]
fn a_signal_of_the_mesh_is_out_of_turn_once_the_cycle_runs() {
    let mut supervisor = cycling();
    assert_eq!(supervisor.on_changed(NetworkRole::Detached), Err(OutOfTurn));
    assert_eq!(supervisor.on_snapshot(&AddressSet::new()), Err(OutOfTurn));
    assert_eq!(supervisor.phase(), SupervisorPhase::Pausing);
    assert_eq!(supervisor.bound(), Some(link_local()));
}
