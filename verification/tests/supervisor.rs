use keylime_agent::supervisor::{
    on_service_exit, PairState, Service, ServiceExit, Shutdown, EXIT_FAILURE,
};

#[test]
fn failure_of_the_evidence_service_brings_the_process_down() {
    let (state, order) =
        on_service_exit(PairState::BothRunning, Service::Evidence, ServiceExit::Failed);
    assert_eq!(state, PairState::Terminating);
    assert_eq!(
        order,
        Some(Shutdown {
            ended: Service::Evidence,
            exit: ServiceExit::Failed,
            cancel: Service::Revocation,
            exit_code: 1,
        })
    );
}

#[test]
fn failure_of_the_revocation_listener_brings_the_process_down() {
    let (state, order) =
        on_service_exit(PairState::BothRunning, Service::Revocation, ServiceExit::Failed);
    assert_eq!(state, PairState::Terminating);
    let order = order.unwrap();
    assert_eq!(order.cancel, Service::Evidence);
    assert_ne!(order.exit_code, 0);
}

#[test]
fn a_service_that_only_completes_is_no_success() {
    for service in [Service::Evidence, Service::Revocation] {
        let (state, order) = on_service_exit(PairState::BothRunning, service, ServiceExit::Completed);
        assert_eq!(state, PairState::Terminating);
        let order = order.unwrap();
        assert_eq!(order.ended, service);
        assert_eq!(order.exit, ServiceExit::Completed);
        assert_eq!(order.cancel, service.other());
        assert_eq!(order.exit_code, EXIT_FAILURE);
    }
}

#[test]
fn nothing_more_is_ordered_while_terminating() {
    for service in [Service::Evidence, Service::Revocation] {
        for exit in [ServiceExit::Completed, ServiceExit::Failed] {
            assert_eq!(
                on_service_exit(PairState::Terminating, service, exit),
                (PairState::Terminating, None)
            );
        }
    }
}

#[test]
fn other_service() {
    assert_eq!(Service::Evidence.other(), Service::Revocation);
    assert_eq!(Service::Revocation.other(), Service::Evidence);
    assert_eq!(EXIT_FAILURE, 1);
}
