use machine_link::errors::{
    classify_provision_result, ErrorClass, ProvisioningOutcome, ServiceError,
};
use machine_link::generator::{GCodeHandlerMessage, GenerateCodeHandler};
use machine_link::orchestrator::{
    link_page_output, HandleMessage, LinkMachineHandler, LinkMachineOutput, LinkState,
    OutputMessage,
};
use machine_link::poller::{PCodeHandlerMessage, ProvisionCodeHandler};
use machine_link::status::RunningStatus;

fn transport_error(message: &str) -> ServiceError {
    ServiceError::new(ErrorClass::ConnectionRefused, message.to_string())
}

fn application_error(message: &str) -> ServiceError {
    ServiceError::new(ErrorClass::Application, message.to_string())
}

#[test]
fn scenario_code_generated_then_redeemed() {
    // A full happy-path session: a code is generated, forwarded, redeemed,
    // and both workers are stopped exactly once.
    let mut orch = LinkMachineHandler::new();
    assert_eq!(orch.state, LinkState::Idle);
    assert!(orch.activate());

    let mut generator = GenerateCodeHandler::new();
    let mut poller = ProvisionCodeHandler::new();

    // The generator's tick issues the call; the agent answers with a code.
    assert!(generator.tick_start());
    let event = generator.on_generate_result(Ok("ABCD12".to_string()));
    let eff = orch.handle_event(event);

    match &eff.to_ui {
        Some(OutputMessage::CodeChanged(code)) => assert_eq!(code, "ABCD12"),
        other => panic!("expected CodeChanged to the UI, got {:?}", other),
    }
    let to_poller = eff.to_poller.expect("the poller must be told the new code");
    match &to_poller {
        PCodeHandlerMessage::CodeChanged { code } => assert_eq!(code, "ABCD12"),
        other => panic!("expected CodeChanged to the poller, got {:?}", other),
    }
    assert!(eff.to_generator.is_none());
    assert!(!eff.session_done);

    // The poller learns the code; its next tick attempts redemption with it.
    assert!(!poller.handle_message(to_poller));
    let call = poller.tick_start();
    assert_eq!(call.as_deref(), Some("ABCD12"));

    // The agent confirms redemption: the orchestrator reports success and
    // stops both workers.
    let emitted = poller
        .on_provision_result(Ok(true))
        .expect("a redeemed code must be reported");
    let eff2 = orch.handle_event(emitted);
    assert!(matches!(eff2.to_ui, Some(OutputMessage::ProvisionSuccess)));
    assert!(eff2.session_done);
    assert_eq!(orch.state, LinkState::Linked);

    let stop_generator = eff2.to_generator.expect("the generator must be stopped");
    let stop_poller = eff2.to_poller.expect("the poller must be stopped");
    assert!(matches!(
        stop_generator,
        GCodeHandlerMessage::ChangeRunningStatus { status: RunningStatus::STOP }
    ));
    assert!(matches!(
        stop_poller,
        PCodeHandlerMessage::ChangeRunningStatus { status: RunningStatus::STOP }
    ));

    // Both workers stop, and no further RPC starts on later ticks.
    assert!(generator.handle_message(stop_generator));
    assert!(poller.handle_message(stop_poller));
    assert!(!generator.tick_start());
    assert!(poller.tick_start().is_none());
}

#[test]
fn generator_never_overlaps_calls() {
    // While a call is outstanding, further ticks start nothing.
    let mut generator = GenerateCodeHandler::new();
    assert!(generator.tick_start());
    assert!(!generator.tick_start());
    assert!(!generator.tick_start());
    // Once the call completes, the guard is down and the next tick calls.
    let _ = generator.on_generate_result(Ok("XYZ789".to_string()));
    assert!(!generator.is_calling);
    assert!(generator.tick_start());
}

#[test]
fn poller_never_overlaps_calls() {
    // The poller's guard too: while a redemption call is outstanding,
    // further ticks start nothing.
    let mut poller = ProvisionCodeHandler::new();
    poller.handle_message(PCodeHandlerMessage::CodeChanged { code: "KEG3EK".to_string() });
    assert!(poller.tick_start().is_some());
    assert!(poller.tick_start().is_none());
    assert!(poller.tick_start().is_none());
    let _ = poller.on_provision_result(Ok(false));
    assert!(poller.tick_start().is_some());
}

#[test]
fn only_stop_terminates_a_loop() {
    // Control messages other than STOP update the status but do not end
    // the loop; a stopped loop does not resume by itself.
    let mut generator = GenerateCodeHandler::new();
    assert!(!generator.handle_message(GCodeHandlerMessage::ChangeRunningStatus {
        status: RunningStatus::START,
    }));
    assert!(!generator.handle_message(GCodeHandlerMessage::ChangeRunningStatus {
        status: RunningStatus::INACTIVE,
    }));
    assert!(!generator.tick_start());
    assert!(generator.handle_message(GCodeHandlerMessage::ChangeRunningStatus {
        status: RunningStatus::STOP,
    }));

    let mut poller = ProvisionCodeHandler::new();
    assert!(!poller.handle_message(PCodeHandlerMessage::ChangeRunningStatus {
        status: RunningStatus::INACTIVE,
    }));
    assert!(poller.handle_message(PCodeHandlerMessage::ChangeRunningStatus {
        status: RunningStatus::STOP,
    }));
}

#[test]
fn generator_retries_after_failure() {
    // A failed call lowers the guard and is retried on the next tick,
    // without backoff and without a retry limit.
    let mut generator = GenerateCodeHandler::new();
    for _ in 0..3 {
        assert!(generator.tick_start());
        let event = generator.on_generate_result(Err(transport_error("connection refused")));
        assert!(matches!(
            event,
            HandleMessage::GenerateCodeRes { response: Err(_) }
        ));
        assert!(!generator.is_calling);
    }
}

#[test]
fn generator_error_is_surfaced_not_terminal() {
    // A failed generate_code call surfaces its message; the session keeps
    // running.
    let mut orch = LinkMachineHandler::new();
    orch.activate();
    let eff = orch.handle_event(HandleMessage::GenerateCodeRes {
        response: Err(application_error("rejected")),
    });
    match &eff.to_ui {
        Some(OutputMessage::GenerateCodeError(message)) => assert_eq!(message, "rejected"),
        other => panic!("expected GenerateCodeError, got {:?}", other),
    }
    assert!(eff.to_generator.is_none());
    assert!(eff.to_poller.is_none());
    assert!(!eff.session_done);
    assert_eq!(orch.state, LinkState::Linking);
}

#[test]
fn poller_never_calls_without_code() {
    // Absence of a code means absence of redemption attempts, however
    // often the timer ticks.
    let mut poller = ProvisionCodeHandler::new();
    for _ in 0..5 {
        assert!(poller.tick_start().is_none());
    }
    // Once a code arrives, the very next tick attempts redemption.
    poller.handle_message(PCodeHandlerMessage::CodeChanged { code: "KEG3EK".to_string() });
    assert_eq!(poller.tick_start().as_deref(), Some("KEG3EK"));
}

#[test]
fn poller_continues_after_not_yet_redeemed() {
    let mut poller = ProvisionCodeHandler::new();
    poller.handle_message(PCodeHandlerMessage::CodeChanged { code: "KEG3EK".to_string() });
    assert!(poller.tick_start().is_some());
    // "Not yet redeemed" is not an error and is not surfaced; polling
    // continues.
    assert!(poller.on_provision_result(Ok(false)).is_none());
    assert!(poller.tick_start().is_some());
    // A failed call is not surfaced either; polling continues.
    assert!(poller
        .on_provision_result(Err(application_error("bad code")))
        .is_none());
    assert!(poller.tick_start().is_some());
}

#[test]
fn poller_is_terminal_after_success() {
    let mut poller = ProvisionCodeHandler::new();
    poller.handle_message(PCodeHandlerMessage::CodeChanged { code: "KEG3EK".to_string() });
    assert!(poller.tick_start().is_some());
    assert!(poller.on_provision_result(Ok(true)).is_some());
    // Redemption is terminal: no tick polls again, even with a fresh code.
    assert!(poller.tick_start().is_none());
    poller.handle_message(PCodeHandlerMessage::CodeChanged { code: "NEW111".to_string() });
    assert!(poller.tick_start().is_none());
}

#[test]
fn settled_session_ignores_further_events() {
    // After success the orchestrator is settled: no second stop pair, no
    // further output, whatever else straggles in.
    let mut orch = LinkMachineHandler::new();
    orch.activate();
    let eff = orch.handle_event(HandleMessage::ProvisionCodeRes { response: Ok(true) });
    assert!(eff.session_done);
    assert_eq!(orch.state, LinkState::Linked);

    let late = orch.handle_event(HandleMessage::ProvisionCodeRes { response: Ok(true) });
    assert!(late.to_generator.is_none());
    assert!(late.to_poller.is_none());
    assert!(late.to_ui.is_none());
    assert!(!late.session_done);

    let late2 = orch.handle_event(HandleMessage::GenerateCodeRes {
        response: Ok("LATE42".to_string()),
    });
    assert!(late2.to_ui.is_none());
    assert_eq!(orch.state, LinkState::Linked);
}

#[test]
fn provision_failure_is_distinct_from_success() {
    // A provisioning failure must never be conflated with success: it is
    // surfaced as its own error signal, and the session ends in Failed.
    let mut orch = LinkMachineHandler::new();
    orch.activate();
    let eff = orch.handle_event(HandleMessage::ProvisionCodeRes {
        response: Err(transport_error("deadline has elapsed")),
    });
    match &eff.to_ui {
        Some(OutputMessage::ShowError(message)) => assert_eq!(message, "deadline has elapsed"),
        other => panic!("expected ShowError, not success, got {:?}", other),
    }
    assert!(!matches!(eff.to_ui, Some(OutputMessage::ProvisionSuccess)));
    assert!(eff.to_generator.is_some());
    assert!(eff.to_poller.is_some());
    assert!(eff.session_done);
    assert_eq!(orch.state, LinkState::Failed);
}

#[test]
fn deactivate_stops_workers_and_resets() {
    let mut orch = LinkMachineHandler::new();
    orch.activate();
    let eff = orch.deactivate();
    assert!(matches!(
        eff.to_generator,
        Some(GCodeHandlerMessage::ChangeRunningStatus { status: RunningStatus::STOP })
    ));
    assert!(matches!(
        eff.to_poller,
        Some(PCodeHandlerMessage::ChangeRunningStatus { status: RunningStatus::STOP })
    ));
    assert_eq!(orch.state, LinkState::Idle);
}

#[test]
fn repeated_activation_spawns_once() {
    // Re-activating a running session must not double-spawn the workers.
    let mut orch = LinkMachineHandler::new();
    assert!(orch.activate());
    assert!(!orch.activate());
    assert!(!orch.activate());
    // After the session settles, a fresh activation restarts it.
    let _ = orch.handle_event(HandleMessage::ProvisionCodeRes { response: Ok(true) });
    assert!(orch.activate());
}

#[test]
fn provision_outcome_classification() {
    assert_eq!(
        classify_provision_result(&Ok(true)),
        ProvisioningOutcome::Success
    );
    assert_eq!(
        classify_provision_result(&Ok(false)),
        ProvisioningOutcome::NotYetRedeemed
    );
    assert_eq!(
        classify_provision_result(&Err(ServiceError::new(
            ErrorClass::ConnectionRefused,
            "connection refused".to_string()
        ))),
        ProvisioningOutcome::TransportError
    );
    assert_eq!(
        classify_provision_result(&Err(ServiceError::new(
            ErrorClass::Timeout,
            "deadline has elapsed".to_string()
        ))),
        ProvisioningOutcome::TransportError
    );
    assert_eq!(
        classify_provision_result(&Err(application_error("rejected"))),
        ProvisioningOutcome::ApplicationError
    );
}

#[test]
fn link_page_forwards_terminal_signals() {
    assert_eq!(
        link_page_output(&OutputMessage::ProvisionSuccess),
        Some(LinkMachineOutput::NextPressed)
    );
    assert_eq!(
        link_page_output(&OutputMessage::ShowError("agent gone".to_string())),
        Some(LinkMachineOutput::ShowError)
    );
    assert_eq!(
        link_page_output(&OutputMessage::BackRequested),
        Some(LinkMachineOutput::BackPressed)
    );
    assert_eq!(
        link_page_output(&OutputMessage::CodeChanged("ABCD12".to_string())),
        None
    );
    assert_eq!(
        link_page_output(&OutputMessage::GenerateCodeError("oops".to_string())),
        None
    );
}
