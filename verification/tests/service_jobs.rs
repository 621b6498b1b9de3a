use win_kernel_driver::driver::DriverBuilder;
use win_kernel_driver::service::{
    next_step, ServiceError, ServiceErrorControl, ServiceEvent, ServiceJob, ServiceOp, ServiceReply, ServiceStartType,
    ServiceState, ServiceStep, ServiceType, ERROR_SERVICE_EXISTS,
};

const ALL_OPS: [ServiceOp; 7] = [
    ServiceOp::Connect,
    ServiceOp::Create,
    ServiceOp::Start,
    ServiceOp::Open,
    ServiceOp::Query,
    ServiceOp::Stop,
    ServiceOp::Delete,
];

const ALL_STATES: [ServiceState; 7] = [
    ServiceState::Stopped,
    ServiceState::StartPending,
    ServiceState::StopPending,
    ServiceState::Running,
    ServiceState::ContinuePending,
    ServiceState::PausePending,
    ServiceState::Paused,
];

fn answered(op: ServiceOp) -> ServiceEvent {
    ServiceEvent::Answered(op, ServiceReply::Done)
}

#[test]
fn install_connects_registers_and_starts() {
    let job = ServiceJob::Install;
    assert_eq!(next_step(job, ServiceEvent::Begin), ServiceStep::Perform(ServiceOp::Connect));
    assert_eq!(next_step(job, answered(ServiceOp::Connect)), ServiceStep::Perform(ServiceOp::Create));
    assert_eq!(next_step(job, answered(ServiceOp::Create)), ServiceStep::Perform(ServiceOp::Start));
    assert_eq!(next_step(job, answered(ServiceOp::Start)), ServiceStep::Complete);
}

#[test]
fn uninstall_stops_a_service_that_is_not_stopped() {
    let job = ServiceJob::Uninstall;
    assert_eq!(next_step(job, ServiceEvent::Begin), ServiceStep::Perform(ServiceOp::Connect));
    assert_eq!(next_step(job, answered(ServiceOp::Connect)), ServiceStep::Perform(ServiceOp::Open));
    assert_eq!(next_step(job, answered(ServiceOp::Open)), ServiceStep::Perform(ServiceOp::Query));
    for &state in ALL_STATES.iter() {
        let step = next_step(job, ServiceEvent::Answered(ServiceOp::Query, ServiceReply::Status(state)));
        if state == ServiceState::Stopped {
            assert_eq!(step, ServiceStep::Perform(ServiceOp::Delete));
        } else {
            assert_eq!(step, ServiceStep::Perform(ServiceOp::Stop));
        }
    }
    assert_eq!(next_step(job, answered(ServiceOp::Stop)), ServiceStep::Perform(ServiceOp::Delete));
    assert_eq!(next_step(job, answered(ServiceOp::Delete)), ServiceStep::Complete);
}

#[test]
fn a_failure_ends_the_job_with_operation_and_code() {
    for &op in [ServiceOp::Connect, ServiceOp::Create, ServiceOp::Start].iter() {
        assert_eq!(
            next_step(ServiceJob::Install, ServiceEvent::Answered(op, ServiceReply::Failed(5))),
            ServiceStep::Failed(ServiceError::Platform { op, code: 5 })
        );
    }
    for &op in
        [ServiceOp::Connect, ServiceOp::Open, ServiceOp::Query, ServiceOp::Stop, ServiceOp::Delete].iter()
    {
        assert_eq!(
            next_step(ServiceJob::Uninstall, ServiceEvent::Answered(op, ServiceReply::Failed(1060))),
            ServiceStep::Failed(ServiceError::Platform { op, code: 1060 })
        );
    }
}

#[test]
fn an_operation_of_the_other_job_is_out_of_sequence() {
    let replies = [ServiceReply::Done, ServiceReply::Failed(1), ServiceReply::Status(ServiceState::Running)];
    for &reply in replies.iter() {
        for &op in [ServiceOp::Open, ServiceOp::Query, ServiceOp::Stop, ServiceOp::Delete].iter() {
            assert_eq!(
                next_step(ServiceJob::Install, ServiceEvent::Answered(op, reply)),
                ServiceStep::Failed(ServiceError::OutOfSequence { op })
            );
        }
        for &op in [ServiceOp::Create, ServiceOp::Start].iter() {
            assert_eq!(
                next_step(ServiceJob::Uninstall, ServiceEvent::Answered(op, reply)),
                ServiceStep::Failed(ServiceError::OutOfSequence { op })
            );
        }
    }
}

#[test]
fn a_state_answers_a_query_and_nothing_else() {
    for &job in [ServiceJob::Install, ServiceJob::Uninstall].iter() {
        for &op in ALL_OPS.iter() {
            if job == ServiceJob::Uninstall && op == ServiceOp::Query {
                continue;
            }
            assert_eq!(
                next_step(job, ServiceEvent::Answered(op, ServiceReply::Status(ServiceState::Stopped))),
                ServiceStep::Failed(ServiceError::OutOfSequence { op })
            );
        }
    }
    assert_eq!(
        next_step(ServiceJob::Uninstall, answered(ServiceOp::Query)),
        ServiceStep::Failed(ServiceError::OutOfSequence { op: ServiceOp::Query })
    );
}

#[test]
fn an_existing_service_can_be_told_apart() {
    assert_eq!(ERROR_SERVICE_EXISTS, 1073);
    let step = next_step(ServiceJob::Install, ServiceEvent::Answered(ServiceOp::Create, ServiceReply::Failed(1073)));
    let error = match step {
        ServiceStep::Failed(error) => error,
        other => panic!("{:?}", other),
    };
    assert!(error.already_registered());
    assert!(!ServiceError::Platform { op: ServiceOp::Create, code: 5 }.already_registered());
    assert!(!ServiceError::Platform { op: ServiceOp::Start, code: 1073 }.already_registered());
    assert!(!ServiceError::OutOfSequence { op: ServiceOp::Create }.already_registered());
}

#[test]
fn registration_is_a_kernel_driver_on_demand() {
    let driver = DriverBuilder::new()
        .set_device_id("WinRing0_1_2_0")
        .set_device_description("winRing0 driver")
        .set_driver_path("C:\\Temp\\WinRing0_1_2_0.sys".to_string())
        .build("")
        .unwrap();
    let info = driver.service_info();
    assert_eq!(info.name, "WinRing0_1_2_0");
    assert_eq!(info.display_name, "winRing0 driver");
    assert_eq!(info.service_type, ServiceType::KernelDriver);
    assert_eq!(info.start_type, ServiceStartType::OnDemand);
    assert_eq!(info.error_control, ServiceErrorControl::Normal);
    assert_eq!(info.executable_path, "C:\\Temp\\WinRing0_1_2_0.sys");
    assert!(info.launch_arguments.is_empty());
    assert!(info.dependencies.is_empty());
    assert_eq!(info.account_name, None);
    assert_eq!(info.account_password, None);
}

#[test]
fn driver_methods_follow_the_jobs() {
    let driver = DriverBuilder::new().set_device_id("D").set_driver_path("p".to_string()).build("").unwrap();
    let events = [
        ServiceEvent::Begin,
        answered(ServiceOp::Connect),
        answered(ServiceOp::Create),
        answered(ServiceOp::Delete),
        ServiceEvent::Answered(ServiceOp::Query, ServiceReply::Status(ServiceState::Running)),
        ServiceEvent::Answered(ServiceOp::Start, ServiceReply::Failed(3)),
    ];
    for &event in events.iter() {
        assert_eq!(driver.install(event), next_step(ServiceJob::Install, event));
        assert_eq!(driver.uninstall(event), next_step(ServiceJob::Uninstall, event));
    }
}
