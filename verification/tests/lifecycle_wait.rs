use aws_ec2::errors::ProvisionError;
use aws_ec2::lifecycle::{
    parse_launch_response, require_group_id, require_key_material, resolve_address,
    wait_until_running, StatusReport, StatusSample,
};

fn pending(elapsed: u64) -> StatusSample {
    StatusSample { elapsed, report: StatusReport::Observed { running: false } }
}

fn running(elapsed: u64) -> StatusSample {
    StatusSample { elapsed, report: StatusReport::Observed { running: true } }
}

#[test]
fn wait_succeeds_at_first_running_cycle() {
    let samples = vec![pending(1), pending(2), running(3), pending(4)];
    assert_eq!(wait_until_running(&samples, 10), Some(Ok(())));
}

#[test]
fn wait_times_out_when_running_is_never_observed() {
    let samples = vec![pending(4), pending(8), pending(12)];
    assert_eq!(
        wait_until_running(&samples, 10),
        Some(Err(ProvisionError::StartupTimeout))
    );
}

#[test]
fn wait_fails_fatally_on_undecodable_state() {
    let samples = vec![
        pending(1),
        StatusSample { elapsed: 2, report: StatusReport::MissingState },
        running(3),
    ];
    assert_eq!(
        wait_until_running(&samples, 10),
        Some(Err(ProvisionError::MissingStatusState))
    );
}

#[test]
fn wait_surfaces_query_failures() {
    let samples = vec![StatusSample { elapsed: 1, report: StatusReport::QueryFailed }];
    assert_eq!(
        wait_until_running(&samples, 10),
        Some(Err(ProvisionError::DescribeStatus))
    );
}

#[test]
fn wait_timeout_beats_a_late_running_report() {
    // The deadline is checked at the top of the cycle: a cycle that starts
    // past the budget times out even if its query would have said running.
    let samples = vec![pending(6), running(11)];
    assert_eq!(
        wait_until_running(&samples, 10),
        Some(Err(ProvisionError::StartupTimeout))
    );
}

#[test]
fn launch_response_needs_exactly_one_instance_with_id() {
    assert_eq!(
        parse_launch_response(&vec![Some(String::from("i-123"))]),
        Ok(String::from("i-123"))
    );
    assert_eq!(
        parse_launch_response(&vec![]),
        Err(ProvisionError::MissingInstanceId)
    );
    assert_eq!(
        parse_launch_response(&vec![None]),
        Err(ProvisionError::MissingInstanceId)
    );
    assert_eq!(
        parse_launch_response(&vec![Some(String::from("i-1")), Some(String::from("i-2"))]),
        Err(ProvisionError::MissingInstanceId)
    );
}

#[test]
fn address_resolution_needs_one_reservation_one_instance_one_address() {
    assert_eq!(
        resolve_address(&vec![vec![Some(String::from("192.0.2.7"))]]),
        Ok(String::from("192.0.2.7"))
    );
    assert_eq!(resolve_address(&vec![]), Err(ProvisionError::MissingAddress));
    assert_eq!(
        resolve_address(&vec![vec![None]]),
        Err(ProvisionError::MissingAddress)
    );
    assert_eq!(
        resolve_address(&vec![vec![Some(String::from("192.0.2.7")), None]]),
        Err(ProvisionError::MissingAddress)
    );
    assert_eq!(
        resolve_address(&vec![vec![Some(String::from("192.0.2.7"))], vec![]]),
        Err(ProvisionError::MissingAddress)
    );
}

#[test]
fn key_material_and_group_id_must_be_present() {
    assert_eq!(
        require_key_material(Some(String::from("pem"))),
        Ok(String::from("pem"))
    );
    assert_eq!(
        require_key_material(None),
        Err(ProvisionError::MissingKeyMaterial)
    );
    assert_eq!(require_group_id(Some(String::from("sg-1"))), Ok(String::from("sg-1")));
    assert_eq!(require_group_id(None), Err(ProvisionError::MissingGroupId));
}
