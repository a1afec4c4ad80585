use epics_ca::callback::{AsyncWaker, ContractViolation};

#[test]
fn wake_then_wait_yields_the_value_once() {
    let mut bridge: AsyncWaker<f64, u32> = AsyncWaker::new();
    assert_eq!(bridge.wake(3.25), Ok(None));
    assert_eq!(bridge.wait_for(1), Ok(Some(3.25)));
    assert_eq!(bridge.wait_for(1), Ok(None));
}

#[test]
fn wait_then_wake_releases_the_task_and_yields_the_value_once() {
    let mut bridge: AsyncWaker<String, u32> = AsyncWaker::new();
    assert_eq!(bridge.wait_for(7), Ok(None));
    assert_eq!(bridge.wake("done".to_string()), Ok(Some(7)));
    assert_eq!(bridge.wait_for(7), Ok(Some("done".to_string())));
    assert_eq!(bridge.wait_for(8), Ok(None));
}

#[test]
fn second_wake_is_a_contract_violation() {
    let mut bridge: AsyncWaker<i32, u32> = AsyncWaker::new();
    assert_eq!(bridge.wake(1), Ok(None));
    assert_eq!(bridge.wake(2), Err(ContractViolation::DoubleWake));
    assert_eq!(bridge.wait_for(0), Ok(Some(1)));
}

#[test]
fn second_wake_after_release_is_a_contract_violation() {
    let mut bridge: AsyncWaker<i32, u32> = AsyncWaker::new();
    assert_eq!(bridge.wait_for(5), Ok(None));
    assert_eq!(bridge.wake(1), Ok(Some(5)));
    assert_eq!(bridge.wake(2), Err(ContractViolation::DoubleWake));
    assert_eq!(bridge.wait_for(5), Ok(Some(1)));
}

#[test]
fn second_wait_is_a_contract_violation() {
    let mut bridge: AsyncWaker<i32, u32> = AsyncWaker::new();
    assert_eq!(bridge.wait_for(1), Ok(None));
    assert_eq!(bridge.wait_for(2), Err(ContractViolation::DoubleAwait));
    assert_eq!(bridge.wake(9), Ok(Some(1)));
    assert_eq!(bridge.wait_for(1), Ok(Some(9)));
}

#[test]
fn bridge_is_reusable_once_idle() {
    let mut bridge: AsyncWaker<u8, u32> = AsyncWaker::new();
    for round in 0..3u8 {
        assert_eq!(bridge.wait_for(round as u32), Ok(None));
        assert_eq!(bridge.wake(round), Ok(Some(round as u32)));
        assert_eq!(bridge.wait_for(round as u32), Ok(Some(round)));
    }
}
