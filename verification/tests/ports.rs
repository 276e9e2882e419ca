use deployer::port_assignment::{plan_port_assignment, PortAssignError};
use deployer::port_pool::{select_host_port, PortPool, PortPoolError};

#[test]
fn pool_hands_out_lowest_free_port() {
    let mut pool = PortPool::new(3000, 3002);
    assert_eq!(pool.get_available_port(), Ok(3000));
    assert_eq!(pool.get_available_port(), Ok(3001));
    assert_eq!(pool.get_available_port(), Ok(3002));
    assert_eq!(pool.get_available_port(), Err(PortPoolError::NoAvailablePorts));
}

#[test]
fn pool_reuses_released_port() {
    let mut pool = PortPool::new(3000, 3002);
    assert_eq!(pool.get_available_port(), Ok(3000));
    assert_eq!(pool.get_available_port(), Ok(3001));
    pool.release_port(3000);
    assert_eq!(pool.get_available_port(), Ok(3000));
    assert_eq!(pool.get_available_port(), Ok(3002));
}

#[test]
fn pool_release_of_unused_port_is_harmless() {
    let mut pool = PortPool::new(10, 11);
    pool.release_port(10);
    pool.release_port(500);
    assert_eq!(pool.get_available_port(), Ok(10));
}

#[test]
fn pool_with_empty_range_is_exhausted() {
    let mut pool = PortPool::new(5000, 4999);
    let e = pool.get_available_port().unwrap_err();
    assert_eq!(e.message(), "No available ports in the pool");
}

#[test]
fn pool_reaches_highest_port() {
    let mut pool = PortPool::new(65534, 65535);
    assert_eq!(pool.get_available_port(), Ok(65534));
    assert_eq!(pool.get_available_port(), Ok(65535));
    assert!(pool.get_available_port().is_err());
}

#[test]
fn host_port_selection() {
    let mut pool = PortPool::new(4000, 4000);
    assert_eq!(select_host_port(&mut pool, Some(1234)), Ok(1234));
    assert_eq!(select_host_port(&mut pool, None), Ok(4000));
    assert_eq!(select_host_port(&mut pool, None), Err(PortPoolError::NoAvailablePorts));
    assert_eq!(select_host_port(&mut pool, Some(4000)), Ok(4000));
    pool.release_port(4000);
    assert_eq!(select_host_port(&mut pool, None), Ok(4000));
}

#[test]
fn released_port_is_assigned_first() {
    assert_eq!(plan_port_assignment(Some(3004), Some(3010)), Ok(3004));
    assert_eq!(plan_port_assignment(Some(3004), None), Ok(3004));
}

#[test]
fn fresh_ports_follow_the_highest() {
    assert_eq!(plan_port_assignment(None, None), Ok(3000));
    assert_eq!(plan_port_assignment(None, Some(3000)), Ok(3001));
    assert_eq!(plan_port_assignment(None, Some(8999)), Ok(9000));
}

#[test]
fn no_port_above_9000() {
    let e = plan_port_assignment(None, Some(9000)).unwrap_err();
    assert_eq!(e, PortAssignError::NoFreePorts);
    assert_eq!(e.message(), "No free ports available in range 3000-9000");
    assert!(plan_port_assignment(None, Some(20000)).is_err());
    assert_eq!(plan_port_assignment(None, Some(i32::MAX)), Err(PortAssignError::NoFreePorts));
    assert_eq!(plan_port_assignment(None, Some(-5)), Ok(-4));
}

#[test]
fn allocations_keep_climbing_until_a_release() {
    let mut pool = PortPool::new(3000, 3004);
    let mut last = None;
    for _ in 0..5 {
        let p = pool.get_available_port().unwrap();
        if let Some(l) = last {
            assert!(p > l);
        }
        last = Some(p);
    }
    assert!(pool.get_available_port().is_err());
}
