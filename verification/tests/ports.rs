use eval_shell::ports::allocate_port;
use eval_shell::ports::get_available_port;
use eval_shell::ports::get_eval_engine_server_port;
use eval_shell::ports::PortCell;
use eval_shell::StartupError;

const RANGE_LEN: usize = 65535 - 40000;

#[test]
fn allocator_returns_port_in_range() {
    let mut occupied = vec![false; RANGE_LEN];
    occupied[0] = true;
    occupied[1] = true;
    let port = get_available_port(&occupied).expect("a free port exists");
    assert!((40000..65535).contains(&port));
    assert_eq!(port, 40002);
}

#[test]
fn allocator_fails_when_all_ports_occupied() {
    let occupied = vec![true; RANGE_LEN];
    assert_eq!(get_available_port(&occupied), None);
    assert_eq!(
        allocate_port(40000, 65535, &occupied),
        Err(StartupError::NoPortAvailable)
    );
}

#[test]
fn allocator_skips_bound_port() {
    // Range [40000, 40002): 40000 is bound by another process, 40001 free.
    let occupied = vec![true, false];
    assert_eq!(allocate_port(40000, 40002, &occupied), Ok(40001));
}

#[test]
fn allocator_picks_first_free_port() {
    let mut occupied = vec![false; RANGE_LEN];
    occupied[0] = true;
    assert_eq!(allocate_port(40000, 65535, &occupied), Ok(40001));
    let all_free = vec![false; RANGE_LEN];
    assert_eq!(allocate_port(40000, 65535, &all_free), Ok(40000));
}

#[test]
fn allocator_empty_range_fails() {
    let occupied: Vec<bool> = Vec::new();
    assert_eq!(
        allocate_port(41000, 41000, &occupied),
        Err(StartupError::NoPortAvailable)
    );
}

#[test]
fn port_query_before_allocation_returns_zero() {
    let cell = PortCell::new();
    assert_eq!(cell.get_allocated_port(), 0);
    assert_eq!(get_eval_engine_server_port(&cell), 0);
}

#[test]
fn port_query_after_allocation_returns_chosen_port() {
    let mut cell = PortCell::new();
    cell.set(40123);
    assert_eq!(cell.get_allocated_port(), 40123);
    assert_eq!(get_eval_engine_server_port(&cell), 40123);
}
