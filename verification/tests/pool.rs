use raytracer::pool::{PoolControl, PoolCreationError};

#[test]
fn zero_workers_are_refused() {
    match PoolControl::build(0) {
        Err(PoolCreationError::ZeroPoolSize) => {}
        Ok(_) => panic!("a pool of zero workers must be refused"),
    }
}

#[test]
fn fresh_pool_accepts_jobs() {
    let control = PoolControl::build(4).expect("a pool of four workers must be accepted");
    assert_eq!(control.size, 4);
    assert!(control.accepts_jobs());
}

#[test]
fn shutdown_is_idempotent_and_closes_admission() {
    let mut control = PoolControl::build(2).unwrap();

    // The first request begins the shutdown.
    assert!(control.begin_shutdown());
    assert!(!control.accepts_jobs());
    assert_eq!(control.size, 2);

    // A second request changes nothing and reports that shutdown had begun.
    assert!(!control.begin_shutdown());
    assert!(!control.accepts_jobs());
    assert_eq!(control.size, 2);
}
