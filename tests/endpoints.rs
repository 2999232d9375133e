use pipe::{pipe_from_raw, OsError, PipeFds};

#[test]
fn success_yields_both_ends() {
    let r = pipe_from_raw(0, [3, 4], 0);
    let p: PipeFds = r.expect("status 0 gives a pipe");
    assert_eq!(p.read_fd(), 3);
    assert_eq!(p.write_fd(), 4);
}

#[test]
fn ends_keep_their_sides() {
    let p = pipe_from_raw(0, [9, 5], 0).expect("status 0 gives a pipe");
    assert_eq!(p.read_fd(), 9);
    assert_eq!(p.write_fd(), 5);
}

#[test]
fn success_ignores_stale_errno() {
    let p = pipe_from_raw(0, [0, 1], 24).expect("status 0 gives a pipe");
    assert_eq!((p.read_fd(), p.write_fd()), (0, 1));
}

#[test]
fn failure_carries_os_error() {
    // EMFILE: the process has no descriptor left.
    let r = pipe_from_raw(-1, [0, 0], 24);
    assert_eq!(r.unwrap_err(), OsError { code: 24 });
}

#[test]
fn failure_on_any_nonzero_status() {
    // ENFILE: the system table is full.
    let r = pipe_from_raw(1, [7, 8], 23);
    assert!(r.is_err());
    assert_eq!(r.unwrap_err().code, 23);
}

#[test]
fn failure_error_number_passed_through() {
    let r = pipe_from_raw(-1, [-1, -1], 14);
    assert_eq!(r.unwrap_err(), OsError { code: 14 });
}

#[test]
fn repeated_creation_gives_independent_pipes() {
    let mut pipes: Vec<PipeFds> = Vec::new();
    for i in 0..100i32 {
        let r = pipe_from_raw(0, [3 + 2 * i, 4 + 2 * i], 0);
        pipes.push(r.expect("each request succeeds"));
    }
    assert_eq!(pipes.len(), 100);
    let mut seen: Vec<i32> = Vec::new();
    for p in &pipes {
        assert_ne!(p.read_fd(), p.write_fd());
        assert!(!seen.contains(&p.read_fd()));
        assert!(!seen.contains(&p.write_fd()));
        seen.push(p.read_fd());
        seen.push(p.write_fd());
    }
    assert_eq!(seen.len(), 200);
}
