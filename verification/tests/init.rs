use benet::init::{InitGuard, InitState};
use benet::Error;

fn guard(state: &mut InitState, status: Option<i32>) -> InitGuard {
    match InitGuard::new(state, status) {
        Ok(guard) => guard,
        Err(_) => panic!("no guard"),
    }
}

#[test]
fn fresh_state_is_not_initialized() {
    let state = InitState::new();
    assert_eq!(state.live(), 0);
    assert!(!state.is_initialized());
    assert!(state.needs_initialize());
}

#[test]
fn first_guard_initializes() {
    let mut state = InitState::new();
    let _guard = guard(&mut state, Some(0));
    assert_eq!(state.live(), 1);
    assert!(state.is_initialized());
    assert!(!state.needs_initialize());
}

#[test]
fn failed_initializer_is_init_error() {
    let mut state = InitState::new();
    assert!(matches!(InitGuard::new(&mut state, Some(-1)), Err(Error::Init)));
    assert_eq!(state.live(), 0);
    assert!(!state.is_initialized());
    assert!(state.needs_initialize());
}

#[test]
fn missing_initializer_is_init_error() {
    let mut state = InitState::new();
    assert!(matches!(InitGuard::new(&mut state, None), Err(Error::Init)));
    assert_eq!(state.live(), 0);
    assert!(!state.is_initialized());
}

#[test]
fn new_never_fails_while_guards_are_alive() {
    let mut state = InitState::new();
    let _first = guard(&mut state, Some(0));
    assert!(InitGuard::new(&mut state, None).is_ok());
    assert!(InitGuard::new(&mut state, Some(-1)).is_ok());
    assert_eq!(state.live(), 3);
    assert!(state.is_initialized());
}

#[test]
fn share_counts_one_more() {
    let mut state = InitState::new();
    let first = guard(&mut state, Some(0));
    let _second = first.share(&mut state);
    assert_eq!(state.live(), 2);
    assert!(state.is_initialized());
}

#[test]
fn last_release_deinitializes() {
    let mut state = InitState::new();
    let first = guard(&mut state, Some(0));
    let second = first.share(&mut state);
    let third = guard(&mut state, None);
    assert_eq!(state.live(), 3);

    assert!(!first.release(&mut state));
    assert!(state.is_initialized());
    assert!(!third.release(&mut state));
    assert!(state.is_initialized());
    assert_eq!(state.live(), 1);
    assert!(second.release(&mut state));
    assert!(!state.is_initialized());
    assert_eq!(state.live(), 0);
    assert!(state.needs_initialize());
}

#[test]
fn subsystem_can_be_initialized_again() {
    let mut state = InitState::new();
    let first = guard(&mut state, Some(0));
    assert!(first.release(&mut state));
    assert!(state.needs_initialize());
    let second = guard(&mut state, Some(7));
    assert!(state.is_initialized());
    assert_eq!(state.live(), 1);
    assert!(second.release(&mut state));
}

#[test]
fn initialized_exactly_while_guards_live() {
    let mut state = InitState::new();
    let mut guards: Vec<InitGuard> = Vec::new();
    let steps = [1, 1, 2, 0, 1, 0, 0, 0, 1, 2, 2, 0, 0, 0];
    for step in steps {
        match step {
            1 => {
                let status = if state.needs_initialize() { Some(0) } else { None };
                guards.push(guard(&mut state, status));
            }
            2 => {
                let copy = guards[0].share(&mut state);
                guards.push(copy);
            }
            _ => match guards.pop() {
                Some(guard) => {
                    let last = guard.release(&mut state);
                    assert_eq!(last, guards.is_empty());
                }
                None => panic!("nothing to release"),
            },
        }
        assert_eq!(state.live(), guards.len());
        assert_eq!(state.is_initialized(), !guards.is_empty());
    }
    assert!(guards.is_empty());
}
