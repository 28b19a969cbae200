use tiny_bakery::geom::Vec2;
use tiny_bakery::jump::{jump_tick, JumpFrame, JumpState, JUMP_IMPULSE};
use tiny_bakery::physics::Kinematics;

fn still() -> Kinematics {
    Kinematics {
        pos: Vec2 { x: 0, y: 0 },
        vel: Vec2 { x: 0, y: 0 },
        acc: Vec2 { x: 0, y: 0 },
    }
}

#[test]
fn no_double_jump_without_ground_contact() {
    let mut state = JumpState { airborne: false };
    let mut k = still();

    // press jump while grounded: airborne, one impulse
    let fired = jump_tick(
        &mut state,
        &mut k,
        JumpFrame { grounded: false, jump_pressed: true },
    );
    assert!(fired);
    assert!(state.airborne);
    assert_eq!(k.acc.y, JUMP_IMPULSE);

    // press jump again immediately while still airborne: no second impulse
    let fired = jump_tick(
        &mut state,
        &mut k,
        JumpFrame { grounded: false, jump_pressed: true },
    );
    assert!(!fired);
    assert!(state.airborne);
    assert_eq!(k.acc.y, JUMP_IMPULSE);

    // land (ground event), press jump: impulse applied again
    let fired = jump_tick(
        &mut state,
        &mut k,
        JumpFrame { grounded: true, jump_pressed: true },
    );
    assert!(fired);
    assert!(state.airborne);
    assert_eq!(k.acc.y, 2 * JUMP_IMPULSE);
}

#[test]
fn ground_contact_without_input_clears_the_lock() {
    let mut state = JumpState { airborne: true };
    let mut k = still();
    let fired = jump_tick(
        &mut state,
        &mut k,
        JumpFrame { grounded: true, jump_pressed: false },
    );
    assert!(!fired);
    assert!(!state.airborne);
    assert_eq!(k.acc.y, 0);
}

#[test]
fn holding_jump_while_airborne_does_nothing() {
    let mut state = JumpState { airborne: true };
    let mut k = still();
    for _ in 0..4 {
        let fired = jump_tick(
            &mut state,
            &mut k,
            JumpFrame { grounded: false, jump_pressed: true },
        );
        assert!(!fired);
        assert!(state.airborne);
        assert_eq!(k.acc.y, 0);
    }
}
