use tetris::input::ConstMotion;
use tetris::input::KeyState;
use tetris::input::LockMgr;
use tetris::input::MotionState;

#[test]
fn test_das_trigger_logic() {
    let mut motion = MotionState::new(100, 50);
    let start_time = 0u64;

    // first press, should trigger
    assert!(motion.update(true, start_time));
    assert_eq!(motion.key_state, KeyState::PRESS);
    assert_eq!(motion.last_time, Some(start_time));

    // keep press, 50 < 100, do not trigger
    let time_50ms = start_time + 50;
    assert!(!motion.update(true, time_50ms));
    assert_eq!(motion.last_time, Some(start_time));

    // keep press, 101 > 100, trigger and set to DAS mode
    let time_101ms = start_time + 101;
    assert!(motion.update(true, time_101ms));
    assert_eq!(motion.key_state, KeyState::DAS);
    assert_eq!(motion.last_time, Some(time_101ms));

    // keep press, 51 > 50 (ARR delay)
    let time_152ms = time_101ms + 51;
    assert!(motion.update(true, time_152ms));
    assert_eq!(motion.key_state, KeyState::DAS);
    assert_eq!(motion.last_time, Some(time_152ms));
}

#[test]
fn test_release_reset() {
    let mut motion = MotionState::new(100, 50);
    let now = 0u64;
    motion.update(true, now);
    motion.update(false, now);
    assert_eq!(motion.key_state, KeyState::NPRESS);
    assert!(motion.last_time.is_none());
}

#[test]
fn test_const_motion_fires_at_period() {
    let mut gravity = ConstMotion::new(500, 0);
    // starts already held: first firing comes one full period after start
    assert!(!gravity.update(500));
    assert!(gravity.update(501));
    // and then repeats at the same interval
    assert!(!gravity.update(1001));
    assert!(gravity.update(1002));
}

#[test]
fn test_const_motion_reset_restarts_period() {
    let mut gravity = ConstMotion::new(500, 0);
    gravity.reset(400);
    assert!(!gravity.update(900));
    assert!(gravity.update(901));
}

#[test]
fn test_lock_mgr_starts_once_and_locks_strictly() {
    let mut lock = LockMgr::new(500);
    assert!(!lock.lock(1000)); // not started yet
    assert_eq!(lock.start_if_not(100), Some(100));
    // a later start attempt does not restart the timer
    assert_eq!(lock.start_if_not(300), Some(100));
    assert!(!lock.lock(600)); // exactly 500 elapsed: not yet
    assert!(lock.lock(601));
    lock.reset();
    assert!(!lock.lock(601));
}
