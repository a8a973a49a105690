use spinlock::{spin_step, Mutex, SpinAction};

#[test]
fn new_core_starts_unlocked_with_payload() {
    let mut m: Mutex<u64> = Mutex::new(5);
    let g = m.acquire_attempt();
    assert!(g.is_some());
    let g = g.unwrap();
    assert_eq!(*g.deref(), 5);
    g.release(&mut m);
}

#[test]
fn live_guard_blocks_second_acquire() {
    let mut m: Mutex<u64> = Mutex::new(0);
    let g = m.lock();
    assert!(m.acquire_attempt().is_none());
    assert!(m.acquire_attempt().is_none());
    g.release(&mut m);
    let g2 = m.acquire_attempt();
    assert!(g2.is_some());
    g2.unwrap().release(&mut m);
}

#[test]
fn release_lets_the_next_acquire_in() {
    let mut m: Mutex<u64> = Mutex::new(3);
    let mut g = m.lock();
    // A critical section that stops early still hands back whatever it
    // wrote so far when the guard is released.
    *g.deref_mut() = 99;
    g.release(&mut m);
    let g2 = m.lock();
    assert_eq!(*g2.deref(), 99);
    g2.release(&mut m);
}

#[test]
fn writes_are_visible_to_the_next_guard() {
    let mut m: Mutex<u64> = Mutex::new(0);
    for i in 1u64..=10u64 {
        let mut g = m.lock();
        assert_eq!(*g.deref(), i - 1);
        *g.deref_mut() = i;
        g.release(&mut m);
    }
    let g = m.lock();
    assert_eq!(*g.deref(), 10);
    g.release(&mut m);
}

#[test]
fn seventy_increments_reach_seventy_one() {
    let mut m: Mutex<u64> = Mutex::new(1);
    for _ in 0u32..70u32 {
        let mut g = m.lock();
        *g.deref_mut() += 1;
        g.release(&mut m);
    }
    let g = m.lock();
    assert_eq!(*g.deref(), 71);
    g.release(&mut m);
}

#[test]
fn writes_within_one_guard_are_seen_through_it() {
    let mut m: Mutex<u64> = Mutex::new(7);
    let mut g = m.lock();
    *g.deref_mut() = 8;
    assert_eq!(*g.deref(), 8);
    g.release(&mut m);
}

#[test]
fn payload_of_any_type_survives_a_cycle() {
    let mut m: Mutex<String> = Mutex::new(String::from("a"));
    let mut g = m.lock();
    g.deref_mut().push_str("b");
    g.release(&mut m);
    let g2 = m.lock();
    assert_eq!(g2.deref().as_str(), "ab");
    g2.release(&mut m);
}

#[test]
fn spin_decision_enters_only_on_a_clear_flag() {
    assert!(matches!(spin_step(false), SpinAction::Enter));
    assert!(matches!(spin_step(true), SpinAction::Retry));
}
