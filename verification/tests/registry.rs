use lovely_injector_nx::registry::{Registration, Registry, MAX_CALLBACKS};

#[test]
fn callbacks_wait_until_fire_then_come_out_in_order() {
    let mut r: Registry<u32, u8> = Registry::new();
    assert_eq!(r.on_ready(1), Registration::Queued);
    assert_eq!(r.on_ready(2), Registration::Queued);
    assert_eq!(r.fire(0x1000, 7), vec![1, 2]);
}

#[test]
fn after_fire_callbacks_run_at_once() {
    let mut r: Registry<u32, u8> = Registry::new();
    assert_eq!(r.fire(0x2000, 9), Vec::<u32>::new());
    assert_eq!(r.on_ready(3), Registration::RunNow(0x2000, 9));
    assert_eq!(r.on_ready(4), Registration::RunNow(0x2000, 9));
}

#[test]
fn queue_is_bounded() {
    let mut r: Registry<usize, u8> = Registry::new();
    for i in 0..MAX_CALLBACKS {
        assert_eq!(r.on_ready(i), Registration::Queued);
    }
    assert_eq!(r.on_ready(99), Registration::Refused);
    let handed: Vec<usize> = r.fire(1, 1);
    assert_eq!(handed, (0..MAX_CALLBACKS).collect::<Vec<_>>());
    assert_eq!(r.on_ready(100), Registration::RunNow(1, 1));
}

#[test]
fn second_fire_hands_out_nothing() {
    let mut r: Registry<u32, u8> = Registry::new();
    assert_eq!(r.on_ready(5), Registration::Queued);
    assert_eq!(r.fire(1, 1), vec![5]);
    assert_eq!(r.fire(2, 2), Vec::<u32>::new());
    assert_eq!(r.on_ready(6), Registration::RunNow(2, 2));
}
