use rust_actor_pattern::actor::new_actor_state;
use rust_actor_pattern::actor::serve_request;
use rust_actor_pattern::counter::create_constant_id_generator;
use rust_actor_pattern::counter::create_u32_id_generator;
use rust_actor_pattern::counter::next_counter_id;
use rust_actor_pattern::locked::create_locked_id_generator;
use rust_actor_pattern::sequence::create_iterator_id_generator;
use rust_actor_pattern::Generator;
use rust_actor_pattern::NoMoreIds;

#[test]
fn counter_first_ids() {
    let mut generator = create_u32_id_generator();
    assert_eq!(generator.get_unique_id(), Ok(43));
    assert_eq!(generator.get_unique_id(), Ok(44));
}

#[test]
fn counter_sequential_ids_increase() {
    let mut generator: u32 = 0;
    let mut previous = generator.get_unique_id().unwrap();
    for _ in 0..100 {
        let next = generator.get_unique_id().unwrap();
        assert!(next > previous);
        previous = next;
    }
}

#[test]
fn counter_overflow_fails_without_wrapping() {
    let mut generator: u32 = u32::MAX;
    assert_eq!(generator.get_unique_id(), Err(NoMoreIds));
    assert_eq!(generator, u32::MAX);
    assert_eq!(generator.get_unique_id(), Err(NoMoreIds));
}

#[test]
fn next_counter_id_overflow_leaves_counter_unchanged() {
    let mut counter: u32 = u32::MAX;
    assert_eq!(next_counter_id(&mut counter), Err(NoMoreIds));
    assert_eq!(counter, u32::MAX);
    let mut low: u32 = 7;
    assert_eq!(next_counter_id(&mut low), Ok(8));
    assert_eq!(low, 8);
}

#[test]
fn constant_always_returns_the_same_id() {
    let mut generator = create_constant_id_generator(42);
    for _ in 0..1000 {
        assert_eq!(generator.get_unique_id(), Ok(42));
    }
}

#[test]
fn one_shot_hands_out_once_then_exhausts() {
    let mut generator: Option<u32> = Some(42);
    assert_eq!(generator.get_unique_id(), Ok(42));
    assert_eq!(generator.get_unique_id(), Err(NoMoreIds));
    assert_eq!(generator.get_unique_id(), Err(NoMoreIds));
}

#[test]
fn iterator_seeded_with_evens_yields_first_twenty() {
    let evens: Vec<u32> = (0u32..100).filter(|x| x % 2 == 0).collect();
    let mut generator = create_iterator_id_generator(evens);
    for expected in (0u32..40).step_by(2) {
        assert_eq!(generator.get_unique_id(), Ok(expected));
    }
}

#[test]
fn iterator_exhausts_after_its_supply() {
    let mut generator = create_iterator_id_generator(vec![10, 20]);
    assert_eq!(generator.get_unique_id(), Ok(10));
    assert_eq!(generator.get_unique_id(), Ok(20));
    assert_eq!(generator.get_unique_id(), Err(NoMoreIds));
    assert_eq!(generator.get_unique_id(), Err(NoMoreIds));
}

#[test]
fn iterator_on_empty_supply_fails_immediately() {
    let mut generator = create_iterator_id_generator(Vec::new());
    assert_eq!(generator.get_unique_id(), Err(NoMoreIds));
}

#[test]
fn actor_serves_sequential_requests_with_increasing_ids() {
    let mut state = new_actor_state();
    assert_eq!(serve_request(&mut state), Some(1));
    assert_eq!(serve_request(&mut state), Some(2));
    assert_eq!(serve_request(&mut state), Some(3));
}

#[test]
fn locked_clones_share_one_counter() {
    let mut generator = create_locked_id_generator();
    let mut clone = generator.clone();
    assert_eq!(generator.get_unique_id(), Ok(1));
    assert_eq!(clone.get_unique_id(), Ok(2));
    assert_eq!(generator.get_unique_id(), Ok(3));
}

#[test]
fn locked_sequential_ids_increase() {
    let mut generator = create_locked_id_generator();
    let mut previous = generator.get_unique_id().unwrap();
    for _ in 0..100 {
        let next = generator.clone().get_unique_id().unwrap();
        assert!(next > previous);
        previous = next;
    }
}
