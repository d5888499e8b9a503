use reusable_vec::ReusableVec;

struct Thing {
    cheap: u32,
    expensive: Vec<u32>,
}

#[test]
fn it_should_work() {
    let mut things = ReusableVec::<Thing>::new();

    for i in 0..3 {
        let new_thing = Thing { cheap: 123, expensive: Vec::new() };

        if let Some(reused) = things.push_reuse() {
            let mut expensive = std::mem::take(&mut reused.expensive);

            if i > 0 {
                assert_eq!(expensive, [456]);
            }

            expensive.clear();
            *reused = Thing { expensive, ..new_thing };
        } else {
            things.push(Thing { expensive: Vec::with_capacity(100), ..new_thing });
        }

        assert_eq!(things.as_slice().len(), 1);
        let last = things.as_mut_slice().last_mut().unwrap();
        last.expensive.push(456);

        assert_eq!(last.cheap, 123);
        assert_eq!(last.expensive, [456]);

        things.clear_reuse();
        assert_eq!(things.as_slice().len(), 0);
    }

    things.clear_drop();
    assert_eq!(things.as_slice().len(), 0);
    assert!(things.push_reuse().is_none());

    things.push(Thing { cheap: 0, expensive: Vec::new() });
    things.clear_reuse();
    assert_eq!(Vec::from(things).len(), 0);
}

#[test]
fn new_container_is_empty() {
    let v = ReusableVec::<u32>::new();
    assert_eq!(v.as_slice().len(), 0);
    assert!(v.as_slice().is_empty());
}

#[test]
fn with_capacity_is_empty() {
    let mut v = ReusableVec::<u32>::with_capacity(16);
    assert_eq!(v.as_slice().len(), 0);
    assert!(v.push_reuse().is_none());
}

#[test]
fn push_appends_in_order() {
    let mut v = ReusableVec::new();
    v.push(10u64);
    v.push(20u64);
    v.push(30u64);
    assert_eq!(v.as_slice(), &[10, 20, 30]);
}

#[test]
fn push_overwrites_reservoir_slot() {
    let mut v = ReusableVec::new();
    v.push(1u32);
    v.push(2u32);
    v.clear_reuse();
    v.push(9u32);
    assert_eq!(v.as_slice(), &[9]);
    let w = v.into_vec();
    assert_eq!(w, vec![9]);
}

#[test]
fn push_reuse_returns_prior_content() {
    let mut v = ReusableVec::new();
    v.push(String::from("kept"));
    v.clear_reuse();
    assert_eq!(v.as_slice().len(), 0);
    let slot = v.push_reuse().expect("a reservoir slot must exist");
    assert_eq!(slot, "kept");
    assert_eq!(v.as_slice(), &[String::from("kept")]);
}

#[test]
fn push_reuse_without_reservoir_is_none() {
    let mut v = ReusableVec::<u8>::new();
    assert!(v.push_reuse().is_none());
    v.push(5);
    assert!(v.push_reuse().is_none());
    assert_eq!(v.as_slice(), &[5]);
}

#[test]
fn clear_drop_then_push_reuse_is_none() {
    let mut v = ReusableVec::<u8>::new();
    v.clear_drop();
    assert!(v.push_reuse().is_none());

    v.push(1);
    v.clear_drop();
    assert!(v.push_reuse().is_none());

    v.push(2);
    v.clear_reuse();
    assert!(v.push_reuse().is_some());
}

#[test]
fn clear_reuse_then_into_vec_is_empty() {
    let mut v = ReusableVec::new();
    v.push(7i32);
    v.clear_reuse();
    let w = v.into_vec();
    assert_eq!(w.len(), 0);
}

#[test]
fn repeated_clears_are_harmless() {
    let mut v = ReusableVec::new();
    v.push(vec![1u8, 2, 3]);
    v.clear_reuse();
    v.clear_reuse();
    assert_eq!(v.as_slice().len(), 0);
    v.clear_drop();
    v.clear_drop();
    assert_eq!(v.as_slice().len(), 0);
    assert!(v.push_reuse().is_none());
}

#[test]
fn round_trip_preserves_elements() {
    let original = vec![3u16, 1, 4, 1, 5];
    let v = ReusableVec::from(original.clone());
    assert_eq!(v.as_slice(), original.as_slice());
    let back: Vec<u16> = Vec::from(v);
    assert_eq!(back, original);
}

#[test]
fn from_vec_makes_every_element_live() {
    let v = ReusableVec::from(vec![8u8, 9]);
    assert_eq!(v.as_slice(), &[8, 9]);
}

#[test]
fn mutable_view_writes_are_visible() {
    let mut v = ReusableVec::new();
    v.push(1u32);
    v.push(2u32);
    let m = v.as_mut_slice();
    assert_eq!(m.len(), 2);
    m[0] = 100;
    assert_eq!(v.as_slice(), &[100, 2]);
}
