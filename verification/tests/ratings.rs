use fsrs_core::Rating;

#[test]
fn iter_yields_the_four_ratings_in_order() {
    let all = Rating::iter();
    assert_eq!(all.len(), 4);
    assert_eq!(all[0], Rating::Again);
    assert_eq!(all[1], Rating::Hard);
    assert_eq!(all[2], Rating::Good);
    assert_eq!(all[3], Rating::Easy);
}

#[test]
fn iter_can_be_walked_twice() {
    let mut seen = Vec::new();
    for rating in Rating::iter() {
        seen.push(rating);
    }
    for rating in Rating::iter() {
        seen.push(rating);
    }
    assert_eq!(seen.len(), 8);
    assert_eq!(seen[0], seen[4]);
    assert_eq!(seen[3], Rating::Easy);
}

#[test]
fn values_run_from_one_to_four() {
    assert_eq!(Rating::Again.value(), 1);
    assert_eq!(Rating::Hard.value(), 2);
    assert_eq!(Rating::Good.value(), 3);
    assert_eq!(Rating::Easy.value(), 4);
}

#[test]
fn values_follow_the_order_of_iter() {
    let all = Rating::iter();
    for i in 0..4 {
        assert_eq!(all[i].value() as usize, i + 1);
    }
    for i in 0..3 {
        assert!(all[i].value() < all[i + 1].value());
    }
}

#[test]
fn ratings_are_copied_and_compared() {
    let rating = Rating::Good;
    let copy = rating;
    assert_eq!(rating, copy);
    assert_ne!(rating, Rating::Easy);
    assert_eq!(format!("{:?}", rating), "Good");
}
