use typeclass::{Container, Either, Functor, Identity, Maybe, MultiFunctor};

#[test]
fn functor_test_same_type() {
    let identity = Identity::new(42);
    let result = identity.map(|x| x + 1);
    assert_eq!(result, Identity::new(43i32));
}

#[test]
fn functor_test_different_type() {
    let identity = Identity::new(42);
    let result = identity.map(|x| x.to_string());
    assert_eq!(result, Identity::new("42".to_string()));
}

#[test]
fn functor_test_just_same_type() {
    let maybe = Maybe::Just(42);
    let result = maybe.map(|x| x + 1);
    assert_eq!(result, Maybe::Just(43i32));
}

#[test]
fn functor_test_nothing_same_type() {
    let maybe = Maybe::Nothing;
    let result = maybe.map(|x: &i32| x + 1);
    assert_eq!(result, Maybe::Nothing);
}

#[test]
fn functor_test_just_different_type() {
    let maybe = Maybe::Just(42);
    let result = maybe.map(|x| x.to_string());
    assert_eq!(result, Maybe::Just("42".to_string()));
}

#[test]
fn functor_test_nothing_different_type() {
    let maybe = Maybe::Nothing;
    let result = maybe.map(|x: &i32| x.to_string());
    assert_eq!(result, Maybe::Nothing);
}

#[test]
fn test_left_functor_left_same_type() {
    let either = Either::<i32, i32>::Left(42);
    let result = MultiFunctor::<i32, ((i32, i32), i32), _>::multi_map(&either, |x| x + 1);
    assert_eq!(result, Either::Left(43i32));
}
