use functional::applicative::Applicative;
use functional::functor::Functor;
use std::cell::RefCell;
use std::convert::identity;

#[test]
fn applicative_works_for_option() {
    let opt = Some(10);

    // Preserves identity
    let ret = opt.apply(Some(identity));
    assert_eq!(ret, identity(opt));

    // Homomorphism
    assert_eq!(opt.apply(Some(|x| x + 2)), opt.fmap(|x| x + 2));

    // Preserves composition
    assert_eq!(
        opt.apply(Some(|x| x + 1)).apply(Some(|x| x * 2)),
        opt.apply(Some(|x| { |x| x + 1 }(x) * 2))
    );
}

#[test]
fn applicative_works_for_vec() {
    let vec = vec![1, 2, 3];

    // Preserves identity
    let ret = vec.apply(vec![identity]);
    assert_eq!(ret, identity(vec.clone()));

    // Homomorphism
    assert_eq!(vec.apply(vec![|x| x + 2]), vec.fmap(|x| x + 2));

    // Composition
    assert_eq!(
        vec.apply(vec![|x| x + 1]).apply(vec![|x| x * 2]),
        vec.apply(vec![|x| { |x| x + 1 }(x) * 2])
    );
}

#[test]
fn pure_holds_the_value_and_nothing_else() {
    assert_eq!(<Option<i32> as Applicative>::pure("b"), Some("b"));
    assert_eq!(<Vec<i32> as Applicative>::pure("b"), vec!["b"]);
    assert_eq!(<Vec<u8> as Applicative>::pure(7).len(), 1);
}

#[test]
fn apply_on_option_gives_the_exact_value() {
    assert_eq!(Some(10).apply(Some(|x| x + 2)), Some(12));
    assert_eq!(Some(3).apply(Some(|x: i32| x.to_string())), Some(String::from("3")));
}

#[test]
fn apply_on_option_needs_both_present() {
    let add_two: fn(i32) -> i32 = |x| x + 2;
    assert_eq!(None::<i32>.apply(Some(add_two)), None);
    assert_eq!(Some(10).apply(None::<fn(i32) -> i32>), None);
    assert_eq!(None::<i32>.apply(None::<fn(i32) -> i32>), None);
}

#[test]
fn apply_on_absent_value_does_not_call_the_function() {
    let calls = RefCell::new(0);
    let ret = None::<i32>.apply(Some(|x| {
        *calls.borrow_mut() += 1;
        x
    }));
    assert_eq!(ret, None);
    assert_eq!(*calls.borrow(), 0);
}

#[test]
fn apply_on_vec_runs_function_by_function() {
    let add_one: fn(i32) -> i32 = |x| x + 1;
    let times_ten: fn(i32) -> i32 = |x| x * 10;
    let negate: fn(i32) -> i32 = |x| -x;

    assert_eq!(
        vec![1, 2].apply(vec![add_one, times_ten]),
        vec![2, 3, 10, 20]
    );
    assert_eq!(
        vec![1, 2, 3].apply(vec![times_ten, negate, add_one]),
        vec![10, 20, 30, -1, -2, -3, 2, 3, 4]
    );
}

#[test]
fn apply_on_vec_has_one_result_per_function_and_value() {
    let add_one: fn(i32) -> i32 = |x| x + 1;
    let times_ten: fn(i32) -> i32 = |x| x * 10;
    let values = vec![5, 6, 7];
    let functions = vec![add_one, times_ten, add_one, times_ten];

    let ret = values.apply(functions.clone());
    assert_eq!(ret.len(), functions.len() * values.len());
    for (i, f) in functions.iter().enumerate() {
        for (j, x) in values.iter().enumerate() {
            assert_eq!(ret[i * values.len() + j], f(*x));
        }
    }
}

#[test]
fn apply_on_vec_with_nothing_on_one_side_is_empty() {
    let add_one: fn(i32) -> i32 = |x| x + 1;
    assert_eq!(vec![1, 2].apply(Vec::<fn(i32) -> i32>::new()), Vec::<i32>::new());
    assert_eq!(Vec::<i32>::new().apply(vec![add_one, add_one]), Vec::<i32>::new());
}

#[test]
fn apply_calls_in_order() {
    let seen = RefCell::new(Vec::new());
    let first = |x: i32| {
        seen.borrow_mut().push(("first", x));
        x
    };
    let ret = vec![1, 2].apply(vec![first, first]);
    assert_eq!(ret, vec![1, 2, 1, 2]);
    assert_eq!(
        *seen.borrow(),
        vec![("first", 1), ("first", 2), ("first", 1), ("first", 2)]
    );
}

#[test]
fn apply_leaves_the_receiver_as_it_was() {
    let opt = Some(1);
    let vec = vec![1, 2];
    let _ = opt.apply(Some(|x| x + 1));
    let _ = vec.apply(vec![|x| x + 1]);
    assert_eq!(opt, Some(1));
    assert_eq!(vec, vec![1, 2]);
}
