use functional::functor::Functor;
use std::cell::RefCell;
use std::convert::identity;

#[test]
fn functor_works_for_option() {
    let opt = Some(10);

    // Preserves identity
    let ret = opt.fmap(identity);
    assert_eq!(ret, identity(opt));

    // Preserves composition
    assert_eq!(
        opt.fmap(|x| x + 1).fmap(|x| x * 10),
        opt.fmap(|x| { |x| x + 1 }(x) * 10)
    );
}

#[test]
fn functor_works_for_vec() {
    let vec = vec![1, 2, 3];

    // Preserves identity
    let ret = vec.fmap(identity);
    assert_eq!(ret, identity(vec.clone()));

    // Preserves composition
    assert_eq!(
        vec.fmap(|x| x + 1).fmap(|x| x * 10),
        vec.fmap(|x| { |x| x + 1 }(x) * 10)
    );
}

#[test]
fn fmap_on_present_value_applies_the_function() {
    assert_eq!(Some(10).fmap(|x| x + 2), Some(12));
}

#[test]
fn fmap_on_absent_value_stays_absent() {
    assert_eq!(None::<i32>.fmap(|x| x + 2), None);
}

#[test]
fn fmap_on_absent_value_does_not_call_the_function() {
    let calls = RefCell::new(0);
    let ret = None::<i32>.fmap(|x| {
        *calls.borrow_mut() += 1;
        x
    });
    assert_eq!(ret, None);
    assert_eq!(*calls.borrow(), 0);
}

#[test]
fn fmap_on_sequence_keeps_order() {
    assert_eq!(vec![1, 2, 3].fmap(|x| x * 10), vec![10, 20, 30]);
}

#[test]
fn fmap_on_empty_sequence_is_empty() {
    let empty: Vec<i32> = Vec::new();
    assert_eq!(empty.fmap(|x| x * 10), Vec::<i32>::new());
}

#[test]
fn fmap_on_sequence_keeps_length_and_duplicates() {
    let vec = vec![7, 7, 1, 7];
    let ret = vec.fmap(|x| x % 2 == 1);
    assert_eq!(ret.len(), vec.len());
    assert_eq!(ret, vec![true, true, true, true]);
    assert_eq!(vec.fmap(|x| x - 1), vec![6, 6, 0, 6]);
}

#[test]
fn fmap_visits_each_element_once_in_order() {
    let seen = RefCell::new(Vec::new());
    let ret = vec![3, 1, 2].fmap(|x| {
        seen.borrow_mut().push(x);
        x * 2
    });
    assert_eq!(ret, vec![6, 2, 4]);
    assert_eq!(*seen.borrow(), vec![3, 1, 2]);
}

#[test]
fn fmap_may_change_the_content_type() {
    assert_eq!(Some(3).fmap(|x: i32| x.to_string()), Some(String::from("3")));
    assert_eq!(
        vec![String::from("a"), String::from("bcd")].fmap(|s: String| s.len()),
        vec![1, 3]
    );
}

#[test]
fn fmap_identity_law_holds_for_option() {
    for x in [None, Some(0), Some(-5), Some(i32::MAX)] {
        assert_eq!(x.fmap(identity), x);
    }
    let text = Some(String::from("held"));
    assert_eq!(text.fmap(identity), text);
}

#[test]
fn fmap_identity_law_holds_for_vec() {
    for x in [vec![], vec![1], vec![2, 2], vec![3, -1, 4, 1, 5]] {
        assert_eq!(x.fmap(identity), x);
    }
}

#[test]
fn fmap_composition_law_holds_for_option() {
    let f = |a: i32| a + 1;
    let g = |b: i32| b * 10;
    for x in [None, Some(0), Some(4), Some(-7)] {
        assert_eq!(x.fmap(f).fmap(g), x.fmap(|a| g(f(a))));
    }
    // f comes first: the other order gives something else.
    assert_eq!(Some(4).fmap(f).fmap(g), Some(50));
    assert_ne!(Some(4).fmap(f).fmap(g), Some(4).fmap(|a| f(g(a))));
}

#[test]
fn fmap_composition_law_holds_for_vec() {
    let f = |a: i32| a.to_string();
    let g = |b: String| b.len();
    for x in [vec![], vec![5], vec![10, 200, -3]] {
        assert_eq!(x.fmap(f).fmap(g), x.fmap(|a| g(f(a))));
    }
    assert_eq!(vec![10, 200, -3].fmap(f).fmap(g), vec![2, 3, 2]);
}

#[test]
fn fmap_leaves_the_receiver_as_it_was() {
    let opt = Some(String::from("kept"));
    let vec = vec![String::from("a"), String::from("b")];
    let _ = opt.fmap(|s: String| s + "!");
    let _ = vec.fmap(|s: String| s + "!");
    assert_eq!(opt, Some(String::from("kept")));
    assert_eq!(vec, vec![String::from("a"), String::from("b")]);
}

#[test]
fn fmap_result_shares_nothing_with_the_receiver() {
    let mut receiver = vec![vec![1, 2], vec![3]];
    let mut mapped = receiver.fmap(identity);
    assert_eq!(mapped, receiver);

    mapped[0].push(99);
    mapped.push(vec![]);
    assert_eq!(receiver, vec![vec![1, 2], vec![3]]);

    receiver[1].clear();
    assert_eq!(mapped, vec![vec![1, 2, 99], vec![3], vec![]]);

    let mut held = Some(vec![1]);
    let mut copy = held.fmap(identity);
    copy.as_mut().unwrap().push(2);
    assert_eq!(held, Some(vec![1]));
    held.as_mut().unwrap().clear();
    assert_eq!(copy, Some(vec![1, 2]));
}
