use static_option::{StaticOption, StaticResult};

#[test]
fn option_iteration_yields_at_most_one() {
    let mut iter = StaticOption::some(3).into_iter();
    assert_eq!(Some(3), iter.next());
    assert_eq!(None, iter.next());
    assert_eq!(None, iter.next());

    let mut empty = StaticOption::<i32, false>::none().into_iter();
    assert_eq!(None, empty.next());
}

#[test]
fn option_borrowing_iteration() {
    let mut option = StaticOption::some(3);
    let mut iter = option.iter();
    assert_eq!(Some(&3), iter.next());
    assert_eq!(None, iter.next());

    let mut iter = option.iter_mut();
    if let Some(value) = iter.next() {
        *value = 4;
    }
    assert_eq!(Some(4), option.into_option());

    let mut absent = StaticOption::<i32, false>::none();
    assert_eq!(None, absent.iter().next());
    assert_eq!(None, absent.iter_mut().next());
}

#[test]
fn result_iteration_yields_success_only() {
    let mut iter = StaticResult::<i32, &str, true>::new_ok(1).into_iter();
    assert_eq!(Some(1), iter.next());
    assert_eq!(None, iter.next());

    let mut iter = StaticResult::<i32, &str, false>::new_err("e").into_iter();
    assert_eq!(None, iter.next());

    let mut ok = StaticResult::<i32, &str, true>::new_ok(1);
    assert_eq!(Some(&1), ok.iter().next());
    if let Some(value) = ok.iter_mut().next() {
        *value = 2;
    }
    assert_eq!(Ok(2), ok.into_result());

    let mut err = StaticResult::<i32, &str, false>::new_err("e");
    assert_eq!(None, err.iter().next());
    assert_eq!(None, err.iter_mut().next());
}
