use static_option::{StaticOption, StaticResult};

#[test]
fn ok_and_err_report_their_tag() {
    let ok = StaticResult::<i32, &str, true>::new_ok(1);
    assert!(ok.is_ok());
    assert!(!ok.is_err());
    assert_eq!(1, ok.into_ok());

    let err = StaticResult::<i32, &str, false>::new_err("bad");
    assert!(err.is_err());
    assert!(!err.is_ok());
    assert_eq!("bad", err.into_err());
}

#[test]
fn map_err_unwrap_scenario() {
    let value = StaticResult::new_ok(5).map_err(|_: &str| 0).unwrap();
    assert_eq!(5, value);
}

#[test]
fn err_of_failure_scenario() {
    let error = StaticResult::<i32, &str, false>::new_err("boom").err();
    assert!(error.is_some());
    assert_eq!("boom", error.into_inner());
}

#[test]
fn ok_discards_failure() {
    assert_eq!(Some(3), StaticResult::<i32, &str, true>::new_ok(3).ok().into_option());
    assert_eq!(None, StaticResult::<i32, &str, false>::new_err("x").ok().into_option());
}

#[test]
fn borrows_and_mutation() {
    let mut ok = StaticResult::<i32, &str, true>::new_ok(1);
    assert_eq!(1, *ok.ok_ref());
    *ok.ok_mut() = 2;
    assert_eq!(Ok(&2), ok.as_result());
    if let Ok(value) = ok.as_mut_result() {
        *value = 3;
    }
    assert_eq!(Ok(&3), ok.as_ref().into_result());
    if let Ok(value) = ok.as_mut().into_result() {
        *value = 4;
    }
    assert_eq!(Ok(4), ok.into_result());

    let mut err = StaticResult::<i32, i32, false>::new_err(1);
    assert_eq!(1, *err.err_ref());
    *err.err_mut() = 2;
    assert_eq!(Err(&2), err.as_result());
    if let Err(value) = err.as_mut_result() {
        *value = 3;
    }
    assert_eq!(Err(&3), err.as_ref().into_result());
    if let Err(value) = err.as_mut().into_result() {
        *value = 4;
    }
    assert_eq!(Err(4), err.into_result());
}

#[test]
fn result_and_matches_ordinary_results() {
    let tt = StaticResult::<i32, &str, true>::new_ok(1).and(StaticResult::<u8, &str, true>::new_ok(2));
    assert_eq!(Ok::<i32, &str>(1).and(Ok::<u8, &str>(2)), tt.into_result());
    let tf = StaticResult::<i32, &str, true>::new_ok(1).and(StaticResult::<u8, &str, false>::new_err("b"));
    assert_eq!(Ok::<i32, &str>(1).and(Err::<u8, &str>("b")), tf.into_result());
    let ft = StaticResult::<i32, &str, false>::new_err("a").and(StaticResult::<u8, &str, true>::new_ok(2));
    assert_eq!(Err::<i32, &str>("a").and(Ok::<u8, &str>(2)), ft.into_result());
    let ff = StaticResult::<i32, &str, false>::new_err("a").and(StaticResult::<u8, &str, false>::new_err("b"));
    assert_eq!(Err::<i32, &str>("a").and(Err::<u8, &str>("b")), ff.into_result());
}

#[test]
fn result_or_matches_ordinary_results() {
    let tt = StaticResult::<i32, &str, true>::new_ok(1).or(StaticResult::<i32, u8, true>::new_ok(2));
    assert_eq!(Ok::<i32, &str>(1).or(Ok::<i32, u8>(2)), tt.into_result());
    let tf = StaticResult::<i32, &str, true>::new_ok(1).or(StaticResult::<i32, u8, false>::new_err(9));
    assert_eq!(Ok::<i32, &str>(1).or(Err::<i32, u8>(9)), tf.into_result());
    let ft = StaticResult::<i32, &str, false>::new_err("a").or(StaticResult::<i32, u8, true>::new_ok(2));
    assert_eq!(Err::<i32, &str>("a").or(Ok::<i32, u8>(2)), ft.into_result());
    let ff = StaticResult::<i32, &str, false>::new_err("a").or(StaticResult::<i32, u8, false>::new_err(9));
    assert_eq!(Err::<i32, &str>("a").or(Err::<i32, u8>(9)), ff.into_result());
}

#[test]
fn result_and_then_matches_ordinary_results() {
    let tt = StaticResult::<i32, &str, true>::new_ok(2).and_then(|n| StaticResult::<i32, &str, true>::new_ok(n * 10));
    assert_eq!(Ok::<i32, &str>(2).and_then(|n| Ok::<i32, &str>(n * 10)), tt.into_result());
    let tf = StaticResult::<i32, &str, true>::new_ok(2).and_then(|_| StaticResult::<i32, &str, false>::new_err("b"));
    assert_eq!(Ok::<i32, &str>(2).and_then(|_| Err::<i32, &str>("b")), tf.into_result());
    let ft = StaticResult::<i32, &str, false>::new_err("a").and_then(|n| StaticResult::<i32, &str, true>::new_ok(n * 10));
    assert_eq!(Err::<i32, &str>("a").and_then(|n| Ok::<i32, &str>(n * 10)), ft.into_result());
    let ff = StaticResult::<i32, &str, false>::new_err("a").and_then(|_| StaticResult::<i32, &str, false>::new_err("b"));
    assert_eq!(Err::<i32, &str>("a").and_then(|_| Err::<i32, &str>("b")), ff.into_result());
}

#[test]
fn result_or_else_matches_ordinary_results() {
    let tt = StaticResult::<i32, i32, true>::new_ok(1).or_else(|e| StaticResult::<i32, i32, true>::new_ok(e + 100));
    assert_eq!(Ok::<i32, i32>(1).or_else(|e| Ok::<i32, i32>(e + 100)), tt.into_result());
    let tf = StaticResult::<i32, i32, true>::new_ok(1).or_else(|e| StaticResult::<i32, i32, false>::new_err(e - 1));
    assert_eq!(Ok::<i32, i32>(1).or_else(|e| Err::<i32, i32>(e - 1)), tf.into_result());
    let ft = StaticResult::<i32, i32, false>::new_err(5).or_else(|e| StaticResult::<i32, i32, true>::new_ok(e + 100));
    assert_eq!(Err::<i32, i32>(5).or_else(|e| Ok::<i32, i32>(e + 100)), ft.into_result());
    let ff = StaticResult::<i32, i32, false>::new_err(5).or_else(|e| StaticResult::<i32, i32, false>::new_err(e - 1));
    assert_eq!(Err::<i32, i32>(5).or_else(|e| Err::<i32, i32>(e - 1)), ff.into_result());
}

#[test]
fn map_family_on_results() {
    assert_eq!(Ok::<i32, &str>(4), StaticResult::<i32, &str, true>::new_ok(2).map(|n| n * 2).into_result());
    assert_eq!(Err::<i32, &str>("e"), StaticResult::<i32, &str, false>::new_err("e").map(|n| n * 2).into_result());
    assert_eq!(Err::<i32, usize>(1), StaticResult::<i32, &str, false>::new_err("e").map_err(|e| e.len()).into_result());
    assert_eq!(4, StaticResult::<i32, &str, true>::new_ok(2).map_or(0, |n| n * 2));
    assert_eq!(0, StaticResult::<i32, &str, false>::new_err("e").map_or(0, |n| n * 2));
    assert_eq!(4, StaticResult::<i32, &str, true>::new_ok(2).map_or_else(|e| e.len() as i32, |n| n * 2));
    assert_eq!(3, StaticResult::<i32, &str, false>::new_err("abc").map_or_else(|e| e.len() as i32, |n| n * 2));
}

#[test]
fn unwrap_family_on_results() {
    assert_eq!(1, StaticResult::<i32, &str, true>::new_ok(1).unwrap_or(7));
    assert_eq!(7, StaticResult::<i32, &str, false>::new_err("e").unwrap_or(7));
    assert_eq!(3, StaticResult::<i32, &str, false>::new_err("abc").unwrap_or_else(|e| e.len() as i32));
    assert_eq!(1, StaticResult::<i32, &str, true>::new_ok(1).unwrap_or_else(|e| e.len() as i32));
    assert_eq!(0, StaticResult::<i32, &str, false>::new_err("e").unwrap_or_default());
    assert_eq!(1, StaticResult::<i32, &str, true>::new_ok(1).unwrap_or_default());
    assert_eq!(1, StaticResult::<i32, &str, true>::new_ok(1).expect("success"));
    assert_eq!("e", StaticResult::<i32, &str, false>::new_err("e").unwrap_err());
    assert_eq!("e", StaticResult::<i32, &str, false>::new_err("e").expect_err("failure"));
}

#[test]
fn deref_views_on_results() {
    let mut ok = StaticResult::<String, i32, true>::new_ok(String::from("abc"));
    assert_eq!(Ok::<&str, &i32>("abc"), ok.as_deref().into_result());
    if let Ok(text) = ok.as_deref_mut().into_result() {
        text.make_ascii_uppercase();
    }
    assert_eq!(Ok(String::from("ABC")), ok.into_result());

    let mut err = StaticResult::<String, i32, false>::new_err(4);
    assert_eq!(Err::<&str, &i32>(&4), err.as_deref().into_result());
    if let Err(code) = err.as_deref_mut().into_result() {
        *code = 5;
    }
    assert_eq!(Err(5), err.into_result());
}

#[test]
fn transpose_round_trips() {
    let some_ok = StaticOption::some(StaticResult::<i32, &str, true>::new_ok(1));
    let turned = some_ok.transpose();
    assert_eq!(Ok(Some(1)), turned.clone().map(|o| o.into_option()).into_result());
    assert_eq!(Some(Ok(1)), turned.transpose().into_option().map(|r| r.into_result()));

    let some_err = StaticOption::some(StaticResult::<i32, &str, false>::new_err("e"));
    let turned = some_err.transpose();
    assert_eq!(Err("e"), turned.clone().map(|o| o.into_option()).into_result());
    assert_eq!(Some(Err("e")), turned.transpose().into_option().map(|r| r.into_result()));

    let none = StaticOption::<StaticResult<i32, &str, true>, false>::none();
    let turned = none.transpose();
    assert_eq!(Ok(None), turned.clone().map(|o| o.into_option()).into_result());
    assert_eq!(None, turned.transpose().into_option().map(|r| r.into_result()));

    let ok_none = StaticResult::<StaticOption<i32, false>, &str, true>::new_ok(StaticOption::none());
    let turned = ok_none.transpose();
    assert_eq!(None, turned.clone().into_option().map(|r| r.into_result()));
    assert_eq!(Ok(None), turned.transpose().map(|o| o.into_option()).into_result());

    let ok_some = StaticResult::<StaticOption<i32, true>, &str, true>::new_ok(StaticOption::some(2));
    let turned = ok_some.transpose();
    assert_eq!(Some(Ok(2)), turned.clone().into_option().map(|r| r.into_result()));
    assert_eq!(Ok(Some(2)), turned.transpose().map(|o| o.into_option()).into_result());

    let err = StaticResult::<StaticOption<i32, true>, &str, false>::new_err("e");
    let turned = err.transpose();
    assert_eq!(Some(Err("e")), turned.clone().into_option().map(|r| r.into_result()));
    assert_eq!(Err("e"), turned.transpose().map(|o| o.into_option()).into_result());
}

#[test]
fn result_conversion_keeps_payload() {
    assert_eq!(Ok::<i32, &str>(1), Result::from(StaticResult::<i32, &str, true>::new_ok(1)));
    assert_eq!(Err::<i32, &str>("e"), Result::from(StaticResult::<i32, &str, false>::new_err("e")));
}

#[test]
fn result_clone_and_compare() {
    let ok = StaticResult::<Vec<i32>, String, true>::new_ok(vec![1]);
    assert_eq!(ok.clone(), ok);
    let err = StaticResult::<Vec<i32>, String, false>::new_err(String::from("e"));
    assert_eq!(err.clone(), err);
    assert!(StaticResult::<i32, i32, true>::new_ok(1) < StaticResult::<i32, i32, true>::new_ok(2));
}

#[test]
fn err_of_success_is_absent() {
    let error = StaticResult::<i32, &str, true>::new_ok(3).err();
    assert!(error.is_none());
    assert_eq!(None, error.into_option());
}
