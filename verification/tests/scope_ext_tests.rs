use catalyser::scope_functions_ext::{repeat, Apply, Run, TakeIf, TakeUnless};

#[test]
fn test_apply_trait() {
    let value = 0;
    let new_value = value
        .apply(|v| {
            assert_eq!(*v, 0);
            *v += 1;
        })
        .apply(|v| {
            assert_eq!(*v, 1);
        });

    assert_eq!(value, 0);
    assert_eq!(new_value, 1);
}

#[test]
fn test_run_trait() {
    let value = vec![0];
    let new_value = value
        .clone()
        .run(|v| {
            assert_eq!(v, vec![0]);
            let first_item_edited = *v.first().unwrap() + 1;
            assert_eq!(first_item_edited, 1);
            first_item_edited
        })
        .run(|v| {
            assert_eq!(v, 1);
            let v_str = format!("{}", v);
            assert_eq!(v_str, "1");
            v_str
        });

    assert_eq!(value.clone(), vec![0]);
    assert_eq!(new_value, "1");
}

#[test]
fn scope_functions_extension_test_take_if_trait() {
    let value = 10;
    let result = value.take_if(|&v| v > 5);
    assert_eq!(result, Some(10));

    let result = value.take_if(|&v| v < 5);
    assert_eq!(result, None);
}

#[test]
fn scope_functions_extension_test_take_unless_trait() {
    let value = 10;
    let result = value.take_unless(|&v| v > 5);
    assert_eq!(result, None);

    let result = value.take_unless(|&v| v < 5);
    assert_eq!(result, Some(10));
}

#[test]
fn scope_functions_extension_test_repeat_function() {
    let mut sum = 0;
    repeat(5, |index| {
        sum += index;
    });

    assert_eq!(sum, 10); // 0 + 1 + 2 + 3 + 4
}
