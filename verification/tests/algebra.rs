use digsigctl::rpc::result::{Error, Errors, Payload, RpcResult, DEFAULT_ERROR_STATUS};

fn success_text(text: &str) -> RpcResult {
    RpcResult::Success(Payload::Text(text.to_owned()))
}

fn error_with(message: &str, status: u16) -> RpcResult {
    RpcResult::Error(Errors::new(vec![Error::from_message(message)], Some(status)))
}

#[test]
fn combine_two_successes_is_empty_success() {
    let combined = success_text("left").combine(success_text("right"));
    assert_eq!(combined, RpcResult::Success(Payload::Empty));
}

#[test]
fn combine_keeps_a_single_error() {
    let kept = success_text("fine").combine(error_with("broken", 400));
    match kept {
        RpcResult::Error(errors) => {
            assert_eq!(errors.errors().len(), 1);
            assert_eq!(errors.errors()[0].message(), Some("broken"));
        },
        RpcResult::Success(_) => panic!("an error must not be masked by a success"),
    }

    let kept = error_with("broken", 400).combine(success_text("fine"));
    assert!(!kept.is_success());
}

#[test]
fn combine_concatenates_errors_and_keeps_left_status() {
    let combined = error_with("first", 400).combine(error_with("second", 500));
    match combined {
        RpcResult::Error(errors) => {
            assert_eq!(errors.errors().len(), 2);
            assert_eq!(errors.errors()[0].message(), Some("first"));
            assert_eq!(errors.errors()[1].message(), Some("second"));
            assert_eq!(errors.status(), 400);
        },
        RpcResult::Success(_) => panic!("two errors must combine into an error"),
    }
}

#[test]
fn combine_is_associative() {
    let cases = [
        (success_text("x"), success_text("y"), success_text("z")),
        (error_with("a", 400), success_text("y"), success_text("z")),
        (success_text("x"), error_with("b", 403), success_text("z")),
        (success_text("x"), success_text("y"), error_with("c", 500)),
        (error_with("a", 400), error_with("b", 403), success_text("z")),
        (error_with("a", 400), success_text("y"), error_with("c", 500)),
        (success_text("x"), error_with("b", 403), error_with("c", 500)),
        (error_with("a", 400), error_with("b", 403), error_with("c", 500)),
    ];
    for (x, y, z) in cases {
        let left = x.clone().combine(y.clone()).combine(z.clone());
        let right = x.combine(y.combine(z));
        assert_eq!(left, right);
    }
}

#[test]
fn combine_is_error_exactly_when_one_side_is() {
    let pairs = [
        (success_text("x"), success_text("y")),
        (error_with("a", 400), success_text("y")),
        (success_text("x"), error_with("b", 400)),
        (error_with("a", 400), error_with("b", 400)),
    ];
    for (x, y) in pairs {
        let one_way = x.clone().combine(y.clone()).is_success();
        let other_way = y.clone().combine(x.clone()).is_success();
        assert_eq!(one_way, other_way);
        assert_eq!(one_way, x.is_success() && y.is_success());
    }
}

#[test]
fn errors_default_to_the_client_error_status() {
    let errors = Errors::new(vec![Error::from_message("oops")], None);
    assert_eq!(errors.status(), DEFAULT_ERROR_STATUS);
    assert_eq!(DEFAULT_ERROR_STATUS, 400);
}

#[test]
fn error_carries_its_three_parts() {
    let error = Error::new(Some("m".to_owned()), Some("d".to_owned()), Some(3));
    assert_eq!(error.message(), Some("m"));
    assert_eq!(error.details(), Some("d"));
    assert_eq!(error.exit_code(), Some(3));

    let bare = Error::from_message("just text");
    assert_eq!(bare.message(), Some("just text"));
    assert_eq!(bare.details(), None);
    assert_eq!(bare.exit_code(), None);
}
