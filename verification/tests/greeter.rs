use actors_utils::exit::{ExitCode, USR_ILLEGAL_ARGUMENT};
use actors_utils::greeter::{greet, invoke, Outcome, CONSTRUCTOR, GREET};

#[test]
fn test_greeter() {
    // call Constructor
    assert_eq!(invoke(CONSTRUCTOR, None), Outcome::Returned(None));

    // call Greet for a classic "hello world"
    let params = fvm_ipld_encoding::to_vec("World!").unwrap();
    let returned = match invoke(GREET, Some(params)) {
        Outcome::Returned(Some(data)) => data,
        other => panic!("unexpected outcome {other:?}"),
    };
    let greeting: String = fvm_ipld_encoding::from_slice(&returned).unwrap();
    assert_eq!(greeting, "Hello, World!")
}

#[test]
fn it_greets_by_name() {
    assert_eq!(greet("Alice"), "Hello, Alice");
    assert_eq!(greet(""), "Hello, ");
}

#[test]
fn it_needs_a_name() {
    assert_eq!(invoke(GREET, None), Outcome::NoName);
    // a number is no name
    assert_eq!(invoke(GREET, Some(vec![0x01])), Outcome::NoName);
}

#[test]
fn it_does_not_know_other_methods() {
    let expected = Outcome::Aborted(ExitCode::new(USR_ILLEGAL_ARGUMENT));
    assert_eq!(invoke(0, None), expected);
    assert_eq!(invoke(GREET + 1, None), expected);
}
