use mcp_counter::{HelloWorld, Operation};

#[test]
fn each_operation_has_its_name() {
    assert_eq!(Operation::Increment.name(), "increment");
    assert_eq!(Operation::Decrement.name(), "decrement");
    assert_eq!(Operation::GetValue.name(), "get_value");
    assert_eq!(Operation::Reset.name(), "reset");
    assert_eq!(Operation::Echo.name(), "echo");
}

#[test]
fn each_operation_has_its_description() {
    assert_eq!(Operation::Increment.description(), "Increment the counter");
    assert_eq!(Operation::Decrement.description(), "Decrement the counter");
    assert_eq!(Operation::GetValue.description(), "Get the current value of the counter");
    assert_eq!(Operation::Reset.description(), "Reset the counter to zero");
    assert_eq!(Operation::Echo.description(), "Echo the input");
}

#[test]
fn the_names_are_all_different() {
    let all = [
        Operation::Increment,
        Operation::Decrement,
        Operation::GetValue,
        Operation::Reset,
        Operation::Echo,
    ];
    for a in all {
        for b in all {
            assert_eq!(a.name() == b.name(), a == b);
        }
    }
}

#[test]
fn the_instructions_are_fixed() {
    assert_eq!(HelloWorld::instructions(), "this is counter mcp server in rust");
}
