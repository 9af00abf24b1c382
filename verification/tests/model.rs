//! Tests of the data model and the symbol builders: labels, indices, the
//! semantic lifter and decimal rendering.

use vm_translator::labels;
use vm_translator::semantics;
use vm_translator::to_assembler::arithmetic;
use vm_translator::vm;

#[test]
fn label_keeps_its_text() {
    let label = vm::Label::new("Foo.bar");
    assert_eq!(label.get(), "Foo.bar");
    assert_eq!(label.get_string(), "Foo.bar".to_string());
}

#[test]
fn index_keeps_its_value() {
    let index = vm::Index::new(7);
    assert_eq!(index.get(), 7);
    assert_eq!(vm::Index::new(0).get(), 0);
    assert_eq!(vm::Index::new(65535).get(), 65535);
}

#[test]
fn lifter_splits_the_nine_opcodes() {
    assert_eq!(
        semantics::lift_arithmetic(vm::ArithmeticCommand::Add),
        semantics::ArithmeticCommand::BinaryOperator(semantics::BinaryOperator::Mathmatical(
            semantics::BinaryMathmaticalOperator::Addition
        ))
    );
    assert_eq!(
        semantics::lift_arithmetic(vm::ArithmeticCommand::Sub),
        semantics::ArithmeticCommand::BinaryOperator(semantics::BinaryOperator::Mathmatical(
            semantics::BinaryMathmaticalOperator::Sububraction
        ))
    );
    assert_eq!(
        semantics::lift_arithmetic(vm::ArithmeticCommand::Neg),
        semantics::ArithmeticCommand::UnaryOperator(semantics::UnaryOperator::Negative)
    );
    assert_eq!(
        semantics::lift_arithmetic(vm::ArithmeticCommand::Eq),
        semantics::ArithmeticCommand::BinaryOperator(semantics::BinaryOperator::Comparison(
            semantics::BinaryComparisonOperator::Equal
        ))
    );
    assert_eq!(
        semantics::lift_arithmetic(vm::ArithmeticCommand::Gt),
        semantics::ArithmeticCommand::BinaryOperator(semantics::BinaryOperator::Comparison(
            semantics::BinaryComparisonOperator::GreaterThan
        ))
    );
    assert_eq!(
        semantics::lift_arithmetic(vm::ArithmeticCommand::Lt),
        semantics::ArithmeticCommand::BinaryOperator(semantics::BinaryOperator::Comparison(
            semantics::BinaryComparisonOperator::LessThan
        ))
    );
    assert_eq!(
        semantics::lift_arithmetic(vm::ArithmeticCommand::And),
        semantics::ArithmeticCommand::BinaryOperator(semantics::BinaryOperator::Logical(
            semantics::BinaryLogicalOperator::And
        ))
    );
    assert_eq!(
        semantics::lift_arithmetic(vm::ArithmeticCommand::Or),
        semantics::ArithmeticCommand::BinaryOperator(semantics::BinaryOperator::Logical(
            semantics::BinaryLogicalOperator::Or
        ))
    );
    assert_eq!(
        semantics::lift_arithmetic(vm::ArithmeticCommand::Not),
        semantics::ArithmeticCommand::UnaryOperator(semantics::UnaryOperator::Not)
    );
}

#[test]
fn lifter_passes_other_commands_through() {
    let lifted = semantics::lift(vm::Command::Goto(vm::Label::new("LOOP")));
    assert_eq!(lifted, semantics::Command::Goto(vm::Label::new("LOOP")));
    let lifted = semantics::lift(vm::Command::Return);
    assert_eq!(lifted, semantics::Command::Return);
}

#[test]
fn decimal_rendering_is_plain_base_ten() {
    assert_eq!(labels::decimal_string(0), "0".to_string());
    assert_eq!(labels::decimal_string(7), "7".to_string());
    assert_eq!(labels::decimal_string(10), "10".to_string());
    assert_eq!(labels::decimal_string(305), "305".to_string());
    assert_eq!(labels::decimal_string(4294967295), "4294967295".to_string());
}

#[test]
fn symbol_builders_compose_the_documented_names() {
    assert_eq!(
        labels::true_label_string("Foo", "Foo.bar", 0),
        "RETURN_TRUE_Foo.Foo.bar.0".to_string()
    );
    assert_eq!(
        labels::false_label_string("Foo", "Foo.bar", 12),
        "RETURN_FALSE_Foo.Foo.bar.12".to_string()
    );
    assert_eq!(labels::scoped_label_string("Foo.bar", "LOOP"), "Foo.bar$LOOP".to_string());
    assert_eq!(labels::return_site_label_string("Foo.bar", 3), "Foo.bar$ret.3".to_string());
    assert_eq!(labels::static_symbol_string("Foo", 3), "Foo.3".to_string());
}

#[test]
fn arithmetic_blocks_carry_comments_and_commands() {
    let mut counter: u32 = 5;
    let blocks = arithmetic::construct(
        semantics::ArithmeticCommand::BinaryOperator(semantics::BinaryOperator::Comparison(
            semantics::BinaryComparisonOperator::Equal,
        )),
        "Foo",
        "Foo.bar",
        &mut counter,
    );
    assert_eq!(counter, 6, "a comparison consumes one counter");
    assert!(blocks.len() >= 2);
    assert!(blocks[0].comment().is_some());
    let mut total: usize = 0;
    for block in blocks {
        total += block.into_commands().len();
    }
    assert_eq!(total, 7 + 9 + 6, "load, compare, write back");

    let mut counter: u32 = 0;
    let blocks = arithmetic::construct(
        semantics::ArithmeticCommand::UnaryOperator(semantics::UnaryOperator::Not),
        "Foo",
        "Foo.bar",
        &mut counter,
    );
    assert_eq!(counter, 0, "a unary operator consumes no counter");
    let mut total: usize = 0;
    for block in blocks {
        total += block.into_commands().len();
    }
    assert_eq!(total, 3 + 1 + 3);
}
