use zvm::vm::instruction_exec::InstructionExecutor;

fn count(descriptor: &str) -> usize {
    InstructionExecutor::new().count_method_params(descriptor)
}

#[test]
fn counts_primitive_parameters() {
    assert_eq!(count("()V"), 0);
    assert_eq!(count("(I)I"), 1);
    assert_eq!(count("(IJ)V"), 2);
    assert_eq!(count("(BCDFIJSZ)V"), 8);
}

#[test]
fn counts_object_parameters_once() {
    assert_eq!(count("(Ljava/lang/String;)V"), 1);
    assert_eq!(count("(ILjava/lang/String;J)V"), 3);
    assert_eq!(count("(Ljava/lang/Integer;Ljava/lang/Integer;)I"), 2);
}

#[test]
fn counts_array_parameters_once() {
    assert_eq!(count("([Ljava/lang/String;)V"), 1);
    assert_eq!(count("([[I)V"), 1);
    assert_eq!(count("([I[[JLjava/lang/Object;D)V"), 4);
}

#[test]
fn ignores_the_return_type() {
    assert_eq!(count("()Ljava/lang/String;"), 0);
    assert_eq!(count("(I)[I"), 1);
}

#[test]
fn a_descriptor_without_parenthesis_has_no_parameters() {
    assert_eq!(count(""), 0);
    assert_eq!(count("I"), 0);
    assert_eq!(count("IJ)V"), 0);
}

#[test]
fn unknown_characters_are_passed_over() {
    assert_eq!(count("(I?J)V"), 2);
    assert_eq!(count("(x)V"), 0);
    assert_eq!(count("([?I)V"), 2);
}

#[test]
fn an_unfinished_descriptor_counts_what_is_there() {
    assert_eq!(count("(IJ"), 2);
    assert_eq!(count("(Ljava/lang/String"), 1);
    assert_eq!(count("(["), 1);
    assert_eq!(count("("), 0);
}
