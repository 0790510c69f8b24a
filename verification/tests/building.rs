use builder::descriptor::NamedField;
use builder::semantics::BuildError;
use builder::semantics::BuilderState;

fn fields(names: &[&str]) -> Vec<NamedField> {
    let mut fields = Vec::new();
    for name in names {
        fields.push(NamedField { name: String::from(*name), ty: String::from("u64") });
    }
    fields
}

fn reported(result: Result<Vec<u64>, BuildError>) -> String {
    match result {
        Err(BuildError::MissingRequiredField(name)) => name,
        Ok(_) => panic!("the build was expected to fail"),
    }
}

#[test]
fn fresh_build_reports_the_first_declared_field() {
    let b: BuilderState<u64> = BuilderState::builder(&fields(&["x", "y", "z"]));
    assert_eq!(reported(b.build()), "x");
}

#[test]
fn build_succeeds_after_setters_in_any_order() {
    let f = fields(&["x", "y", "z"]);
    let mut forward: BuilderState<u64> = BuilderState::builder(&f);
    forward.set_field(0, 1);
    forward.set_field(1, 2);
    forward.set_field(2, 3);
    assert_eq!(forward.build().unwrap(), vec![1, 2, 3]);

    let mut backward: BuilderState<u64> = BuilderState::builder(&f);
    backward.set_field(2, 3);
    backward.set_field(0, 1);
    backward.set_field(1, 2);
    assert_eq!(backward.build().unwrap(), vec![1, 2, 3]);
}

#[test]
fn last_write_wins_per_field() {
    let f = fields(&["x", "y"]);
    let mut twice: BuilderState<u64> = BuilderState::builder(&f);
    twice.set_field(0, 7);
    twice.set_field(1, 5);
    twice.set_field(0, 9);
    let mut once: BuilderState<u64> = BuilderState::builder(&f);
    once.set_field(0, 9);
    once.set_field(1, 5);
    assert_eq!(twice.build().unwrap(), vec![9, 5]);
    assert_eq!(twice.build().unwrap(), once.build().unwrap());
}

#[test]
fn round_trip_keeps_every_value() {
    let mut b: BuilderState<u64> = BuilderState::builder(&fields(&["a", "b", "c", "d"]));
    b.set_field(0, 10);
    b.set_field(1, 20);
    b.set_field(2, 30);
    b.set_field(3, 40);
    assert_eq!(b.build().unwrap(), vec![10, 20, 30, 40]);
}

#[test]
fn failed_build_names_the_missing_field_and_can_be_retried() {
    let mut b: BuilderState<u64> = BuilderState::builder(&fields(&["x", "y", "z"]));
    b.set_field(0, 1);
    b.set_field(2, 3);
    assert_eq!(reported(b.build()), "y");
    b.set_field(1, 2);
    assert_eq!(b.build().unwrap(), vec![1, 2, 3]);
}

#[test]
fn failure_reports_the_first_missing_field_only() {
    let mut b: BuilderState<u64> = BuilderState::builder(&fields(&["x", "y", "z"]));
    b.set_field(0, 1);
    assert_eq!(reported(b.build()), "y");
}

#[test]
fn error_message_matches_the_generated_check() {
    let b: BuilderState<u64> = BuilderState::builder(&fields(&["host"]));
    match b.build() {
        Err(e) => assert_eq!(e.message(), "field `host` must be specified"),
        Ok(_) => panic!("the build was expected to fail"),
    }
}

#[test]
fn empty_record_builds_at_once() {
    let b: BuilderState<u64> = BuilderState::builder(&fields(&[]));
    assert_eq!(b.build().unwrap(), Vec::<u64>::new());
}

#[test]
fn point_example_builds_after_both_fields() {
    let f = fields(&["x", "y"]);
    let mut b: BuilderState<u64> = BuilderState::builder(&f);
    b.set_field(0, 3);
    assert_eq!(reported(b.build()), "y");
    b.set_field(1, 4);
    assert_eq!(b.build().unwrap(), vec![3, 4]);
}
