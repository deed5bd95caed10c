use slink::process::{run_result, CommandSpec, Error};

#[test]
fn a_run_that_ends_with_status_zero_succeeds() {
    assert_eq!(run_result(Ok(Some(0))), Ok(()));
}

#[test]
fn a_run_that_ends_with_another_status_fails_with_it() {
    assert_eq!(run_result(Ok(Some(1))), Err(Error::Exited(Some(1))));
    assert_eq!(run_result(Ok(Some(255))), Err(Error::Exited(Some(255))));
    assert_eq!(run_result(Ok(Some(-1))), Err(Error::Exited(Some(-1))));
}

#[test]
fn a_run_that_ends_without_a_status_fails() {
    assert_eq!(run_result(Ok(None)), Err(Error::Exited(None)));
}

#[test]
fn a_program_that_did_not_start_fails_with_the_cause() {
    assert_eq!(
        run_result(Err(String::from("No such file or directory"))),
        Err(Error::FailedToStart(String::from("No such file or directory")))
    );
    assert_eq!(run_result(Err(String::new())), Err(Error::FailedToStart(String::new())));
}

#[test]
fn a_command_is_a_program_and_its_arguments() {
    let c = CommandSpec { program: String::from("ssh"), args: vec![String::from("-q")] };
    assert_eq!(c.clone(), c);
    assert_eq!(c.program, "ssh");
    assert_eq!(c.args, vec!["-q"]);
}
