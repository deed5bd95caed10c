//! External programs: what is started, and how a run ended.

use crate::errors::result_view;
use vstd::prelude::*;

verus! {

/// A program to start, with its arguments in order.
#[derive(Debug, Clone, PartialEq, Eq)]
pub struct CommandSpec {
    pub program: String,
    pub args: Vec<String>,
}

/// A [`CommandSpec`] as text.
pub struct CommandView {
    pub program: Seq<char>,
    pub args: Seq<Seq<char>>,
}

impl View for CommandSpec {
    type V = CommandView;

    open spec fn view(&self) -> CommandView {
        CommandView { program: self.program@, args: self.args.deep_view() }
    }
}

/// Why a run of an external program counts as failed.
#[derive(Debug, Clone, PartialEq, Eq)]
pub enum Error {
    /// The program could not be started; the cause is given as text.
    FailedToStart(String),
    /// The program ran and ended with a status other than success. The code
    /// is absent where the program ended without one.
    Exited(Option<i32>),
}

/// An [`Error`] as text.
pub enum ErrorView {
    FailedToStart(Seq<char>),
    Exited(Option<i32>),
}

impl View for Error {
    type V = ErrorView;

    open spec fn view(&self) -> ErrorView {
        match self {
            Error::FailedToStart(cause) => ErrorView::FailedToStart(cause@),
            Error::Exited(code) => ErrorView::Exited(*code),
        }
    }
}

/// How a run counts: a success where the program was started and ended with
/// status 0, a failure otherwise.
pub open spec fn verdict(run: Result<Option<i32>, Seq<char>>) -> Result<(), ErrorView> {
    match run {
        Ok(Some(code)) => if code == 0 {
            Ok(())
        } else {
            Err(ErrorView::Exited(Some(code)))
        },
        Ok(None) => Err(ErrorView::Exited(None)),
        Err(cause) => Err(ErrorView::FailedToStart(cause)),
    }
}

/// Judges a run by what starting the program gave: the exit code of a program
/// that ran, or the reason why none was started.
pub fn run_result(run: Result<Option<i32>, String>) -> (r: Result<(), Error>)
    ensures
        result_view(r) == verdict(result_view(run)),
{
    match run {
        Ok(Some(code)) => if code == 0 {
            Ok(())
        } else {
            Err(Error::Exited(Some(code)))
        },
        Ok(None) => Err(Error::Exited(None)),
        Err(cause) => Err(Error::FailedToStart(cause)),
    }
}

} // verus!
