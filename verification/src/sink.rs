//! The failure sink: the log of the errors that the background worker met,
//! kept until a caller asks for them.

use vstd::prelude::*;
use std::collections::VecDeque;
use crate::errors::ReporterError;

verus! {

/// The captured failures, oldest first. The worker appends at the tail and
/// callers take from the head. The log has no bound.
pub struct ErrorSink {
    errors: VecDeque<ReporterError>,
}

impl View for ErrorSink {
    type V = Seq<ReporterError>;

    closed spec fn view(&self) -> Seq<ReporterError> {
        self.errors@
    }
}

impl ErrorSink {
    /// What the sink holds after the outcome of a flush was recorded: a
    /// failure is appended, a success leaves no trace.
    pub open spec fn recorded(held: Seq<ReporterError>, outcome: Result<(), ReporterError>) -> Seq<
        ReporterError,
    > {
        match outcome {
            Ok(_) => held,
            Err(error) => held.push(error),
        }
    }

    /// An empty sink.
    pub fn new() -> (sink: ErrorSink)
        ensures
            sink@ == Seq::<ReporterError>::empty(),
    {
        ErrorSink { errors: VecDeque::new() }
    }

    /// The number of failures that wait to be taken.
    pub fn len(&self) -> (n: usize)
        ensures
            n == self@.len(),
    {
        self.errors.len()
    }

    /// Whether no failure waits to be taken.
    pub fn is_empty(&self) -> (empty: bool)
        ensures
            empty == (self@.len() == 0),
    {
        self.errors.len() == 0
    }

    /// Appends a failure at the tail.
    pub fn push(&mut self, error: ReporterError)
        ensures
            final(self)@ == old(self)@.push(error),
    {
        self.errors.push_back(error);
    }

    /// Records the outcome of a flush: keeps its failure, if it failed.
    pub fn record(&mut self, outcome: Result<(), ReporterError>)
        ensures
            final(self)@ == ErrorSink::recorded(old(self)@, outcome),
    {
        match outcome {
            Ok(_) => {},
            Err(error) => {
                self.errors.push_back(error);
            },
        }
    }

    /// Removes and returns the oldest failure, or nothing where none waits.
    pub fn pop_error(&mut self) -> (error: Option<ReporterError>)
        ensures
            match error {
                Some(e) => old(self)@.len() > 0 && e == old(self)@.first() && final(self)@ == old(
                    self,
                )@.drop_first(),
                None => old(self)@.len() == 0 && final(self)@ == old(self)@,
            },
    {
        let error = self.errors.pop_front();
        proof {
            if old(self)@.len() > 0 {
                assert(old(self)@.subrange(1, old(self)@.len() as int) =~= old(self)@.drop_first());
            }
        }
        error
    }
}

} // verus!
