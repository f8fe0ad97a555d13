//! Exceptions of the runtime, as the host sees them.

use vstd::prelude::*;
use vstd::string::StringExecFns;
use crate::ArtichokeError;

verus! {

/// What is known about an exception that was raised in the runtime.
#[derive(Debug, Clone, PartialEq, Eq, Hash)]
pub struct Exception {
    /// The name of the class of the exception.
    pub class: String,
    /// The message of the exception.
    pub message: String,
    /// The backtrace of the exception. Some exceptions, such as a syntax
    /// error that the runtime raises by itself, have none.
    pub backtrace: Option<Vec<String>>,
    /// What the exception shows when it is inspected.
    pub inspect: String,
}

/// The views of the frames of a backtrace.
pub open spec fn frames_view(frames: Seq<String>) -> Seq<Seq<char>> {
    Seq::new(frames.len(), |i: int| frames[i]@)
}

/// The frames of a backtrace as text: each frame on a line of its own,
/// behind a line break.
pub open spec fn frames_text(frames: Seq<Seq<char>>) -> Seq<char>
    decreases frames.len(),
{
    if frames.len() == 0 {
        Seq::empty()
    } else {
        frames_text(frames.drop_last()) + "\n"@ + frames.last()
    }
}

impl Exception {
    /// An exception with the given class name, message, backtrace and
    /// inspection.
    pub fn new(class: &str, message: &str, backtrace: Option<Vec<String>>, inspect: &str) -> (r:
        Self)
        ensures
            r.class@ == class@,
            r.message@ == message@,
            r.backtrace == backtrace,
            r.inspect@ == inspect@,
    {
        Exception {
            class: class.to_owned(),
            message: message.to_owned(),
            backtrace,
            inspect: inspect.to_owned(),
        }
    }

    /// The text of [`Exception::display`].
    pub open spec fn display_spec(&self) -> Seq<char> {
        match self.backtrace {
            Some(frames) => self.inspect@ + frames_text(frames_view(frames@)),
            None => self.inspect@,
        }
    }

    /// The exception as text: its inspection, followed by the frames of its
    /// backtrace, one on each line.
    pub fn display(&self) -> (r: String)
        ensures
            r@ == self.display_spec(),
    {
        let mut text = self.inspect.clone();
        match &self.backtrace {
            Some(frames) => {
                let ghost all = frames_view(frames@);
                let mut i: usize = 0;
                while i < frames.len()
                    invariant
                        i <= frames.len(),
                        all == frames_view(frames@),
                        text@ == self.inspect@ + frames_text(all.take(i as int)),
                    decreases frames.len() - i,
                {
                    proof {
                        assert(all.take(i + 1).drop_last() =~= all.take(i as int));
                        assert(all.take(i + 1).last() == frames@[i as int]@);
                    }
                    text.append("\n");
                    text.append(frames[i].as_str());
                    proof {
                        assert(text@ =~= self.inspect@ + frames_text(all.take(i + 1)));
                    }
                    i += 1;
                }
                proof {
                    assert(all.take(i as int) =~= all);
                }
            },
            None => {
                proof {
                    assert(text@ =~= self.inspect@);
                }
            },
        }
        text
    }
}

/// What the interpreter tells about the exception that was raised last.
#[derive(Debug, PartialEq, Eq)]
pub enum LastError {
    /// An exception was raised.
    Raised(Exception),
    /// No exception was raised.
    Nothing,
    /// The exception could not be taken out of the interpreter.
    UnableToExtract(ArtichokeError),
}

/// An interpreter that can tell which exception was raised last.
pub trait ExceptionHandler {
    /// The exception that was raised last, if there is one.
    fn last_error(&self) -> LastError;
}

} // verus!
