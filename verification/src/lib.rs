//! Boundary between an embedded Ruby runtime and its Rust host: the tags of
//! both worlds, the conversions between dynamic values and host values, and
//! the resolution of regular-expression captures built on top of them.

pub mod convert;
pub mod def;
pub mod eval;
pub mod exception;
pub mod extn;
pub mod file;
pub mod fs;
pub mod load;
pub mod method;
pub mod value;

use vstd::prelude::*;
use vstd::std_specs::cmp::PartialEqSpecImpl;
use vstd::string::StringExecFns;
use crate::value::types::{Ruby, Rust};

verus! {

/// State of one interpreter session that the boundary layer reads and
/// updates.
#[derive(Debug)]
pub struct Artichoke {
    /// How many capture groups, the whole match included, the most recent
    /// successful match published as globals.
    pub num_set_regexp_capture_globals: usize,
}

impl Artichoke {
    /// A fresh session, in which no match was published yet.
    pub fn new() -> (r: Self)
        ensures
            r.num_set_regexp_capture_globals == 0,
    {
        Artichoke { num_set_regexp_capture_globals: 0 }
    }
}

/// The decimal digit of a number below ten.
pub open spec fn digit(d: nat) -> char {
    if d == 0 {
        '0'
    } else if d == 1 {
        '1'
    } else if d == 2 {
        '2'
    } else if d == 3 {
        '3'
    } else if d == 4 {
        '4'
    } else if d == 5 {
        '5'
    } else if d == 6 {
        '6'
    } else if d == 7 {
        '7'
    } else if d == 8 {
        '8'
    } else {
        '9'
    }
}

/// A number in decimal digits, without leading zeros.
pub open spec fn decimal(n: nat) -> Seq<char>
    decreases n,
{
    if n < 10 {
        seq![digit(n)]
    } else {
        decimal(n / 10).push(digit(n % 10))
    }
}

/// The decimal digit of a number below ten, as text.
pub fn digit_text(d: usize) -> (r: &'static str)
    requires
        d < 10,
    ensures
        r@ == seq![digit(d as nat)],
{
    if d == 0 {
        proof {
            reveal_strlit("0");
        }
        assert("0"@ =~= seq![digit(d as nat)]);
        return "0";
    }
    if d == 1 {
        proof {
            reveal_strlit("1");
        }
        assert("1"@ =~= seq![digit(d as nat)]);
        return "1";
    }
    if d == 2 {
        proof {
            reveal_strlit("2");
        }
        assert("2"@ =~= seq![digit(d as nat)]);
        return "2";
    }
    if d == 3 {
        proof {
            reveal_strlit("3");
        }
        assert("3"@ =~= seq![digit(d as nat)]);
        return "3";
    }
    if d == 4 {
        proof {
            reveal_strlit("4");
        }
        assert("4"@ =~= seq![digit(d as nat)]);
        return "4";
    }
    if d == 5 {
        proof {
            reveal_strlit("5");
        }
        assert("5"@ =~= seq![digit(d as nat)]);
        return "5";
    }
    if d == 6 {
        proof {
            reveal_strlit("6");
        }
        assert("6"@ =~= seq![digit(d as nat)]);
        return "6";
    }
    if d == 7 {
        proof {
            reveal_strlit("7");
        }
        assert("7"@ =~= seq![digit(d as nat)]);
        return "7";
    }
    if d == 8 {
        proof {
            reveal_strlit("8");
        }
        assert("8"@ =~= seq![digit(d as nat)]);
        return "8";
    }
    proof {
        reveal_strlit("9");
    }
    assert("9"@ =~= seq![digit(d as nat)]);
    "9"
}

/// A number in decimal digits, without leading zeros, as text.
pub fn decimal_string(n: usize) -> (r: String)
    ensures
        r@ == decimal(n as nat),
    decreases n,
{
    if n < 10 {
        String::from_str(digit_text(n))
    } else {
        let text = decimal_string(n / 10).concat(digit_text(n % 10));
        assert(text@ =~= decimal((n / 10) as nat).push(digit((n % 10) as nat)));
        text
    }
}

/// What can go wrong in the interpreter.
#[derive(Debug)]
pub enum ArtichokeError {
    /// The description of the arguments of a call could not be made.
    ArgSpec,
    /// A host value could not be converted to a value of the runtime.
    ConvertToRuby(convert::Error<Rust, Ruby>),
    /// A value of the runtime could not be converted to a host value.
    ConvertToRust(convert::Error<Ruby, Rust>),
    /// An exception was raised while code was evaluated.
    Exec(exception::Exception),
    /// The interpreter could not be made.
    New,
    /// No class or module of this name is defined.
    NotDefined(String),
    /// No source file of this path is among the sources.
    SourceNotFound(String),
    /// A call was given more arguments than the interpreter takes.
    TooManyArgs { given: usize, max: usize },
    /// The interpreter was not initialized.
    Uninitialized,
    /// A value that is internal to the interpreter was taken out of it.
    UnreachableValue,
    /// The virtual filesystem failed, with this message.
    Vfs(String),
}

impl ArtichokeError {
    /// The text of [`ArtichokeError::display`].
    pub open spec fn display_spec(&self) -> Seq<char> {
        match self {
            ArtichokeError::ArgSpec => "could not generate argspec"@,
            ArtichokeError::ConvertToRuby(inner) => inner.message_spec(),
            ArtichokeError::ConvertToRust(inner) => inner.message_spec(),
            ArtichokeError::Exec(exception) => exception.display_spec(),
            ArtichokeError::New => "failed to create mrb interpreter"@,
            ArtichokeError::NotDefined(fqname) => fqname@ + " not defined"@,
            ArtichokeError::SourceNotFound(source) => "Could not load Ruby source "@ + source@,
            ArtichokeError::TooManyArgs { given, max } => "Too many args for funcall. Gave "@
                + decimal(*given as nat) + ", but max is "@ + decimal(*max as nat),
            ArtichokeError::Uninitialized => "mrb interpreter not initialized"@,
            ArtichokeError::UnreachableValue => "extracted unreachable value from interpreter"@,
            ArtichokeError::Vfs(err) => "vfs io error: "@ + err@,
        }
    }

    /// The error as text.
    pub fn display(&self) -> (r: String)
        ensures
            r@ == self.display_spec(),
    {
        match self {
            ArtichokeError::ArgSpec => String::from_str("could not generate argspec"),
            ArtichokeError::ConvertToRuby(inner) => inner.message(),
            ArtichokeError::ConvertToRust(inner) => inner.message(),
            ArtichokeError::Exec(exception) => exception.display(),
            ArtichokeError::New => String::from_str("failed to create mrb interpreter"),
            ArtichokeError::NotDefined(fqname) => fqname.clone().concat(" not defined"),
            ArtichokeError::SourceNotFound(source) => String::from_str(
                "Could not load Ruby source ",
            ).concat(source.as_str()),
            ArtichokeError::TooManyArgs { given, max } => {
                let given = decimal_string(*given);
                let max = decimal_string(*max);
                String::from_str("Too many args for funcall. Gave ").concat(given.as_str()).concat(
                    ", but max is ",
                ).concat(max.as_str())
            },
            ArtichokeError::Uninitialized => String::from_str("mrb interpreter not initialized"),
            ArtichokeError::UnreachableValue => String::from_str(
                "extracted unreachable value from interpreter",
            ),
            ArtichokeError::Vfs(err) => String::from_str("vfs io error: ").concat(err.as_str()),
        }
    }

    /// The text of what caused the error, where [`ArtichokeError::cause`]
    /// gives one.
    pub open spec fn cause_spec(&self) -> Option<Seq<char>> {
        match self {
            ArtichokeError::ConvertToRuby(inner) => Some(inner.message_spec()),
            ArtichokeError::ConvertToRust(inner) => Some(inner.message_spec()),
            ArtichokeError::Vfs(err) => Some(err@),
            _ => None,
        }
    }

    /// What caused the error, as text: the failed conversion or the failure
    /// of the virtual filesystem behind it. The other errors have no cause.
    pub fn cause(&self) -> (r: Option<String>)
        ensures
            match r {
                Some(text) => self.cause_spec() == Some(text@),
                None => self.cause_spec() is None,
            },
    {
        match self {
            ArtichokeError::ConvertToRuby(inner) => Some(inner.message()),
            ArtichokeError::ConvertToRust(inner) => Some(inner.message()),
            ArtichokeError::Vfs(err) => Some(err.clone()),
            _ => None,
        }
    }
}

/// Two errors are equal if they show the same text.
impl PartialEq for ArtichokeError {
    fn eq(&self, other: &Self) -> (r: bool) {
        self.display() == other.display()
    }
}

impl PartialEqSpecImpl for ArtichokeError {
    open spec fn obeys_eq_spec() -> bool {
        true
    }

    open spec fn eq_spec(&self, other: &Self) -> bool {
        self.display_spec() == other.display_spec()
    }
}

impl Eq for ArtichokeError {

}

} // verus!
