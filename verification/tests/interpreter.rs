use artichoke_core::convert::Error;
use artichoke_core::def::{qualified, Definition, EnclosingRubyScope};
use artichoke_core::eval::Context;
use artichoke_core::exception::{Exception, LastError};
use artichoke_core::fs::{Metadata, RUBY_LOAD_PATH};
use artichoke_core::load::normalize_source_path;
use artichoke_core::method::Type;
use artichoke_core::value::types::{Ruby, Rust};
use artichoke_core::{decimal_string, digit_text, Artichoke, ArtichokeError};

#[test]
fn context_names_its_file() {
    assert_eq!(Context::new("lib/a.rb").filename, "lib/a.rb");
    assert_eq!(Context::root().filename, "(eval)");
    assert_eq!(Context::default(), Context::root());
}

#[test]
fn exception_shows_backtrace() {
    let exception = Exception::new(
        "RuntimeError",
        "boom",
        Some(vec![String::from("a.rb:1"), String::from("b.rb:2")]),
        "RuntimeError: boom",
    );
    assert_eq!(exception.class, "RuntimeError");
    assert_eq!(exception.message, "boom");
    assert_eq!(exception.display(), "RuntimeError: boom\na.rb:1\nb.rb:2");
    let bare = Exception::new("SyntaxError", "bad", None, "SyntaxError: bad");
    assert_eq!(bare.display(), "SyntaxError: bad");
    let empty = Exception::new("E", "m", Some(vec![]), "E: m");
    assert_eq!(empty.display(), "E: m");
    match LastError::Raised(bare.clone()) {
        LastError::Raised(held) => assert_eq!(held, bare),
        _ => unreachable!(),
    }
}

#[test]
fn metadata_marks_required() {
    let metadata: Metadata<u8> = Metadata::new();
    assert!(!metadata.is_already_required());
    assert!(metadata.require.is_none());
    let mut backed: Metadata<u8> = Metadata::default();
    backed.require = Some(7);
    let marked = backed.mark_required();
    assert!(marked.is_already_required());
    assert_eq!(marked.require, Some(7));
    assert_eq!(marked.require(), &Some(7));
    assert_eq!(metadata.require(), &None);
    assert_eq!(RUBY_LOAD_PATH, "/src/lib");
}

#[test]
fn errors_show_themselves() {
    assert_eq!(ArtichokeError::ArgSpec.display(), "could not generate argspec");
    assert_eq!(
        ArtichokeError::ConvertToRuby(Error {
            from: Rust::Float,
            to: Ruby::Float
        })
        .display(),
        "failed to convert from rust f64 to ruby Float"
    );
    assert_eq!(
        ArtichokeError::ConvertToRust(Error {
            from: Ruby::Hash,
            to: Rust::HashMap
        })
        .display(),
        "failed to convert from ruby Hash to rust HashMap"
    );
    assert_eq!(
        ArtichokeError::Exec(Exception::new("E", "m", Some(vec![String::from("f")]), "E: m"))
            .display(),
        "E: m\nf"
    );
    assert_eq!(ArtichokeError::New.display(), "failed to create mrb interpreter");
    assert_eq!(
        ArtichokeError::NotDefined(String::from("A::B")).display(),
        "A::B not defined"
    );
    assert_eq!(
        ArtichokeError::SourceNotFound(String::from("a.rb")).display(),
        "Could not load Ruby source a.rb"
    );
    assert_eq!(
        ArtichokeError::TooManyArgs { given: 17, max: 16 }.display(),
        "Too many args for funcall. Gave 17, but max is 16"
    );
    assert_eq!(
        ArtichokeError::TooManyArgs { given: 0, max: 1005 }.display(),
        "Too many args for funcall. Gave 0, but max is 1005"
    );
    assert_eq!(
        ArtichokeError::Uninitialized.display(),
        "mrb interpreter not initialized"
    );
    assert_eq!(
        ArtichokeError::UnreachableValue.display(),
        "extracted unreachable value from interpreter"
    );
    assert_eq!(
        ArtichokeError::Vfs(String::from("not found")).display(),
        "vfs io error: not found"
    );
    assert_eq!(ArtichokeError::New, ArtichokeError::New);
    assert_eq!(
        ArtichokeError::NotDefined(String::from("vfs io error: x")),
        ArtichokeError::NotDefined(String::from("vfs io error: x"))
    );
    // equal is what shows the same text
    assert_eq!(
        ArtichokeError::Vfs(String::from("x not defined")),
        ArtichokeError::NotDefined(String::from("vfs io error: x"))
    );
    assert_ne!(ArtichokeError::New, ArtichokeError::Uninitialized);
    assert_eq!(
        LastError::UnableToExtract(ArtichokeError::ArgSpec),
        LastError::UnableToExtract(ArtichokeError::ArgSpec)
    );
    assert_ne!(LastError::Nothing, LastError::UnableToExtract(ArtichokeError::New));
    assert_eq!(
        ArtichokeError::Vfs(String::from("disk")).cause(),
        Some(String::from("disk"))
    );
    assert_eq!(
        ArtichokeError::ConvertToRust(Error {
            from: Ruby::Nil,
            to: Rust::Bool
        })
        .cause(),
        Some(String::from("failed to convert from ruby NilClass to rust bool"))
    );
    assert_eq!(
        ArtichokeError::ConvertToRuby(Error {
            from: Rust::Vec,
            to: Ruby::Array
        })
        .cause(),
        Some(String::from("failed to convert from rust Vec to ruby Array"))
    );
    assert_eq!(ArtichokeError::New.cause(), None);
    assert_eq!(ArtichokeError::NotDefined(String::from("A")).cause(), None);
}

#[test]
fn sources_go_below_the_load_path() {
    assert_eq!(normalize_source_path("a.rb", true), "/src/lib/a.rb");
    assert_eq!(normalize_source_path("lib/a.rb", true), "/src/lib/lib/a.rb");
    assert_eq!(normalize_source_path("", true), "/src/lib/");
    assert_eq!(normalize_source_path("/opt/a.rb", false), "/opt/a.rb");
    assert_eq!(
        std::path::PathBuf::from(normalize_source_path("x/y.rb", true)),
        std::path::PathBuf::from(RUBY_LOAD_PATH).join("x/y.rb")
    );
}

#[test]
fn numbers_in_decimal() {
    assert_eq!(decimal_string(0), "0");
    assert_eq!(decimal_string(9), "9");
    assert_eq!(decimal_string(10), "10");
    assert_eq!(decimal_string(4096), "4096");
    assert_eq!(decimal_string(1234567890), "1234567890");
    assert_eq!(decimal_string(usize::MAX), usize::MAX.to_string());
    for d in 0..10 {
        assert_eq!(digit_text(d), d.to_string());
    }
}

#[test]
fn scopes_qualify_names() {
    let a = Definition {
        name: String::from("A"),
        enclosing_scope: None,
    };
    let b = Definition {
        name: String::from("B"),
        enclosing_scope: Some(Box::new(EnclosingRubyScope::module(a))),
    };
    let c = Definition {
        name: String::from("C"),
        enclosing_scope: Some(Box::new(EnclosingRubyScope::class(b))),
    };
    assert_eq!(c.fqname(), "A::B::C");
    assert_eq!(qualified(Some(String::from("A::B")), "C"), "A::B::C");
    assert_eq!(qualified(None, "C"), "C");
    let scope = EnclosingRubyScope::module(c);
    assert_eq!(scope.fqname(), "A::B::C");
    let flat = || Definition {
        name: String::from("A::B::C"),
        enclosing_scope: None,
    };
    assert_eq!(scope, EnclosingRubyScope::module(flat()));
    assert_ne!(scope, EnclosingRubyScope::class(flat()));
    assert_ne!(
        EnclosingRubyScope::class(flat()),
        EnclosingRubyScope::class(Definition {
            name: String::from("C"),
            enclosing_scope: None
        })
    );
}

#[test]
fn method_types_and_session() {
    assert_ne!(Type::Class, Type::Instance);
    assert_eq!(Type::Global, Type::Global);
    assert_eq!(Artichoke::new().num_set_regexp_capture_globals, 0);
}
