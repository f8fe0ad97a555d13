use artichoke_core::convert::fixnum::is_int;
use artichoke_core::convert::string::is_text;
use artichoke_core::convert::{Convert, Error, TryConvert};
use artichoke_core::value::types::{Float, Int, Ruby, Rust, Tag};
use artichoke_core::value::{Dynamic, Value};
use artichoke_core::Artichoke;

#[test]
fn ruby_to_rust_error_display() {
    let err = Error {
        from: Ruby::Fixnum,
        to: Rust::Vec,
    };
    assert_eq!(
        format!("{}", err.message()),
        "failed to convert from ruby Fixnum to rust Vec"
    );
}

#[test]
fn ruby_to_rust_error_debug() {
    let err = Error {
        from: Ruby::Fixnum,
        to: Rust::Vec,
    };
    assert_eq!(
        err.debug_message(),
        "mruby conversion error: failed to convert from ruby Fixnum to rust Vec"
    );
    assert_eq!(
        format!("{:?}", err.debug_message()),
        format!(
            "{:?}",
            "mruby conversion error: failed to convert from ruby Fixnum to rust Vec"
        )
    );
}

#[test]
fn rust_to_ruby_error_display() {
    let err = Error {
        from: Rust::Bool,
        to: Ruby::String,
    };
    assert_eq!(
        format!("{}", err.message()),
        "failed to convert from rust bool to ruby String"
    );
}

#[test]
fn rust_to_ruby_error_debug() {
    let err = Error {
        from: Rust::Bool,
        to: Ruby::String,
    };
    assert_eq!(
        err.debug_message(),
        "mruby conversion error: failed to convert from rust bool to ruby String"
    );
    assert_eq!(
        format!("{:?}", err.debug_message()),
        format!(
            "{:?}",
            "mruby conversion error: failed to convert from rust bool to ruby String"
        )
    );
}

#[test]
fn float_fail_convert() {
    let interp = Artichoke::new();
    // a value that can't be converted to a primitive type.
    let value = Dynamic::Object;
    let expected = Error {
        from: Ruby::Object,
        to: Rust::Vec,
    };
    let result = <Vec<Float>>::try_convert(&interp, value).map(|_| ());
    assert_eq!(result, Err(expected));
}

#[test]
fn bytes_fail_convert() {
    let interp = Artichoke::new();
    // a value that can't be converted to a primitive type.
    let value = Dynamic::Object;
    let expected = Error {
        from: Ruby::Object,
        to: Rust::Bytes,
    };
    let result = <Vec<u8>>::try_convert(&interp, value).map(|_| ());
    assert_eq!(result, Err(expected));
}

#[test]
fn array_fail_convert() {
    let interp = Artichoke::new();
    // a value that can't be converted to a primitive type.
    let value = Dynamic::Object;
    let result = <Option<Vec<Int>>>::try_convert(&interp, value).map(|_| ());
    assert_eq!(result.map_err(|e| e.from), Err(Ruby::Object));
}

#[test]
fn bytes_convert_to_string_value() {
    let interp = Artichoke::new();
    let value = <Dynamic as Convert<Artichoke, Vec<u8>>>::convert(&interp, vec![0, 159, 146, 150]);
    assert_eq!(value.ruby_type(), Ruby::String);
    assert_eq!(value, Dynamic::String(vec![0, 159, 146, 150]));
}

#[test]
fn bytes_roundtrip() {
    let interp = Artichoke::new();
    for v in [vec![], vec![1u8], vec![255, 0, 7, 7, 128]] {
        let value = <Dynamic as Convert<Artichoke, Vec<u8>>>::convert(&interp, v.clone());
        match &value {
            Dynamic::String(held) => assert_eq!(held.len(), v.len()),
            other => panic!("not a string: {:?}", other),
        }
        let back = <Vec<u8>>::try_convert(&interp, value).expect("convert");
        assert_eq!(back, v);
    }
}

#[test]
fn bytes_from_slice() {
    let interp = Artichoke::new();
    let bytes: &[u8] = b"abc";
    let value = <Dynamic as Convert<Artichoke, &[u8]>>::convert(&interp, bytes);
    assert_eq!(value, Dynamic::String(vec![97, 98, 99]));
}

#[test]
fn bytes_roundtrip_err() {
    let interp = Artichoke::new();
    for b in [true, false] {
        let value = <Dynamic as Convert<Artichoke, bool>>::convert(&interp, b);
        let result = <Vec<u8>>::try_convert(&interp, value);
        assert_eq!(
            result,
            Err(Error {
                from: Ruby::Bool,
                to: Rust::Bytes
            })
        );
    }
}

#[test]
fn floats_convert_to_array() {
    let interp = Artichoke::new();
    let v = vec![Float::from_bits(1.5f64.to_bits()), Float::from_bits(f64::NAN.to_bits())];
    let value = <Dynamic as Convert<Artichoke, Vec<Float>>>::convert(&interp, v.clone());
    assert_eq!(
        value,
        Dynamic::Array(vec![Dynamic::Float(v[0]), Dynamic::Float(v[1])])
    );
}

#[test]
fn floats_roundtrip() {
    let interp = Artichoke::new();
    let v: Vec<Float> = [0.0f64, -1.25, 3.0e300, f64::INFINITY, f64::NAN]
        .iter()
        .map(|f| Float::from_bits(f.to_bits()))
        .collect();
    let value = <Dynamic as Convert<Artichoke, Vec<Float>>>::convert(&interp, v.clone());
    let back = <Vec<Float>>::try_convert(&interp, value);
    assert_eq!(back, Ok(v.clone()));
    assert_eq!(f64::from_bits(v[1].to_bits()), -1.25);
}

#[test]
fn floats_fail_on_first_bad_item() {
    let interp = Artichoke::new();
    let value = Dynamic::Array(vec![
        Dynamic::Float(Float::from_bits(1)),
        Dynamic::Float(Float::from_bits(2)),
        Dynamic::Symbol,
        Dynamic::Bool(true),
    ]);
    let result = <Vec<Float>>::try_convert(&interp, value);
    assert_eq!(
        result,
        Err(Error {
            from: Ruby::Symbol,
            to: Rust::Float
        })
    );
}

#[test]
fn optional_floats_roundtrip() {
    let interp = Artichoke::new();
    let v = vec![Some(Float::from_bits(7)), None, Some(Float::from_bits(9))];
    let value = <Dynamic as Convert<Artichoke, Vec<Option<Float>>>>::convert(&interp, v.clone());
    assert_eq!(
        value,
        Dynamic::Array(vec![
            Dynamic::Float(Float::from_bits(7)),
            Dynamic::Nil,
            Dynamic::Float(Float::from_bits(9))
        ])
    );
    assert_eq!(<Vec<Option<Float>>>::try_convert(&interp, value), Ok(v));
}

#[test]
fn non_sequence_fails_with_its_tag() {
    let interp = Artichoke::new();
    assert_eq!(
        <Vec<bool>>::try_convert(&interp, Dynamic::Fixnum(3)),
        Err(Error {
            from: Ruby::Fixnum,
            to: Rust::Vec
        })
    );
    assert_eq!(
        <Vec<Vec<u8>>>::try_convert(&interp, Dynamic::Hash),
        Err(Error {
            from: Ruby::Hash,
            to: Rust::Vec
        })
    );
    assert_eq!(
        <Vec<Dynamic>>::try_convert(&interp, Dynamic::Nil),
        Err(Error {
            from: Ruby::Nil,
            to: Rust::Vec
        })
    );
}

#[test]
fn nilable_absent_roundtrip() {
    let interp = Artichoke::new();
    let value = <Dynamic as Convert<Artichoke, Option<Vec<Int>>>>::convert(&interp, None);
    assert_eq!(value, Dynamic::Nil);
    assert_eq!(<Option<Vec<Int>>>::try_convert(&interp, value), Ok(None));
    let value = <Dynamic as Convert<Artichoke, Option<Vec<bool>>>>::convert(&interp, None);
    assert_eq!(<Option<Vec<bool>>>::try_convert(&interp, value), Ok(None));
    let value = <Dynamic as Convert<Artichoke, Option<Vec<Float>>>>::convert(&interp, None);
    assert_eq!(<Option<Vec<Float>>>::try_convert(&interp, value), Ok(None));
    let value = <Dynamic as Convert<Artichoke, Option<Vec<String>>>>::convert(&interp, None);
    assert_eq!(<Option<Vec<String>>>::try_convert(&interp, value), Ok(None));
    let value = <Dynamic as Convert<Artichoke, Option<Vec<Vec<u8>>>>>::convert(&interp, None);
    assert_eq!(<Option<Vec<Vec<u8>>>>::try_convert(&interp, value), Ok(None));
    let value = <Dynamic as Convert<Artichoke, Option<Vec<&str>>>>::convert(&interp, None);
    assert_eq!(value, Dynamic::Nil);
}

#[test]
fn nilable_present_roundtrip() {
    let interp = Artichoke::new();
    let v = Some(vec![1 as Int, -2, Int::MAX, Int::MIN]);
    let value = <Dynamic as Convert<Artichoke, Option<Vec<Int>>>>::convert(&interp, v.clone());
    assert_eq!(
        value,
        Dynamic::Array(vec![
            Dynamic::Fixnum(1),
            Dynamic::Fixnum(-2),
            Dynamic::Fixnum(Int::MAX),
            Dynamic::Fixnum(Int::MIN)
        ])
    );
    assert_eq!(<Option<Vec<Int>>>::try_convert(&interp, value), Ok(v));

    let v = Some(vec![true, false]);
    let value = <Dynamic as Convert<Artichoke, Option<Vec<bool>>>>::convert(&interp, v.clone());
    assert_eq!(<Option<Vec<bool>>>::try_convert(&interp, value), Ok(v));

    let v = Some(vec![b"ab".to_vec(), vec![], vec![255]]);
    let value = <Dynamic as Convert<Artichoke, Option<Vec<Vec<u8>>>>>::convert(&interp, v.clone());
    assert_eq!(<Option<Vec<Vec<u8>>>>::try_convert(&interp, value), Ok(v));

    let v = Some(vec![String::from("héllo"), String::new()]);
    let value = <Dynamic as Convert<Artichoke, Option<Vec<String>>>>::convert(&interp, v.clone());
    assert_eq!(<Option<Vec<String>>>::try_convert(&interp, value), Ok(v));

    let value = <Dynamic as Convert<Artichoke, Option<Vec<&str>>>>::convert(
        &interp,
        Some(vec!["a", "bc"]),
    );
    assert_eq!(
        value,
        Dynamic::Array(vec![
            Dynamic::String(b"a".to_vec()),
            Dynamic::String(b"bc".to_vec())
        ])
    );
}

#[test]
fn nilable_item_failure_is_passed_on() {
    let interp = Artichoke::new();
    let value = Dynamic::Array(vec![Dynamic::Fixnum(1), Dynamic::String(vec![b'x'])]);
    assert_eq!(
        <Option<Vec<Int>>>::try_convert(&interp, value),
        Err(Error {
            from: Ruby::String,
            to: Rust::SignedInt
        })
    );
}

#[test]
fn scalars_convert() {
    let interp = Artichoke::new();
    assert_eq!(bool::try_convert(&interp, Dynamic::Bool(true)), Ok(true));
    assert_eq!(
        bool::try_convert(&interp, Dynamic::Nil),
        Err(Error {
            from: Ruby::Nil,
            to: Rust::Bool
        })
    );
    assert_eq!(Int::try_convert(&interp, Dynamic::Fixnum(-9)), Ok(-9));
    assert_eq!(
        Int::try_convert(&interp, Dynamic::Float(Float::from_bits(0))),
        Err(Error {
            from: Ruby::Float,
            to: Rust::SignedInt
        })
    );
    assert_eq!(usize::try_convert(&interp, Dynamic::Fixnum(12)), Ok(12));
    assert_eq!(
        usize::try_convert(&interp, Dynamic::Fixnum(-1)),
        Err(Error {
            from: Ruby::Fixnum,
            to: Rust::UnsignedInt
        })
    );
    assert_eq!(
        usize::try_convert(&interp, Dynamic::Range),
        Err(Error {
            from: Ruby::Range,
            to: Rust::UnsignedInt
        })
    );
    assert_eq!(
        Float::try_convert(&interp, Dynamic::Float(Float::from_bits(42))),
        Ok(Float::from_bits(42))
    );
    assert_eq!(
        Float::try_convert(&interp, Dynamic::Fixnum(1)),
        Err(Error {
            from: Ruby::Fixnum,
            to: Rust::Float
        })
    );
}

#[test]
fn strings_convert() {
    let interp = Artichoke::new();
    let value = <Dynamic as Convert<Artichoke, &str>>::convert(&interp, "añb");
    assert_eq!(value, Dynamic::String("añb".as_bytes().to_vec()));
    assert_eq!(String::try_convert(&interp, value), Ok(String::from("añb")));
    let value = <Dynamic as Convert<Artichoke, String>>::convert(&interp, String::from("xyz"));
    assert_eq!(value, Dynamic::String(b"xyz".to_vec()));
    // bytes that are no UTF-8 are no host text
    assert_eq!(
        String::try_convert(&interp, Dynamic::String(vec![0xff, 0xfe])),
        Err(Error {
            from: Ruby::String,
            to: Rust::String
        })
    );
    assert_eq!(
        String::try_convert(&interp, Dynamic::Proc),
        Err(Error {
            from: Ruby::Proc,
            to: Rust::String
        })
    );
    assert_eq!(
        <Option<String>>::try_convert(&interp, Dynamic::Nil),
        Ok(None)
    );
    assert_eq!(
        <Option<String>>::try_convert(&interp, Dynamic::String(b"a".to_vec())),
        Ok(Some(String::from("a")))
    );
}

#[test]
fn kinds_are_told_without_converting() {
    assert!(is_int(&Dynamic::Fixnum(0)));
    assert!(!is_int(&Dynamic::Bool(true)));
    assert!(is_text(&Dynamic::String("añb".as_bytes().to_vec())));
    assert!(is_text(&Dynamic::String(vec![])));
    assert!(!is_text(&Dynamic::String(vec![0xed, 0xa0, 0x80])));
    assert!(!is_text(&Dynamic::Symbol));
}

#[test]
fn infallible_converter_is_fallible_converter() {
    let interp = Artichoke::new();
    let result = <Dynamic as TryConvert<Artichoke, bool>>::try_convert(&interp, true);
    assert_eq!(result, Ok(Dynamic::Bool(true)));
    let result = <Dynamic as TryConvert<Artichoke, Vec<u8>>>::try_convert(&interp, vec![1, 2]);
    assert_eq!(result, Ok(Dynamic::String(vec![1, 2])));
    let dropped = <() as TryConvert<Artichoke, Dynamic>>::try_convert(&interp, Dynamic::Fiber);
    assert_eq!(dropped, Ok(()));
}

#[test]
fn optional_value_is_nil_or_itself() {
    let interp = Artichoke::new();
    assert_eq!(
        <Dynamic as Convert<Artichoke, Option<Dynamic>>>::convert(&interp, None),
        Dynamic::Nil
    );
    assert_eq!(
        <Dynamic as Convert<Artichoke, Option<Dynamic>>>::convert(&interp, Some(Dynamic::Symbol)),
        Dynamic::Symbol
    );
    assert_eq!(
        <Option<Dynamic>>::try_convert(&interp, Dynamic::Nil),
        Ok(None)
    );
    assert_eq!(
        <Option<Dynamic>>::try_convert(&interp, Dynamic::Fixnum(1)),
        Ok(Some(Dynamic::Fixnum(1)))
    );
}

#[test]
fn tags_name_themselves() {
    assert_eq!(Rust::Bytes.name(), "rust &[u8]");
    assert_eq!(Rust::HashMap.name(), "rust HashMap");
    assert_eq!(Rust::UnsignedInt.name(), "rust usize");
    assert_eq!(Rust::Float.host_name(), "f64");
    assert_eq!(Ruby::Nil.class_name(), "NilClass");
    assert_eq!(Ruby::Bool.class_name(), "Boolean");
    assert_eq!(Ruby::Data.class_name(), "Rust-backed Ruby instance");
    assert_eq!(Ruby::SingletonClass.name(), "ruby Singleton (anonymous) class");
    assert_eq!(Ruby::Unreachable.class_name(), "internal and unreachable");
}

#[test]
fn values_know_their_kind() {
    assert_eq!(Dynamic::Array(vec![]).ruby_type(), Ruby::Array);
    assert_eq!(Dynamic::Nil.ruby_type(), Ruby::Nil);
    assert_eq!(Dynamic::Data.ruby_type(), Ruby::Data);
    assert!(Dynamic::Unreachable.is_unreachable());
    assert!(!Dynamic::Object.is_unreachable());
}
