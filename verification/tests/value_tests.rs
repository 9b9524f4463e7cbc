use crescent::vm::arith::{
    integer_op, shift, ArithOp, ArithTask, FloatAsk, FloatOp, Progress,
};
use crescent::vm::error::{Fault, TypeError};
use crescent::vm::lua_value::{bytes_less, parse_integer, Coerced, LuaValue};
use crescent::vm::number;
use std::cmp::Ordering;

fn num(x: f64) -> LuaValue {
    LuaValue::Number(x.to_bits())
}

fn text(s: &str) -> LuaValue {
    LuaValue::String(s.as_bytes().to_vec())
}

fn unit(ask: &FloatAsk) -> Option<u64> {
    match ask {
        FloatAsk::Parse(bytes) => {
            std::str::from_utf8(bytes).ok()?.parse::<f64>().ok().map(f64::to_bits)
        }
        FloatAsk::Apply(op, a, b) => {
            let a = f64::from_bits(*a);
            let b = f64::from_bits(*b);
            let r = match op {
                FloatOp::Add => a + b,
                FloatOp::Sub => a - b,
                FloatOp::Mul => a * b,
                FloatOp::Mod => a % b,
                FloatOp::Pow => a.powf(b),
                FloatOp::Div => a / b,
                FloatOp::IDiv => (a / b).floor(),
            };
            Some(r.to_bits())
        }
    }
}

fn finish(mut task: ArithTask) -> Result<LuaValue, Fault> {
    loop {
        match task.next() {
            Progress::Done(v) => return Ok(v),
            Progress::Fail(f) => return Err(f),
            Progress::Ask(ask) => {
                let reply = unit(&ask);
                task = task.supply(reply);
            }
        }
    }
}

fn arith(op: ArithOp, a: LuaValue, b: LuaValue) -> Result<LuaValue, Fault> {
    finish(ArithTask::new(op, a, b))
}

#[test]
fn test_number_compare_matches_hardware() {
    let samples = [
        0.0f64,
        -0.0,
        1.0,
        -1.0,
        0.5,
        370.5,
        -370.5,
        f64::MIN_POSITIVE,
        5e-324,
        -5e-324,
        f64::MAX,
        f64::MIN,
        f64::INFINITY,
        f64::NEG_INFINITY,
        f64::NAN,
        -f64::NAN,
        1e300,
        2.2,
        3.3,
    ];
    for a in samples {
        assert_eq!(number::is_nan(a.to_bits()), a.is_nan());
        assert_eq!(number::is_negative(a.to_bits()), a.is_sign_negative());
        assert_eq!(number::negate(a.to_bits()), (-a).to_bits());
        for b in samples {
            assert_eq!(number::equal(a.to_bits(), b.to_bits()), a == b, "{a} == {b}");
            assert_eq!(number::less(a.to_bits(), b.to_bits()), a < b, "{a} < {b}");
            assert_eq!(number::less_equal(a.to_bits(), b.to_bits()), a <= b, "{a} <= {b}");
        }
    }
}

#[test]
fn test_number_from_integer_matches_hardware() {
    let mut samples: Vec<i64> = vec![
        0,
        1,
        -1,
        2,
        3,
        255,
        65535,
        -65535,
        65536,
        i64::MAX,
        i64::MIN,
        i64::MAX - 1,
        i64::MIN + 1,
        (1 << 53) - 1,
        1 << 53,
        (1 << 53) + 1,
        (1 << 53) + 2,
        (1 << 53) + 3,
        (1 << 54) + 2,
        (1 << 54) + 6,
        -((1 << 53) + 1),
        -((1 << 53) + 3),
        0x7fff_ffff_ffff_fc00,
        0x7fff_ffff_ffff_fbff,
        0x7fff_ffff_ffff_fdff,
        0x7fff_ffff_ffff_fe00,
        0x4000_0000_0000_0200,
        0x4000_0000_0000_0600,
        0x4000_0000_0000_0201,
        1683,
    ];
    let mut x: u64 = 0x9E37_79B9_7F4A_7C15;
    for _ in 0..2000 {
        x ^= x << 13;
        x ^= x >> 7;
        x ^= x << 17;
        samples.push(x as i64);
        samples.push((x >> (x % 64)) as i64);
    }
    for i in samples {
        assert_eq!(number::from_integer(i), (i as f64).to_bits(), "{i}");
    }
}

#[test]
fn test_number_to_integer_matches_hardware() {
    let mut samples: Vec<f64> = vec![
        0.0,
        -0.0,
        0.4,
        0.5,
        -0.5,
        0.49999999999999994,
        1.5,
        2.5,
        -2.5,
        3.7,
        -3.7,
        1e10,
        4503599627370495.5,
        4503599627370496.0,
        9007199254740991.0,
        9007199254740993.0,
        9.223372036854775e18,
        9.223372036854776e18,
        -9.223372036854776e18,
        -9.223372036854778e18,
        1e300,
        -1e300,
        f64::INFINITY,
        f64::NEG_INFINITY,
        f64::NAN,
        5e-324,
        370.5,
    ];
    let mut x: u64 = 0x2545_F491_4F6C_DD1D;
    for _ in 0..4000 {
        x ^= x << 13;
        x ^= x >> 7;
        x ^= x << 17;
        samples.push(f64::from_bits(x));
        samples.push((x as i64) as f64 / 1024.0);
        samples.push((x % 100000) as f64 / 8.0);
    }
    for v in samples {
        assert_eq!(number::to_integer(v.to_bits()), v.round() as i64, "{v}");
    }
}

#[test]
fn test_integer_round_trip() {
    for i in [0i64, 1, -1, 1683, (1 << 53) - 1, 1 << 53, -(1 << 53), 4503599627370497] {
        assert_eq!(number::to_integer(number::from_integer(i)), i);
    }
    // beyond 53 bits the nearest number is another integer
    assert_eq!(number::to_integer(number::from_integer((1 << 53) + 1)), 1 << 53);
    assert_eq!(number::to_integer(number::from_integer(i64::MAX)), i64::MAX);
    assert_eq!(number::to_integer(number::from_integer(i64::MIN)), i64::MIN);
}

#[test]
fn test_parse_integer() {
    let cases: [(&str, Option<i64>); 16] = [
        ("0", Some(0)),
        ("123", Some(123)),
        ("-123", Some(-123)),
        ("+7", Some(7)),
        ("007", Some(7)),
        ("9223372036854775807", Some(i64::MAX)),
        ("9223372036854775808", None),
        ("-9223372036854775808", Some(i64::MIN)),
        ("-9223372036854775809", None),
        ("99999999999999999999", None),
        ("", None),
        ("-", None),
        ("+", None),
        ("12a", None),
        (" 1", None),
        ("1.5", None),
    ];
    for (s, expected) in cases {
        assert_eq!(parse_integer(&s.as_bytes().to_vec()), expected, "{s:?}");
        assert_eq!(s.parse::<i64>().ok(), expected, "{s:?}");
    }
}

#[test]
fn test_value_predicates_and_conversions() {
    assert!(LuaValue::Integer(1).is_number());
    assert!(num(1.0).is_number());
    assert!(!text("1").is_number());
    assert!(LuaValue::Integer(1).is_integer());
    assert!(!num(1.0).is_integer());
    assert!(text("a").is_string());
    assert!(!LuaValue::Nil.is_string());
    assert_eq!(LuaValue::nil(), LuaValue::Nil);
    assert_eq!(LuaValue::boolean(true), LuaValue::Boolean(true));
    assert_eq!(LuaValue::integer(3), LuaValue::Integer(3));
    assert_eq!(LuaValue::number(1.5f64.to_bits()), num(1.5));
    assert_eq!(LuaValue::string(b"x".to_vec()), text("x"));

    assert_eq!(LuaValue::Integer(5).to_integer_with(None), Some(5));
    assert_eq!(num(2.5).to_integer_with(None), Some(3));
    assert_eq!(num(-2.5).to_integer_with(None), Some(-3));
    assert_eq!(text("42").to_integer_with(None), Some(42));
    assert_eq!(text("4.6").to_integer_with(Some(4.6f64.to_bits())), Some(5));
    assert_eq!(text("x").to_integer_with(None), None);
    assert_eq!(LuaValue::Nil.to_integer_with(Some(0)), None);
    assert_eq!(LuaValue::Boolean(true).to_integer_with(None), None);
    assert!(matches!(text("4.6").to_integer(), Coerced::Unparsed));
    assert!(matches!(text("46").to_integer(), Coerced::Ready(46)));
    assert!(matches!(LuaValue::Nil.to_integer(), Coerced::Refused));

    assert_eq!(LuaValue::Integer(5).to_number_with(None), Some(5.0f64.to_bits()));
    assert_eq!(num(2.5).to_number_with(None), Some(2.5f64.to_bits()));
    assert_eq!(text("2.5").to_number_with(Some(2.5f64.to_bits())), Some(2.5f64.to_bits()));
    assert_eq!(text("z").to_number_with(None), None);
    assert_eq!(LuaValue::Nil.to_number_with(None), None);
    assert!(matches!(text("1").to_number(), Coerced::Unparsed));
    assert!(matches!(LuaValue::Boolean(false).to_number(), Coerced::Refused));
    assert_eq!(text("ab").to_bytes(), Some(b"ab".to_vec()));
    assert_eq!(LuaValue::Integer(1).to_bytes(), None);
}

#[test]
fn test_value_equality() {
    assert_eq!(LuaValue::Nil, LuaValue::Nil);
    assert_eq!(LuaValue::Boolean(true), LuaValue::Boolean(true));
    assert_ne!(LuaValue::Boolean(true), LuaValue::Boolean(false));
    assert_eq!(LuaValue::Integer(7), LuaValue::Integer(7));
    assert_eq!(num(1.5), num(1.5));
    assert_eq!(num(0.0), num(-0.0));
    assert_ne!(num(f64::NAN), num(f64::NAN));
    assert_eq!(text("abc"), text("abc"));
    assert_ne!(text("abc"), text("abd"));
    // an integer never equals a number
    assert_ne!(LuaValue::Integer(1), num(1.0));
    assert_ne!(LuaValue::Nil, LuaValue::Boolean(false));
    let v = text("copy");
    assert_eq!(v.clone(), v);
}

#[test]
fn test_value_ordering() {
    assert_eq!(LuaValue::Nil.partial_cmp(&LuaValue::Nil), Some(Ordering::Equal));
    assert_eq!(
        LuaValue::Boolean(false).partial_cmp(&LuaValue::Boolean(true)),
        Some(Ordering::Less)
    );
    assert_eq!(LuaValue::Integer(2).partial_cmp(&LuaValue::Integer(1)), Some(Ordering::Greater));
    assert_eq!(LuaValue::Integer(1).partial_cmp(&num(1.5)), Some(Ordering::Less));
    assert_eq!(num(1.5).partial_cmp(&LuaValue::Integer(1)), Some(Ordering::Greater));
    assert_eq!(LuaValue::Integer(1).partial_cmp(&num(1.0)), Some(Ordering::Equal));
    assert_eq!(num(1.0).partial_cmp(&num(f64::NAN)), None);
    assert_eq!(LuaValue::Integer(1).partial_cmp(&num(f64::NAN)), None);
    assert_eq!(text("a").partial_cmp(&text("b")), Some(Ordering::Less));
    assert_eq!(text("ab").partial_cmp(&text("a")), Some(Ordering::Greater));
    assert_eq!(text("").partial_cmp(&text("")), Some(Ordering::Equal));
    assert_eq!(LuaValue::Nil.partial_cmp(&LuaValue::Integer(0)), None);
    assert_eq!(text("1").partial_cmp(&LuaValue::Integer(1)), None);
    assert!(LuaValue::Integer(1) < LuaValue::Integer(2));
    assert!(text("Z") < text("a"));
    assert!(!(num(f64::NAN) <= num(f64::NAN)));
    assert!(LuaValue::Integer(3).less_equal(&num(3.0)));
    assert!(!LuaValue::Nil.less_than(&LuaValue::Nil));
    assert!(LuaValue::Nil.comparable_with(&LuaValue::Nil));
    for (a, b) in [("", "a"), ("a", "ab"), ("ab", "b"), ("a\u{ff}", "b"), ("b", "a"), ("a", "a")] {
        assert_eq!(bytes_less(&a.as_bytes().to_vec(), &b.as_bytes().to_vec()), a < b);
    }
}

#[test]
fn test_value_concat() {
    assert_eq!(text("str").concat(&text("ing")), Some(text("string")));
    assert_eq!(text("").concat(&text("")), Some(text("")));
    assert_eq!(text("a").concat(&LuaValue::Integer(1)), None);
    assert_eq!(LuaValue::Nil.concat(&text("a")), None);
}

#[test]
fn test_integer_operations() {
    assert_eq!(integer_op(ArithOp::Add, 1, 2), Some(3));
    assert_eq!(integer_op(ArithOp::Add, i64::MAX, 1), Some(i64::MIN));
    assert_eq!(integer_op(ArithOp::Sub, i64::MIN, 1), Some(i64::MAX));
    assert_eq!(integer_op(ArithOp::Mul, i64::MAX, 2), Some(-2));
    assert_eq!(integer_op(ArithOp::Mul, 1 << 32, 1 << 32), Some(0));
    assert_eq!(integer_op(ArithOp::Mod, 7, 3), Some(1));
    assert_eq!(integer_op(ArithOp::Mod, -7, 3), Some(-1));
    assert_eq!(integer_op(ArithOp::Mod, 7, -3), Some(1));
    assert_eq!(integer_op(ArithOp::Mod, i64::MIN, -1), Some(0));
    assert_eq!(integer_op(ArithOp::Mod, 7, 0), None);
    assert_eq!(integer_op(ArithOp::IDiv, 7, 2), Some(3));
    assert_eq!(integer_op(ArithOp::IDiv, -7, 2), Some(-3));
    assert_eq!(integer_op(ArithOp::IDiv, 7, -2), Some(-3));
    assert_eq!(integer_op(ArithOp::IDiv, i64::MIN, -1), Some(i64::MIN));
    assert_eq!(integer_op(ArithOp::IDiv, 1, 0), None);
    assert_eq!(integer_op(ArithOp::BAnd, 0b1100, 0b1010), Some(0b1000));
    assert_eq!(integer_op(ArithOp::BOr, 0b1100, 0b1010), Some(0b1110));
    assert_eq!(integer_op(ArithOp::BXor, 0b1100, 0b1010), Some(0b0110));
    assert_eq!(integer_op(ArithOp::BAnd, -1, 0x0f), Some(0x0f));
    assert_eq!(integer_op(ArithOp::Shl, 1, 4), Some(16));
    assert_eq!(integer_op(ArithOp::Shl, 1, 63), Some(i64::MIN));
    assert_eq!(integer_op(ArithOp::Shl, 1, 64), Some(0));
    assert_eq!(integer_op(ArithOp::Shl, 16, -4), Some(1));
    assert_eq!(integer_op(ArithOp::Shr, 16, 4), Some(1));
    assert_eq!(integer_op(ArithOp::Shr, -1, 60), Some(15));
    assert_eq!(integer_op(ArithOp::Shr, 1, -4), Some(16));
    assert_eq!(integer_op(ArithOp::Shr, 1, i64::MIN), Some(0));
    assert_eq!(integer_op(ArithOp::Shr, -1, 64), Some(0));
    assert_eq!(integer_op(ArithOp::Unm, 5, 0), Some(-5));
    assert_eq!(integer_op(ArithOp::Unm, i64::MIN, 0), Some(i64::MIN));
    assert_eq!(integer_op(ArithOp::BNot, 0, 0), Some(-1));
    assert_eq!(integer_op(ArithOp::Pow, 2, 3), None);
    assert_eq!(integer_op(ArithOp::Div, 2, 3), None);
    assert_eq!(shift(-1, 1), -2);
    assert_eq!(shift(-1, -1), i64::MAX);
    for (a, b) in [(-13i64, 4i64), (13, -4), (-13, -4), (13, 4), (i64::MAX, 7), (i64::MIN, 7)] {
        assert_eq!(integer_op(ArithOp::Mod, a, b), Some(a % b));
        assert_eq!(integer_op(ArithOp::IDiv, a, b), Some(a / b));
    }
}

#[test]
fn test_integer_closure() {
    for (a, b) in [(1i64, 2i64), (i64::MAX, i64::MAX), (i64::MIN, -1), (-5, 7)] {
        assert_eq!(
            arith(ArithOp::Add, LuaValue::Integer(a), LuaValue::Integer(b)),
            Ok(LuaValue::Integer(a.wrapping_add(b)))
        );
        assert_eq!(
            arith(ArithOp::Sub, LuaValue::Integer(a), LuaValue::Integer(b)),
            Ok(LuaValue::Integer(a.wrapping_sub(b)))
        );
        assert_eq!(
            arith(ArithOp::Mul, LuaValue::Integer(a), LuaValue::Integer(b)),
            Ok(LuaValue::Integer(a.wrapping_mul(b)))
        );
    }
}

#[test]
fn test_float_promotion() {
    assert_eq!(arith(ArithOp::Add, LuaValue::Integer(1), num(2.5)), Ok(num(3.5)));
    assert_eq!(arith(ArithOp::Sub, num(1.0), LuaValue::Integer(3)), Ok(num(-2.0)));
    assert_eq!(arith(ArithOp::Mul, num(1.5), num(2.0)), Ok(num(3.0)));
    assert_eq!(arith(ArithOp::Mod, num(7.5), LuaValue::Integer(2)), Ok(num(1.5)));
    assert_eq!(arith(ArithOp::Div, LuaValue::Integer(1), num(4.0)), Ok(num(0.25)));
    assert_eq!(arith(ArithOp::Div, LuaValue::Integer(7), LuaValue::Integer(2)), Ok(num(3.5)));
    assert_eq!(arith(ArithOp::IDiv, num(7.0), LuaValue::Integer(2)), Ok(num(3.0)));
    // the question goes out with both operands as numbers
    let task = ArithTask::new(ArithOp::Add, LuaValue::Integer(1), num(2.5));
    match task.next() {
        Progress::Ask(FloatAsk::Apply(op, a, b)) => {
            assert_eq!(op, FloatOp::Add);
            assert_eq!(a, 1.0f64.to_bits());
            assert_eq!(b, 2.5f64.to_bits());
        }
        other => panic!("no question: {:?}", other),
    }
}

#[test]
fn test_pow_is_always_float() {
    assert_eq!(arith(ArithOp::Pow, LuaValue::Integer(2), LuaValue::Integer(3)), Ok(num(8.0)));
    assert_eq!(arith(ArithOp::Pow, num(2.0), LuaValue::Integer(-1)), Ok(num(0.5)));
}

#[test]
fn test_arith_on_texts() {
    assert_eq!(arith(ArithOp::Add, text("1.5"), LuaValue::Integer(2)), Ok(num(3.5)));
    assert_eq!(arith(ArithOp::Add, text("10"), text("5")), Ok(num(15.0)));
    assert_eq!(arith(ArithOp::BAnd, text("7"), LuaValue::Integer(3)), Ok(LuaValue::Integer(3)));
    assert_eq!(arith(ArithOp::BOr, text("2.6"), text("4.4")), Ok(LuaValue::Integer(7)));
    assert_eq!(arith(ArithOp::BAnd, num(7.4), LuaValue::Integer(5)), Ok(LuaValue::Integer(5)));
    assert_eq!(
        arith(ArithOp::Add, text("one"), LuaValue::Integer(2)),
        Err(Fault::Type(TypeError::Arithmetic))
    );
    assert_eq!(
        arith(ArithOp::BXor, LuaValue::Integer(2), text("two")),
        Err(Fault::Type(TypeError::Arithmetic))
    );
    assert_eq!(
        arith(ArithOp::Add, LuaValue::Nil, LuaValue::Integer(2)),
        Err(Fault::Type(TypeError::Arithmetic))
    );
    assert_eq!(
        arith(ArithOp::Mul, LuaValue::Integer(2), LuaValue::Boolean(true)),
        Err(Fault::Type(TypeError::Arithmetic))
    );
    assert_eq!(
        arith(ArithOp::Mod, LuaValue::Integer(2), LuaValue::Integer(0)),
        Err(Fault::DivisionByZero)
    );
    assert_eq!(
        arith(ArithOp::IDiv, LuaValue::Integer(2), LuaValue::Integer(0)),
        Err(Fault::DivisionByZero)
    );
    // a text that is asked about is asked about as it stands
    let task = ArithTask::new(ArithOp::Sub, LuaValue::Integer(1), text("2.5"));
    match task.next() {
        Progress::Ask(FloatAsk::Parse(bytes)) => assert_eq!(bytes, b"2.5".to_vec()),
        other => panic!("no question: {:?}", other),
    }
}

#[test]
fn test_unary_operations() {
    assert_eq!(finish(ArithTask::unary(ArithOp::Unm, LuaValue::Integer(5))), Ok(LuaValue::Integer(-5)));
    assert_eq!(finish(ArithTask::unary(ArithOp::Unm, num(2.5))), Ok(num(-2.5)));
    assert_eq!(finish(ArithTask::unary(ArithOp::Unm, num(0.0))), Ok(num(-0.0)));
    assert_eq!(finish(ArithTask::unary(ArithOp::Unm, text("1.5"))), Ok(num(-1.5)));
    assert_eq!(finish(ArithTask::unary(ArithOp::BNot, LuaValue::Integer(0))), Ok(LuaValue::Integer(-1)));
    assert_eq!(finish(ArithTask::unary(ArithOp::BNot, num(1.0))), Ok(LuaValue::Integer(-2)));
    assert_eq!(
        finish(ArithTask::unary(ArithOp::Unm, LuaValue::Nil)),
        Err(Fault::Type(TypeError::Arithmetic))
    );
    assert!(ArithOp::Add.has_integer_form());
    assert!(!ArithOp::Pow.has_integer_form());
    assert!(ArithOp::Pow.has_number_form());
    assert!(!ArithOp::BAnd.has_number_form());
    assert_eq!(ArithOp::IDiv.to_float_op(), FloatOp::IDiv);
}
