use vstd::prelude::*;
use std::cmp::Ordering;
use super::number;

verus! {

/// One Lua value. A number is held as its IEEE-754 binary64 bit pattern, a string as
/// its bytes.
#[derive(Debug)]
pub enum LuaValue {
    Nil,
    Boolean(bool),
    Integer(i64),
    Number(u64),
    String(Vec<u8>),
}

/// What a `LuaValue` stands for: the same sum, with the bytes of a string as a sequence.
pub enum ValueModel {
    Nil,
    Boolean(bool),
    Integer(i64),
    Number(u64),
    String(Seq<u8>),
}

impl View for LuaValue {
    type V = ValueModel;

    open spec fn view(&self) -> ValueModel {
        match self {
            LuaValue::Nil => ValueModel::Nil,
            LuaValue::Boolean(b) => ValueModel::Boolean(*b),
            LuaValue::Integer(i) => ValueModel::Integer(*i),
            LuaValue::Number(n) => ValueModel::Number(*n),
            LuaValue::String(s) => ValueModel::String(s@),
        }
    }
}

/// `a` comes before `b` in the order of byte strings, looking from position `i` on:
/// the first byte that differs decides, and a proper prefix comes first.
pub open spec fn bytes_lt_from(a: Seq<u8>, b: Seq<u8>, i: int) -> bool
    decreases a.len() - i,
{
    if i < 0 || i >= b.len() {
        false
    } else if i >= a.len() {
        true
    } else if a[i] != b[i] {
        a[i] < b[i]
    } else {
        bytes_lt_from(a, b, i + 1)
    }
}

/// The lexicographic order of byte strings.
pub open spec fn bytes_lt(a: Seq<u8>, b: Seq<u8>) -> bool {
    bytes_lt_from(a, b, 0)
}

/// Equality of values: per variant, numbers by IEEE-754 (a NaN equals nothing, itself
/// included); an integer never equals a number.
pub open spec fn value_eq(a: ValueModel, b: ValueModel) -> bool {
    match (a, b) {
        (ValueModel::Nil, ValueModel::Nil) => true,
        (ValueModel::Boolean(x), ValueModel::Boolean(y)) => x == y,
        (ValueModel::Integer(x), ValueModel::Integer(y)) => x == y,
        (ValueModel::Number(x), ValueModel::Number(y)) => number::number_eq(x, y),
        (ValueModel::String(x), ValueModel::String(y)) => x == y,
        _ => false,
    }
}

/// The two values can be ordered: they are of one variant, or an integer and a number;
/// a NaN is ordered with nothing.
pub open spec fn comparable(a: ValueModel, b: ValueModel) -> bool {
    match (a, b) {
        (ValueModel::Nil, ValueModel::Nil) => true,
        (ValueModel::Boolean(_), ValueModel::Boolean(_)) => true,
        (ValueModel::Integer(_), ValueModel::Integer(_)) => true,
        (ValueModel::Integer(_), ValueModel::Number(y)) => !number::nan(y),
        (ValueModel::Number(x), ValueModel::Integer(_)) => !number::nan(x),
        (ValueModel::Number(x), ValueModel::Number(y)) => !number::nan(x) && !number::nan(y),
        (ValueModel::String(_), ValueModel::String(_)) => true,
        _ => false,
    }
}

/// `a` is strictly before `b`: `false < true`, integers and numbers by value (an integer
/// beside a number is widened first), strings by their bytes. False where the two cannot
/// be ordered.
pub open spec fn value_lt(a: ValueModel, b: ValueModel) -> bool {
    match (a, b) {
        (ValueModel::Boolean(x), ValueModel::Boolean(y)) => !x && y,
        (ValueModel::Integer(x), ValueModel::Integer(y)) => x < y,
        (ValueModel::Integer(x), ValueModel::Number(y)) => number::number_lt(
            number::number_of_integer(x),
            y,
        ),
        (ValueModel::Number(x), ValueModel::Integer(y)) => number::number_lt(
            x,
            number::number_of_integer(y),
        ),
        (ValueModel::Number(x), ValueModel::Number(y)) => number::number_lt(x, y),
        (ValueModel::String(x), ValueModel::String(y)) => bytes_lt(x, y),
        _ => false,
    }
}

/// `a` is before `b` or beside it. False where the two cannot be ordered.
pub open spec fn value_le(a: ValueModel, b: ValueModel) -> bool {
    comparable(a, b) && !value_lt(b, a)
}

/// The three-way order of two values, `None` where they cannot be ordered.
pub open spec fn value_order(a: ValueModel, b: ValueModel) -> Option<Ordering> {
    if !comparable(a, b) {
        None
    } else if value_lt(a, b) {
        Some(Ordering::Less)
    } else if value_lt(b, a) {
        Some(Ordering::Greater)
    } else {
        Some(Ordering::Equal)
    }
}

/// The byte is a decimal digit.
pub open spec fn digit_byte(b: u8) -> bool {
    48 <= b <= 57
}

/// Every byte is a decimal digit.
pub open spec fn all_digits(s: Seq<u8>) -> bool {
    forall|i: int| 0 <= i < s.len() ==> digit_byte(#[trigger] s[i])
}

/// The number that a string of decimal digits writes.
pub open spec fn digits_value(s: Seq<u8>) -> int
    decreases s.len(),
{
    if s.len() == 0 {
        0
    } else {
        digits_value(s.drop_last()) * 10 + (s.last() - 48)
    }
}

/// The digits of a numeral: the text without its sign.
pub open spec fn numeral_digits(s: Seq<u8>) -> Seq<u8> {
    if s.len() > 0 && (s[0] == 45 || s[0] == 43) {
        s.skip(1)
    } else {
        s
    }
}

/// The integer that a text writes: an optional `+` or `-`, then one or more decimal
/// digits and nothing else, with a value that fits in 64 bits. `None` for any other text.
pub open spec fn integer_of_text(s: Seq<u8>) -> Option<i64> {
    let digits = numeral_digits(s);
    let v = if s.len() > 0 && s[0] == 45 {
        -digits_value(digits)
    } else {
        digits_value(digits)
    };
    if digits.len() > 0 && all_digits(digits) && i64::MIN <= v <= i64::MAX {
        Some(v as i64)
    } else {
        None
    }
}

/// To-integer, given what the float parser made of the text (`parsed`, read only for a
/// string that writes no integer): an integer is itself, a number is rounded, a string
/// is read as an integer or else as a number that is then rounded; nothing else converts.
pub open spec fn integer_of_value(v: ValueModel, parsed: Option<u64>) -> Option<i64> {
    match v {
        ValueModel::Integer(i) => Some(i),
        ValueModel::Number(n) => Some(number::integer_of_number(n)),
        ValueModel::String(s) => match integer_of_text(s) {
            Some(i) => Some(i),
            None => match parsed {
                Some(n) => Some(number::integer_of_number(n)),
                None => None,
            },
        },
        _ => None,
    }
}

/// To-number, given what the float parser made of the text (`parsed`, read only for a
/// string): an integer is widened, a number is itself, a string is what the parser
/// read; nothing else converts.
pub open spec fn number_of_value(v: ValueModel, parsed: Option<u64>) -> Option<u64> {
    match v {
        ValueModel::Integer(i) => Some(number::number_of_integer(i)),
        ValueModel::Number(n) => Some(n),
        ValueModel::String(_) => parsed,
        _ => None,
    }
}

/// The concatenation of two values: defined on two strings only.
pub open spec fn value_concat(a: ValueModel, b: ValueModel) -> Option<ValueModel> {
    match (a, b) {
        (ValueModel::String(x), ValueModel::String(y)) => Some(ValueModel::String(x + y)),
        _ => None,
    }
}

/// A copy of a byte vector.
pub fn copy_bytes(s: &Vec<u8>) -> (r: Vec<u8>)
    ensures
        r@ == s@,
{
    let mut r: Vec<u8> = Vec::new();
    let mut i: usize = 0;
    while i < s.len()
        invariant
            i <= s.len(),
            r@ == s@.take(i as int),
        decreases s.len() - i,
    {
        r.push(s[i]);
        i = i + 1;
        assert(s@.take(i as int) == s@.take(i - 1).push(s@[i - 1]));
    }
    assert(s@.take(s.len() as int) == s@);
    r
}

/// Whether two byte vectors hold the same bytes.
pub fn bytes_equal(a: &Vec<u8>, b: &Vec<u8>) -> (r: bool)
    ensures
        r == (a@ == b@),
{
    if a.len() != b.len() {
        return false;
    }
    let mut i: usize = 0;
    while i < a.len()
        invariant
            i <= a.len(),
            a.len() == b.len(),
            a@.take(i as int) == b@.take(i as int),
        decreases a.len() - i,
    {
        if a[i] != b[i] {
            return false;
        }
        i = i + 1;
        assert(a@.take(i as int) == a@.take(i - 1).push(a@[i - 1]));
        assert(b@.take(i as int) == b@.take(i - 1).push(b@[i - 1]));
    }
    assert(a@.take(a.len() as int) == a@);
    assert(b@.take(b.len() as int) == b@);
    true
}

/// Whether `a` comes before `b` in the lexicographic order of byte strings.
pub fn bytes_less(a: &Vec<u8>, b: &Vec<u8>) -> (r: bool)
    ensures
        r == bytes_lt(a@, b@),
{
    let mut i: usize = 0;
    loop
        invariant
            i <= a.len(),
            i <= b.len(),
            bytes_lt(a@, b@) == bytes_lt_from(a@, b@, i as int),
        decreases a.len() - i,
    {
        if i >= b.len() {
            return false;
        }
        if i >= a.len() {
            return true;
        }
        if a[i] != b[i] {
            return a[i] < b[i];
        }
        i = i + 1;
    }
}

/// The value of a digit string never shrinks when digits are added at its end.
pub proof fn lemma_digits_value_grows(s: Seq<u8>, i: int)
    requires
        0 <= i <= s.len(),
        all_digits(s),
    ensures
        0 <= digits_value(s.take(i)) <= digits_value(s),
    decreases s.len() - i,
{
    if i < s.len() {
        lemma_digits_value_grows(s, i + 1);
        assert(s.take(i + 1).drop_last() == s.take(i));
        lemma_digits_value_nonnegative(s.take(i));
    } else {
        assert(s.take(i) == s);
        lemma_digits_value_nonnegative(s);
    }
}

/// A digit string writes no negative number.
pub proof fn lemma_digits_value_nonnegative(s: Seq<u8>)
    requires
        all_digits(s),
    ensures
        0 <= digits_value(s),
    decreases s.len(),
{
    if s.len() > 0 {
        lemma_digits_value_nonnegative(s.drop_last());
    }
}

/// Reads a text as a decimal integer: an optional sign, then digits only.
pub fn parse_integer(s: &Vec<u8>) -> (r: Option<i64>)
    ensures
        r == integer_of_text(s@),
{
    if s.len() == 0 {
        return None;
    }
    let minus = s[0] == 45;
    let start: usize = if s[0] == 45 || s[0] == 43 {
        1
    } else {
        0
    };
    let ghost digits = numeral_digits(s@);
    assert(digits == s@.skip(start as int));
    if start >= s.len() {
        return None;
    }
    // The value is gathered below zero, where the range has room for one more.
    let mut acc: i64 = 0;
    let mut i: usize = start;
    while i < s.len()
        invariant
            start <= i <= s.len(),
            s.len() > 0,
            minus == (s@[0] == 45),
            digits == numeral_digits(s@),
            digits == s@.skip(start as int),
            all_digits(digits.take(i - start)),
            acc == -digits_value(digits.take(i - start)),
            acc <= 0,
        decreases s.len() - i,
    {
        let c = s[i];
        assert(digits[i - start] == c);
        assert(digits.take(i - start + 1).drop_last() == digits.take(i - start));
        if c < 48 || c > 57 {
            return None;
        }
        assert(all_digits(digits.take(i - start + 1))) by {
            assert forall|j: int| 0 <= j < i - start + 1 implies digit_byte(
                #[trigger] digits.take(i - start + 1)[j],
            ) by {
                if j < i - start {
                    assert(digits.take(i - start)[j] == digits[j]);
                }
            }
        }
        let d: i64 = (c - 48) as i64;
        let ghost next = digits_value(digits.take(i - start + 1));
        assert(next == -acc * 10 + d);
        if acc < -922337203685477580 || (acc == -922337203685477580 && d > 8) {
            proof {
                // the prefix is already out of range, and so is every longer numeral
                assert(next > 0x8000_0000_0000_0000);
                if all_digits(digits) {
                    lemma_digits_value_grows(digits, i - start + 1);
                }
            }
            return None;
        }
        acc = acc * 10 - d;
        i = i + 1;
    }
    assert(digits.take(i - start) == digits);
    if minus {
        Some(acc)
    } else if acc == i64::MIN {
        None
    } else {
        Some(-acc)
    }
}

/// What a conversion found: the converted value, a text that only the float parser can
/// read, or a value that does not convert.
#[derive(Debug)]
pub enum Coerced<T> {
    Ready(T),
    Unparsed,
    Refused,
}

impl LuaValue {
    pub fn nil() -> (r: LuaValue)
        ensures
            r@ == ValueModel::Nil,
    {
        LuaValue::Nil
    }

    pub fn boolean(b: bool) -> (r: LuaValue)
        ensures
            r@ == ValueModel::Boolean(b),
    {
        LuaValue::Boolean(b)
    }

    pub fn integer(i: i64) -> (r: LuaValue)
        ensures
            r@ == ValueModel::Integer(i),
    {
        LuaValue::Integer(i)
    }

    /// A number from its bit pattern.
    pub fn number(bits: u64) -> (r: LuaValue)
        ensures
            r@ == ValueModel::Number(bits),
    {
        LuaValue::Number(bits)
    }

    /// A string from its bytes.
    pub fn string(bytes: Vec<u8>) -> (r: LuaValue)
        ensures
            r@ == ValueModel::String(bytes@),
    {
        LuaValue::String(bytes)
    }

    /// The value is an integer, or a number.
    pub fn is_number(&self) -> (r: bool)
        ensures
            r == (self@ is Integer || self@ is Number),
    {
        match self {
            LuaValue::Integer(_) => true,
            LuaValue::Number(_) => true,
            _ => false,
        }
    }

    pub fn is_integer(&self) -> (r: bool)
        ensures
            r == (self@ is Integer),
    {
        match self {
            LuaValue::Integer(_) => true,
            _ => false,
        }
    }

    pub fn is_string(&self) -> (r: bool)
        ensures
            r == (self@ is String),
    {
        match self {
            LuaValue::String(_) => true,
            _ => false,
        }
    }

    /// To-integer as far as it goes without a float parser: `Unparsed` for a string that
    /// writes no integer, `Refused` for nil and booleans.
    pub fn to_integer(&self) -> (r: Coerced<i64>)
        ensures
            match r {
                Coerced::Ready(i) => integer_of_value(self@, None) == Some(i),
                Coerced::Unparsed => self@ is String && integer_of_text(self@->String_0) is None,
                Coerced::Refused => self@ is Nil || self@ is Boolean,
            },
    {
        match self {
            LuaValue::Integer(i) => Coerced::Ready(*i),
            LuaValue::Number(n) => Coerced::Ready(number::to_integer(*n)),
            LuaValue::String(s) => match parse_integer(s) {
                Some(i) => Coerced::Ready(i),
                None => Coerced::Unparsed,
            },
            _ => Coerced::Refused,
        }
    }

    /// To-number as far as it goes without a float parser: `Unparsed` for every string,
    /// `Refused` for nil and booleans.
    pub fn to_number(&self) -> (r: Coerced<u64>)
        ensures
            match r {
                Coerced::Ready(n) => !(self@ is String) && number_of_value(self@, None) == Some(n),
                Coerced::Unparsed => self@ is String,
                Coerced::Refused => self@ is Nil || self@ is Boolean,
            },
    {
        match self {
            LuaValue::Integer(i) => Coerced::Ready(number::from_integer(*i)),
            LuaValue::Number(n) => Coerced::Ready(*n),
            LuaValue::String(_) => Coerced::Unparsed,
            _ => Coerced::Refused,
        }
    }

    /// To-integer with the float parser's reading of the text at hand.
    pub fn to_integer_with(&self, parsed: Option<u64>) -> (r: Option<i64>)
        ensures
            r == integer_of_value(self@, parsed),
    {
        match self.to_integer() {
            Coerced::Ready(i) => Some(i),
            Coerced::Unparsed => match parsed {
                Some(n) => Some(number::to_integer(n)),
                None => None,
            },
            Coerced::Refused => None,
        }
    }

    /// To-number with the float parser's reading of the text at hand.
    pub fn to_number_with(&self, parsed: Option<u64>) -> (r: Option<u64>)
        ensures
            r == number_of_value(self@, parsed),
    {
        match self.to_number() {
            Coerced::Ready(n) => Some(n),
            Coerced::Unparsed => parsed,
            Coerced::Refused => None,
        }
    }

    /// The bytes of a string value.
    pub fn to_bytes(&self) -> (r: Option<Vec<u8>>)
        ensures
            match r {
                Some(bytes) => self@ == ValueModel::String(bytes@),
                None => !(self@ is String),
            },
    {
        match self {
            LuaValue::String(s) => Some(copy_bytes(s)),
            _ => None,
        }
    }

    /// Concatenation, for two strings; `None` for any other pair.
    pub fn concat(&self, other: &LuaValue) -> (r: Option<LuaValue>)
        ensures
            match r {
                Some(v) => value_concat(self@, other@) == Some(v@),
                None => value_concat(self@, other@) is None,
            },
    {
        match (self, other) {
            (LuaValue::String(a), LuaValue::String(b)) => {
                let mut joined = copy_bytes(a);
                let mut i: usize = 0;
                while i < b.len()
                    invariant
                        i <= b.len(),
                        joined@ == a@ + b@.take(i as int),
                    decreases b.len() - i,
                {
                    joined.push(b[i]);
                    i = i + 1;
                    assert(b@.take(i as int) == b@.take(i - 1).push(b@[i - 1]));
                }
                assert(b@.take(b.len() as int) == b@);
                Some(LuaValue::String(joined))
            },
            _ => None,
        }
    }

    /// Whether the two values can be ordered.
    pub fn comparable_with(&self, other: &LuaValue) -> (r: bool)
        ensures
            r == comparable(self@, other@),
    {
        match (self, other) {
            (LuaValue::Nil, LuaValue::Nil) => true,
            (LuaValue::Boolean(_), LuaValue::Boolean(_)) => true,
            (LuaValue::Integer(_), LuaValue::Integer(_)) => true,
            (LuaValue::Integer(_), LuaValue::Number(y)) => !number::is_nan(*y),
            (LuaValue::Number(x), LuaValue::Integer(_)) => !number::is_nan(*x),
            (LuaValue::Number(x), LuaValue::Number(y)) => !number::is_nan(*x) && !number::is_nan(
                *y,
            ),
            (LuaValue::String(_), LuaValue::String(_)) => true,
            _ => false,
        }
    }

    /// Equality of values.
    pub fn equals(&self, other: &LuaValue) -> (r: bool)
        ensures
            r == value_eq(self@, other@),
    {
        match (self, other) {
            (LuaValue::Nil, LuaValue::Nil) => true,
            (LuaValue::Boolean(x), LuaValue::Boolean(y)) => *x == *y,
            (LuaValue::Integer(x), LuaValue::Integer(y)) => *x == *y,
            (LuaValue::Number(x), LuaValue::Number(y)) => number::equal(*x, *y),
            (LuaValue::String(x), LuaValue::String(y)) => bytes_equal(x, y),
            _ => false,
        }
    }

    /// Whether this value is strictly before the other.
    pub fn less_than(&self, other: &LuaValue) -> (r: bool)
        ensures
            r == value_lt(self@, other@),
    {
        match (self, other) {
            (LuaValue::Boolean(x), LuaValue::Boolean(y)) => !*x && *y,
            (LuaValue::Integer(x), LuaValue::Integer(y)) => *x < *y,
            (LuaValue::Integer(x), LuaValue::Number(y)) => number::less(
                number::from_integer(*x),
                *y,
            ),
            (LuaValue::Number(x), LuaValue::Integer(y)) => number::less(
                *x,
                number::from_integer(*y),
            ),
            (LuaValue::Number(x), LuaValue::Number(y)) => number::less(*x, *y),
            (LuaValue::String(x), LuaValue::String(y)) => bytes_less(x, y),
            _ => false,
        }
    }

    /// Whether this value is before the other or beside it.
    pub fn less_equal(&self, other: &LuaValue) -> (r: bool)
        ensures
            r == value_le(self@, other@),
    {
        self.comparable_with(other) && !other.less_than(self)
    }
}

impl Clone for LuaValue {
    fn clone(&self) -> (r: LuaValue)
        ensures
            r@ == self@,
    {
        match self {
            LuaValue::Nil => LuaValue::Nil,
            LuaValue::Boolean(b) => LuaValue::Boolean(*b),
            LuaValue::Integer(i) => LuaValue::Integer(*i),
            LuaValue::Number(n) => LuaValue::Number(*n),
            LuaValue::String(s) => LuaValue::String(copy_bytes(s)),
        }
    }
}

impl PartialEq for LuaValue {
    fn eq(&self, other: &LuaValue) -> (r: bool) {
        self.equals(other)
    }
}

impl vstd::std_specs::cmp::PartialEqSpecImpl for LuaValue {
    open spec fn obeys_eq_spec() -> bool {
        true
    }

    open spec fn eq_spec(&self, other: &LuaValue) -> bool {
        value_eq(self@, other@)
    }
}

impl PartialOrd for LuaValue {
    fn partial_cmp(&self, other: &LuaValue) -> (r: Option<Ordering>) {
        if !self.comparable_with(other) {
            None
        } else if self.less_than(other) {
            Some(Ordering::Less)
        } else if other.less_than(self) {
            Some(Ordering::Greater)
        } else {
            Some(Ordering::Equal)
        }
    }
}

impl vstd::std_specs::cmp::PartialOrdSpecImpl for LuaValue {
    open spec fn obeys_partial_cmp_spec() -> bool {
        true
    }

    open spec fn partial_cmp_spec(&self, other: &LuaValue) -> Option<Ordering> {
        value_order(self@, other@)
    }
}

} // verus!
