use vstd::prelude::*;
use vstd::string::*;

verus! {

/// The character of one decimal digit.
pub open spec fn spec_digit(value: nat) -> char
    recommends
        value < 10,
{
    if value == 0 {
        '0'
    } else if value == 1 {
        '1'
    } else if value == 2 {
        '2'
    } else if value == 3 {
        '3'
    } else if value == 4 {
        '4'
    } else if value == 5 {
        '5'
    } else if value == 6 {
        '6'
    } else if value == 7 {
        '7'
    } else if value == 8 {
        '8'
    } else {
        '9'
    }
}

/// A number in decimal, without sign and without leading zeros.
pub open spec fn spec_decimal(value: nat) -> Seq<char>
    decreases value,
{
    if value < 10 {
        seq![spec_digit(value)]
    } else {
        spec_decimal(value / 10).push(spec_digit(value % 10))
    }
}

/// The name under which the graph knows presentation image `index`.
pub open spec fn spec_backbuffer_name(index: nat) -> Seq<char> {
    "backbuffer_"@ + spec_decimal(index)
}

/// A name is reserved for presentation images if it is the name of
/// one: `backbuffer_` and an index in decimal.
pub open spec fn spec_is_backbuffer_name(name: Seq<char>) -> bool {
    exists|index: nat| name == #[trigger] spec_backbuffer_name(index)
}

/// The number that a decimal digit stands for, and 0 for any other
/// character.
pub open spec fn spec_digit_value(digit: char) -> nat {
    if digit == '1' {
        1
    } else if digit == '2' {
        2
    } else if digit == '3' {
        3
    } else if digit == '4' {
        4
    } else if digit == '5' {
        5
    } else if digit == '6' {
        6
    } else if digit == '7' {
        7
    } else if digit == '8' {
        8
    } else if digit == '9' {
        9
    } else {
        0
    }
}

/// Whether a character is a decimal digit.
pub open spec fn spec_is_digit(digit: char) -> bool {
    digit == spec_digit(spec_digit_value(digit))
}

/// Whether characters are a number in decimal as `spec_decimal` writes
/// it: digits only, at least one, and no zero in front of another digit.
pub open spec fn spec_is_decimal(digits: Seq<char>) -> bool {
    &&& digits.len() >= 1
    &&& forall|at: int| 0 <= at < digits.len() ==> spec_is_digit(#[trigger] digits[at])
    &&& digits.len() > 1 ==> digits[0] != '0'
}

/// The number that digits stand for.
pub open spec fn spec_decimal_value(digits: Seq<char>) -> nat
    decreases digits.len(),
{
    if digits.len() == 0 {
        0
    } else {
        10 * spec_decimal_value(digits.drop_last()) + spec_digit_value(digits.last())
    }
}

/// Whether some entry of `names` is `name`.
pub open spec fn spec_declared(names: Seq<Seq<char>>, name: Seq<char>) -> bool {
    exists|at: int| 0 <= at < names.len() && #[trigger] names[at] == name
}

/// Whether entry `index` of `names` is the first that is `name`.
pub open spec fn spec_is_first(names: Seq<Seq<char>>, name: Seq<char>, index: int) -> bool {
    &&& 0 <= index < names.len()
    &&& names[index] == name
    &&& forall|at: int| 0 <= at < index ==> #[trigger] names[at] != name
}

/// The views of a list of strings.
pub open spec fn spec_views(names: Seq<String>) -> Seq<Seq<char>> {
    Seq::new(names.len(), |at: int| names[at]@)
}

proof fn lemma_decimal_nonempty(value: nat)
    ensures
        spec_decimal(value).len() >= 1,
        value >= 10 ==> spec_decimal(value).len() >= 2,
    decreases value,
{
    if value >= 10 {
        lemma_decimal_nonempty(value / 10);
    }
}

/// Different numbers have different decimals.
pub proof fn lemma_decimal_injective(first: nat, second: nat)
    requires
        spec_decimal(first) == spec_decimal(second),
    ensures
        first == second,
    decreases first,
{
    lemma_decimal_nonempty(first);
    lemma_decimal_nonempty(second);
    if first < 10 && second < 10 {
        assert(spec_decimal(first)[0] == spec_digit(first));
        assert(spec_decimal(second)[0] == spec_digit(second));
    } else if first >= 10 && second >= 10 {
        let left = spec_decimal(first / 10);
        let right = spec_decimal(second / 10);
        assert(spec_decimal(first).last() == spec_digit(first % 10));
        assert(spec_decimal(second).last() == spec_digit(second % 10));
        assert(first % 10 == second % 10);
        assert(left =~= spec_decimal(first).drop_last());
        assert(right =~= spec_decimal(second).drop_last());
        lemma_decimal_injective(first / 10, second / 10);
        assert(first == 10 * (first / 10) + first % 10);
        assert(second == 10 * (second / 10) + second % 10);
    } else {
        assert(spec_decimal(first).len() != spec_decimal(second).len());
    }
}

proof fn lemma_decimal_is_decimal(value: nat)
    ensures
        spec_is_decimal(spec_decimal(value)),
        value >= 1 ==> spec_decimal(value)[0] != '0',
    decreases value,
{
    if value >= 10 {
        lemma_decimal_is_decimal(value / 10);
        let front = spec_decimal(value / 10);
        let digits = spec_decimal(value);
        assert(digits[0] == front[0]);
        assert forall|at: int| 0 <= at < digits.len() implies spec_is_digit(
            #[trigger] digits[at],
        ) by {
            if at < front.len() {
                assert(digits[at] == front[at]);
            }
        }
    }
}

proof fn lemma_decimal_value_positive(digits: Seq<char>)
    requires
        digits.len() >= 1,
        spec_is_digit(digits[0]),
        digits[0] != '0',
    ensures
        spec_decimal_value(digits) >= 1,
    decreases digits.len(),
{
    if digits.len() > 1 {
        assert(digits.drop_last()[0] == digits[0]);
        lemma_decimal_value_positive(digits.drop_last());
    } else {
        assert(digits.drop_last().len() == 0);
    }
}

/// Decimal digits are the decimal of the number that they stand for.
proof fn lemma_decimal_of_value(digits: Seq<char>)
    requires
        spec_is_decimal(digits),
    ensures
        spec_decimal(spec_decimal_value(digits)) == digits,
    decreases digits.len(),
{
    let front = digits.drop_last();
    let last = digits.last();
    assert(spec_is_digit(last));
    if digits.len() == 1 {
        assert(front.len() == 0);
        assert(spec_decimal_value(front) == 0);
        assert(spec_decimal_value(digits) == spec_digit_value(last));
        assert(digits[0] == last);
        assert(spec_decimal(spec_decimal_value(digits)) =~= digits);
    } else {
        assert(front[0] == digits[0]);
        assert forall|at: int| 0 <= at < front.len() implies spec_is_digit(#[trigger] front[at]) by {
            assert(front[at] == digits[at]);
        }
        lemma_decimal_of_value(front);
        lemma_decimal_value_positive(front);
        let value = spec_decimal_value(digits);
        assert(value / 10 == spec_decimal_value(front));
        assert(value % 10 == spec_digit_value(last));
        assert(spec_decimal(value) =~= digits);
    }
}

/// A name is reserved exactly if it is `backbuffer_` followed by a
/// number in decimal.
pub proof fn lemma_backbuffer_name_form(name: Seq<char>)
    ensures
        "backbuffer_"@.len() == 11,
        spec_is_backbuffer_name(name) <==> name.len() >= 12 && name.subrange(0, 11)
            == "backbuffer_"@ && spec_is_decimal(name.subrange(11, name.len() as int)),
{
    reveal_strlit("backbuffer_");
    let prefix = "backbuffer_"@;
    if spec_is_backbuffer_name(name) {
        let index = choose|index: nat| name == #[trigger] spec_backbuffer_name(index);
        lemma_decimal_is_decimal(index);
        assert(name.subrange(0, 11) =~= prefix);
        assert(name.subrange(11, name.len() as int) =~= spec_decimal(index));
    }
    if name.len() >= 12 && name.subrange(0, 11) == prefix && spec_is_decimal(
        name.subrange(11, name.len() as int),
    ) {
        let digits = name.subrange(11, name.len() as int);
        lemma_decimal_of_value(digits);
        assert(name =~= spec_backbuffer_name(spec_decimal_value(digits)));
    }
}

/// Presentation images of different indices never share a name, and
/// every such name is reserved.
pub proof fn lemma_backbuffer_names_distinct(first: nat, second: nat)
    ensures
        spec_is_backbuffer_name(spec_backbuffer_name(first)),
        spec_backbuffer_name(first) == spec_backbuffer_name(second) ==> first == second,
{
    let prefix = "backbuffer_"@;
    if spec_backbuffer_name(first) == spec_backbuffer_name(second) {
        let name = spec_backbuffer_name(first);
        assert(name.subrange(prefix.len() as int, name.len() as int) =~= spec_decimal(first));
        assert(name.subrange(prefix.len() as int, name.len() as int) =~= spec_decimal(second));
        lemma_decimal_injective(first, second);
    }
}

/// Calls `ToString::to_string` on a `usize`, which std documents to
/// write the number in decimal.
#[verifier::external_body]
fn decimal_string(value: usize) -> (digits: String)
    ensures
        digits@ == spec_decimal(value as nat),
{
    value.to_string()
}

/// The name of presentation image `index`: `backbuffer_` and the index
/// in decimal.
pub fn backbuffer_name(index: usize) -> (name: String)
    ensures
        name@ == spec_backbuffer_name(index as nat),
        spec_is_backbuffer_name(name@),
{
    let digits = decimal_string(index);
    proof {
        lemma_backbuffer_names_distinct(index as nat, index as nat);
    }
    String::from_str("backbuffer_").concat(digits.as_str())
}

fn is_digit(digit: char) -> (decimal: bool)
    ensures
        decimal == spec_is_digit(digit),
{
    digit == '0' || digit == '1' || digit == '2' || digit == '3' || digit == '4' || digit == '5'
        || digit == '6' || digit == '7' || digit == '8' || digit == '9'
}

/// Whether `name` is reserved for a presentation image.
pub fn is_backbuffer_name(name: &str) -> (reserved: bool)
    ensures
        reserved == spec_is_backbuffer_name(name@),
{
    let prefix = "backbuffer_";
    proof {
        reveal_strlit("backbuffer_");
        lemma_backbuffer_name_form(name@);
    }
    let len: usize = name.unicode_len();
    if len < 12 {
        return false;
    }
    let ghost digits = name@.subrange(11, len as int);
    let mut at: usize = 0;
    while at < 11
        invariant
            at <= 11,
            prefix@ == "backbuffer_"@,
            prefix@.len() == 11,
            name@.len() >= 12,
            name@.subrange(0, at as int) == prefix@.subrange(0, at as int),
        decreases 11 - at,
    {
        if name.get_char(at) != prefix.get_char(at) {
            proof {
                assert(name@.subrange(0, 11)[at as int] != prefix@[at as int]);
                lemma_backbuffer_name_form(name@);
            }
            return false;
        }
        proof {
            assert(name@.subrange(0, at + 1) =~= name@.subrange(0, at as int).push(
                name@[at as int],
            ));
            assert(prefix@.subrange(0, at + 1) =~= prefix@.subrange(0, at as int).push(
                prefix@[at as int],
            ));
        }
        at = at + 1;
    }
    assert(prefix@.subrange(0, 11) =~= prefix@);
    if len > 12 && name.get_char(11) == '0' {
        assert(digits.len() == len - 11);
        assert(digits[0] == name@[11]);
        return false;
    }
    let mut at: usize = 11;
    while at < len
        invariant
            11 <= at <= len,
            len == name@.len(),
            digits == name@.subrange(11, len as int),
            forall|before: int| 0 <= before < at - 11 ==> spec_is_digit(#[trigger] digits[before]),
        decreases len - at,
    {
        if !is_digit(name.get_char(at)) {
            proof {
                assert(digits[at - 11] == name@[at as int]);
                lemma_backbuffer_name_form(name@);
            }
            return false;
        }
        assert(digits[at - 11] == name@[at as int]);
        at = at + 1;
    }
    assert(digits.len() == len - 11);
    assert(digits[0] == name@[11]);
    true
}

/// The first index at which `names` holds `name`.
pub fn find_name(names: &Vec<String>, name: &str) -> (found: Option<usize>)
    ensures
        match found {
            Some(index) => spec_is_first(spec_views(names@), name@, index as int),
            None => !spec_declared(spec_views(names@), name@),
        },
{
    let wanted = String::from_str(name);
    let mut at: usize = 0;
    while at < names.len()
        invariant
            at <= names@.len(),
            wanted@ == name@,
            forall|before: int| 0 <= before < at ==> #[trigger] spec_views(names@)[before] != name@,
        decreases names@.len() - at,
    {
        if names[at] == wanted {
            return Some(at);
        }
        at = at + 1;
    }
    None
}

} // verus!
