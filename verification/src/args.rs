//! Reading the listen port and the target address out of an argument list.

use vstd::prelude::*;

verus! {

/// The port that is listened on where the arguments name none.
pub const DEFAULT_PORT: u16 = 80;

/// An ASCII digit.
pub open spec fn is_digit(c: char) -> bool {
    '0' <= c <= '9'
}

/// The number that a text of ASCII digits spells, read without a limit; none
/// where the text holds anything else.
pub open spec fn digits_value(text: Seq<char>) -> Option<nat>
    decreases text.len(),
{
    if text.len() == 0 {
        Some(0)
    } else if !is_digit(text.last()) {
        None
    } else {
        match digits_value(text.drop_last()) {
            Some(value) => Some(value * 10 + (text.last() as nat - '0' as nat) as nat),
            None => None,
        }
    }
}

/// A text without the plus sign that it may begin with.
pub open spec fn unsigned(text: Seq<char>) -> Seq<char> {
    if text.len() > 0 && text[0] == '+' {
        text.skip(1)
    } else {
        text
    }
}

/// The port that a text spells: one or more ASCII digits, a plus sign before
/// them or not, with a value of at most 65535. Any other text spells none.
pub open spec fn parse_port_spec(text: Seq<char>) -> Option<u16> {
    let digits = unsigned(text);
    if digits.len() == 0 {
        None
    } else {
        match digits_value(digits) {
            Some(value) => if value <= 0xffff {
                Some(value as u16)
            } else {
                None
            },
            None => None,
        }
    }
}

/// The text `--port`.
pub open spec fn port_flag() -> Seq<char> {
    "--port"@
}

/// The text `--target`.
pub open spec fn target_flag() -> Seq<char> {
    "--target"@
}

/// The text `127.0.0.1:22`.
pub open spec fn default_target() -> Seq<char> {
    "127.0.0.1:22"@
}

/// The place of the argument that follows the last `flag` among the
/// arguments before place `upto`, the program's name at place 0 left aside
/// and a `flag` that ends the list not counted.
pub open spec fn last_value(args: Seq<String>, flag: Seq<char>, upto: int) -> Option<int>
    decreases upto,
{
    if upto <= 1 {
        None
    } else if upto < args.len() && args[upto - 1]@ == flag {
        Some(upto)
    } else {
        last_value(args, flag, upto - 1)
    }
}

/// The port that the arguments name: what follows the last `--port`, and
/// the default where there is none or what follows spells no port.
pub open spec fn port_spec(args: Seq<String>) -> u16 {
    match last_value(args, port_flag(), args.len() as int) {
        Some(place) => match parse_port_spec(args[place]@) {
            Some(port) => port,
            None => DEFAULT_PORT,
        },
        None => DEFAULT_PORT,
    }
}

/// The target that the arguments name: what follows the last `--target`,
/// and the default where there is none.
pub open spec fn target_spec(args: Seq<String>) -> Seq<char> {
    match last_value(args, target_flag(), args.len() as int) {
        Some(place) => args[place]@,
        None => default_target(),
    }
}

/// A text with something else than a digit in it spells no number.
proof fn other_character_spoils(text: Seq<char>, at: int)
    requires
        0 <= at < text.len(),
        !is_digit(text[at]),
    ensures
        digits_value(text) == None::<nat>,
    decreases text.len(),
{
    if at < text.len() - 1 {
        other_character_spoils(text.drop_last(), at);
    }
}

/// A text whose beginning spells more than `bound` spells no less itself.
proof fn value_only_grows(text: Seq<char>, upto: int, bound: nat)
    requires
        0 <= upto <= text.len(),
        digits_value(text.take(upto)) is Some,
        digits_value(text.take(upto))->Some_0 > bound,
    ensures
        match digits_value(text) {
            Some(value) => value > bound,
            None => true,
        },
    decreases text.len(),
{
    if upto == text.len() {
        assert(text.take(upto) =~= text);
    } else {
        assert(text.drop_last().take(upto) =~= text.take(upto));
        value_only_grows(text.drop_last(), upto, bound);
    }
}

/// Tells whether two texts are the same.
pub fn same_text(left: &str, right: &str) -> (same: bool)
    ensures
        same == (left@ == right@),
{
    let n: usize = left.unicode_len();
    if right.unicode_len() != n {
        return false;
    }
    let mut i: usize = 0;
    while i < n
        invariant
            i <= n,
            n == left@.len(),
            n == right@.len(),
            forall|j: int| 0 <= j < i ==> left@[j] == right@[j],
        decreases n - i,
    {
        if left.get_char(i) != right.get_char(i) {
            return false;
        }
        i += 1;
    }
    assert(left@ =~= right@);
    true
}

/// Reads a text as a port.
pub fn parse_port(text: &str) -> (port: Option<u16>)
    ensures
        port == parse_port_spec(text@),
{
    let n: usize = text.unicode_len();
    let first: usize = if n > 0 && text.get_char(0) == '+' {
        1
    } else {
        0
    };
    if first == n {
        return None;
    }
    let ghost digits = text@.skip(first as int);
    assert(text@.skip(0) =~= text@);
    assert(digits == unsigned(text@));
    let mut value: u32 = 0;
    let mut i: usize = first;
    assert(digits.take(0) =~= Seq::<char>::empty());
    while i < n
        invariant
            first <= i <= n,
            n == text@.len(),
            digits == unsigned(text@),
            digits.len() == n - first,
            forall|j: int| 0 <= j < digits.len() ==> digits[j] == text@[first + j],
            digits_value(digits.take(i - first)) == Some(value as nat),
            value <= 0xffff,
        decreases n - i,
    {
        let c = text.get_char(i);
        assert(c == digits[i - first]);
        if !('0' <= c && c <= '9') {
            proof {
                other_character_spoils(digits, i - first);
            }
            return None;
        }
        let digit: u32 = c as u32 - '0' as u32;
        let next: u32 = value * 10 + digit;
        proof {
            let longer = digits.take(i - first + 1);
            assert(longer.drop_last() =~= digits.take(i - first));
            assert(longer.last() == c);
            assert(digits_value(longer) == Some(next as nat));
        }
        if next > 0xffff {
            proof {
                value_only_grows(digits, i - first + 1, 0xffff);
            }
            return None;
        }
        value = next;
        i += 1;
    }
    assert(digits.take(n - first) =~= digits);
    Some(value as u16)
}

/// Finds the argument that follows the last `flag`, the program's name
/// left aside.
pub fn find_value(args: &Vec<String>, flag: &str) -> (found: Option<usize>)
    ensures
        match found {
            Some(place) => last_value(args@, flag@, args@.len() as int) == Some(place as int) && 2
                <= place < args@.len(),
            None => last_value(args@, flag@, args@.len() as int) == None::<int>,
        },
{
    let mut upto: usize = args.len();
    while upto > 1
        invariant
            upto <= args.len(),
            last_value(args@, flag@, args@.len() as int) == last_value(args@, flag@, upto as int),
        decreases upto,
    {
        if upto < args.len() && same_text(args[upto - 1].as_str(), flag) {
            return Some(upto);
        }
        upto -= 1;
    }
    None
}

/// The port to listen on, as the arguments name it.
pub fn get_port(args: &Vec<String>) -> (port: u16)
    ensures
        port == port_spec(args@),
{
    match find_value(args, "--port") {
        Some(place) => match parse_port(args[place].as_str()) {
            Some(port) => port,
            None => DEFAULT_PORT,
        },
        None => DEFAULT_PORT,
    }
}

/// The address to relay to, as the arguments name it.
pub fn get_target(args: &Vec<String>) -> (target: String)
    ensures
        target@ == target_spec(args@),
{
    match find_value(args, "--target") {
        Some(place) => args[place].clone(),
        None => "127.0.0.1:22".to_owned(),
    }
}

} // verus!
