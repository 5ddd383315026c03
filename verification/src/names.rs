//! Which names a user may go by in the directory.
//!
//! A name is what is left of a line of input once the white space around
//! it is gone. It must say something, must not be made of numerals alone
//! (the directory would take it for a number), and must not be in use.

use crate::text::texts;
use vstd::prelude::*;
use vstd::string::StrSliceExecFns;

verus! {

/// The character is white space: one of the code points with the Unicode
/// property `White_Space`.
pub open spec fn is_whitespace(c: char) -> bool {
    let n = c as u32;
    ||| 0x09 <= n <= 0x0D
    ||| n == 0x20
    ||| n == 0x85
    ||| n == 0xA0
    ||| n == 0x1680
    ||| 0x2000 <= n <= 0x200A
    ||| n == 0x2028
    ||| n == 0x2029
    ||| n == 0x202F
    ||| n == 0x205F
    ||| n == 0x3000
}

/// The text without the white space it begins with.
pub open spec fn trim_start(s: Seq<char>) -> Seq<char>
    decreases s.len(),
{
    if s.len() > 0 && is_whitespace(s[0]) {
        trim_start(s.drop_first())
    } else {
        s
    }
}

/// The text without the white space it ends with.
pub open spec fn trim_end(s: Seq<char>) -> Seq<char>
    decreases s.len(),
{
    if s.len() > 0 && is_whitespace(s.last()) {
        trim_end(s.drop_last())
    } else {
        s
    }
}

/// The text without the white space around it.
pub open spec fn trimmed(s: Seq<char>) -> Seq<char> {
    trim_end(trim_start(s))
}

/// Whether a character is a numeral, as `char::is_numeric` tells.
pub uninterp spec fn is_numeric_char(c: char) -> bool;

/// Every character of the text is a numeral. True of the empty text.
pub open spec fn all_numeric(s: Seq<char>) -> bool {
    forall|i: int| 0 <= i < s.len() ==> is_numeric_char(#[trigger] s[i])
}

/// `char::is_numeric`: whether the character is in one of the Unicode
/// categories of numerals. The answer depends on the character alone; it is
/// named, not spelled out.
pub assume_specification[ char::is_numeric ](c: char) -> (numeric: bool)
    ensures
        numeric == is_numeric_char(c),
;

/// Why a name is refused.
#[derive(Clone, Copy, Debug, PartialEq, Eq, Structural)]
pub enum NameError {
    /// The name says nothing.
    Empty,
    /// The name is made of numerals alone.
    AllNumeric,
    /// Somebody online goes by the name already.
    Taken,
}

/// The verdict on a name, given whether it is made of numerals alone and
/// whether it is in use. The three tests are made in this order.
pub open spec fn judged(name: Seq<char>, numeric: bool, taken: bool) -> Result<(), NameError> {
    if name.len() == 0 {
        Err(NameError::Empty)
    } else if numeric {
        Err(NameError::AllNumeric)
    } else if taken {
        Err(NameError::Taken)
    } else {
        Ok(())
    }
}

/// Whether a character is white space.
pub fn whitespace(c: char) -> (white: bool)
    ensures
        white == is_whitespace(c),
{
    let n: u32 = c as u32;
    (0x09 <= n && n <= 0x0D) || n == 0x20 || n == 0x85 || n == 0xA0 || n == 0x1680 || (0x2000
        <= n && n <= 0x200A) || n == 0x2028 || n == 0x2029 || n == 0x202F || n == 0x205F || n
        == 0x3000
}

/// The text without the white space around it.
pub fn trim(input: &str) -> (name: String)
    ensures
        name@ == trimmed(input@),
{
    let len = input.unicode_len();
    let mut start: usize = 0;
    assert(input@.subrange(0, len as int) =~= input@);
    while start < len && whitespace(input.get_char(start))
        invariant
            len == input@.len(),
            start <= len,
            trim_start(input@) == trim_start(input@.subrange(start as int, len as int)),
        decreases len - start,
    {
        proof {
            let rest = input@.subrange(start as int, len as int);
            assert(rest.drop_first() =~= input@.subrange(start + 1, len as int));
        }
        start += 1;
    }
    let ghost kept = input@.subrange(start as int, len as int);
    assert(trim_start(input@) == kept);
    let mut end: usize = len;
    while end > start && whitespace(input.get_char(end - 1))
        invariant
            len == input@.len(),
            start <= end <= len,
            trim_end(kept) == trim_end(input@.subrange(start as int, end as int)),
            kept == input@.subrange(start as int, len as int),
        decreases end - start,
    {
        proof {
            let rest = input@.subrange(start as int, end as int);
            assert(rest.drop_last() =~= input@.subrange(start as int, end - 1));
        }
        end -= 1;
    }
    input.substring_char(start, end).to_owned()
}

/// Whether every character of the text is a numeral.
pub fn is_all_numeric(name: &str) -> (numeric: bool)
    ensures
        numeric == all_numeric(name@),
{
    let len = name.unicode_len();
    let mut i: usize = 0;
    while i < len
        invariant
            len == name@.len(),
            i <= len,
            forall|k: int| 0 <= k < i ==> is_numeric_char(#[trigger] name@[k]),
        decreases len - i,
    {
        if !name.get_char(i).is_numeric() {
            return false;
        }
        i += 1;
    }
    true
}

/// Whether one of the names is this name.
pub fn is_taken(name: &String, usernames: &Vec<String>) -> (taken: bool)
    ensures
        taken == texts(usernames@).contains(name@),
{
    let mut i: usize = 0;
    while i < usernames.len()
        invariant
            i <= usernames.len(),
            forall|k: int| 0 <= k < i ==> (#[trigger] texts(usernames@)[k]) != name@,
        decreases usernames.len() - i,
    {
        if usernames[i] == *name {
            assert(texts(usernames@)[i as int] == name@);
            return true;
        }
        i += 1;
    }
    false
}

/// Judges a name that has been trimmed, told whether it is made of numerals
/// alone.
pub fn judge_name(name: &String, numeric: bool, usernames: &Vec<String>) -> (verdict: Result<
    (),
    NameError,
>)
    ensures
        verdict == judged(name@, numeric, texts(usernames@).contains(name@)),
{
    if name.as_str().is_empty() {
        Err(NameError::Empty)
    } else if numeric {
        Err(NameError::AllNumeric)
    } else if is_taken(name, usernames) {
        Err(NameError::Taken)
    } else {
        Ok(())
    }
}

/// Makes a name of a line of input and judges it against the names that are
/// in use. The name is handed back where it is good.
pub fn check_name(input: &str, usernames: &Vec<String>) -> (checked: Result<String, NameError>)
    ensures
        match checked {
            Ok(name) => name@ == trimmed(input@) && judged(
                name@,
                all_numeric(name@),
                texts(usernames@).contains(name@),
            ) is Ok,
            Err(e) => judged(
                trimmed(input@),
                all_numeric(trimmed(input@)),
                texts(usernames@).contains(trimmed(input@)),
            ) == Err::<(), NameError>(e),
        },
{
    let name = trim(input);
    let numeric = is_all_numeric(name.as_str());
    match judge_name(&name, numeric, usernames) {
        Ok(()) => Ok(name),
        Err(e) => Err(e),
    }
}

} // verus!
