//! Validated identifiers: operator credentials and lesson (target) ids.
//!
//! A lesson id is a non-empty string of decimal digits whose value fits in
//! a `u64`; usernames and passwords are merely non-empty.  Validation
//! happens at construction and nothing downstream re-checks.

use vstd::prelude::*;

use crate::text::digit_char;

verus! {

/// A decimal digit character.
pub open spec fn is_digit(c: char) -> bool {
    '0' <= c && c <= '9'
}

/// Every character of `s` is a decimal digit.
pub open spec fn all_digits(s: Seq<char>) -> bool {
    forall|i: int| 0 <= i < s.len() ==> is_digit(#[trigger] s[i])
}

/// The numeric value of a digit character.
pub open spec fn char_digit(c: char) -> nat {
    (c as nat - 48) as nat
}

/// The value of a string of digits, most significant digit first.
pub open spec fn digits_val(s: Seq<char>) -> nat
    decreases s.len(),
{
    if s.len() == 0 {
        0
    } else {
        digits_val(s.drop_last()) * 10 + char_digit(s.last())
    }
}

/// A digit string's value only grows as more digits are appended.
proof fn lemma_digits_val_prefix_le(s: Seq<char>, i: int)
    requires
        0 <= i <= s.len(),
    ensures
        digits_val(s.take(i)) <= digits_val(s),
    decreases s.len() - i,
{
    if i == s.len() {
        assert(s.take(i) =~= s);
    } else {
        assert(s.take(i + 1).drop_last() =~= s.take(i));
        assert(digits_val(s.take(i + 1)) == digits_val(s.take(i)) * 10 + char_digit(
            s.take(i + 1).last(),
        ));
        lemma_digits_val_prefix_le(s, i + 1);
    }
}

/// Parses a string of decimal digits.  Returns the value exactly when the
/// string is non-empty, all digits, and the value fits in a `u64`.
pub fn parse_u64_digits(s: &str) -> (r: Option<u64>)
    ensures
        match r {
            Some(v) => s@.len() > 0 && all_digits(s@) && digits_val(s@) == v,
            None => s@.len() == 0 || !all_digits(s@) || digits_val(s@) > u64::MAX,
        },
{
    let n = s.unicode_len();
    if n == 0 {
        return None;
    }
    let mut acc: u64 = 0;
    let mut i: usize = 0;
    while i < n
        invariant
            0 <= i <= n,
            n == s@.len(),
            all_digits(s@.take(i as int)),
            acc == digits_val(s@.take(i as int)),
        decreases n - i,
    {
        let c = s.get_char(i);
        if !(c >= '0' && c <= '9') {
            return None;
        }
        let d: u64 = (c as u32 as u64) - 48;
        let stepped = match acc.checked_mul(10) {
            Some(t) => t.checked_add(d),
            None => None,
        };
        proof {
            assert(s@.take(i + 1).drop_last() =~= s@.take(i as int));
            assert(digits_val(s@.take(i + 1)) == digits_val(s@.take(i as int)) * 10 + char_digit(
                s@[i as int],
            ));
        }
        match stepped {
            Some(v) => {
                acc = v;
            },
            None => {
                proof {
                    lemma_digits_val_prefix_le(s@, i + 1);
                }
                return None;
            },
        }
        i = i + 1;
    }
    proof {
        assert(s@.take(n as int) =~= s@);
    }
    Some(acc)
}

/// An operator's login name; non-empty.
#[derive(Debug, Clone)]
pub struct Username(String);

impl View for Username {
    type V = Seq<char>;

    closed spec fn view(&self) -> Seq<char> {
        self.0@
    }
}

impl Username {
    /// Accepts any non-empty string.
    pub fn from_str(s: &str) -> (r: Result<Username, String>)
        ensures
            match r {
                Ok(u) => s@.len() > 0 && u@ == s@,
                Err(e) => s@.len() == 0 && e@ == "You need to supply a non empty username"@,
            },
    {
        if s.unicode_len() == 0 {
            Err("You need to supply a non empty username".to_owned())
        } else {
            Ok(Username(s.to_owned()))
        }
    }

    pub fn as_str(&self) -> (r: &str)
        ensures
            r@ == self@,
    {
        self.0.as_str()
    }

    /// A copy with the same characters (the derived clone carries no
    /// contract).
    pub fn duplicate(&self) -> (r: Username)
        ensures
            r@ == self@,
    {
        Username(self.0.clone())
    }
}

/// An operator's password; non-empty, never rendered.
#[derive(Clone)]
pub struct Password(String);

impl View for Password {
    type V = Seq<char>;

    closed spec fn view(&self) -> Seq<char> {
        self.0@
    }
}

impl Password {
    /// Accepts any non-empty string.
    pub fn from_str(s: &str) -> (r: Result<Password, String>)
        ensures
            match r {
                Ok(p) => s@.len() > 0 && p@ == s@,
                Err(e) => s@.len() == 0 && e@ == "You need to supply a non-empty password!"@,
            },
    {
        if s.unicode_len() == 0 {
            Err("You need to supply a non-empty password!".to_owned())
        } else {
            Ok(Password(s.to_owned()))
        }
    }

    pub fn as_str_dangerous(&self) -> (r: &str)
        ensures
            r@ == self@,
    {
        self.0.as_str()
    }

    /// A copy with the same characters.
    pub fn duplicate(&self) -> (r: Password)
        ensures
            r@ == self@,
    {
        Password(self.0.clone())
    }
}

/// A well-formed lesson id: non-empty digits, value within `u64`.
pub open spec fn lesson_id_chars(s: Seq<char>) -> bool {
    s.len() > 0 && all_digits(s) && digits_val(s) <= u64::MAX
}

/// The id of one concrete lesson instance on the remote site.
#[derive(Debug, Clone)]
pub struct LessonID(String);

impl View for LessonID {
    type V = Seq<char>;

    closed spec fn view(&self) -> Seq<char> {
        self.0@
    }
}

impl LessonID {
    /// The id is well-formed: a non-empty string of digits within `u64`.
    pub open spec fn wf(&self) -> bool {
        lesson_id_chars(self@)
    }

    /// Accepts exactly the non-empty digit strings whose value fits a `u64`.
    pub fn from_str(s: &str) -> (r: Result<LessonID, String>)
        ensures
            match r {
                Ok(id) => id@ == s@ && lesson_id_chars(s@),
                Err(e) => !lesson_id_chars(s@) && (if s@.len() == 0 {
                    e@ == "You need to supply a non-empty lesson_id!"@
                } else {
                    e@ == "A lesson_id may only contain numbers!"@
                }),
            },
    {
        if s.unicode_len() == 0 {
            Err("You need to supply a non-empty lesson_id!".to_owned())
        } else if parse_u64_digits(s).is_none() {
            Err("A lesson_id may only contain numbers!".to_owned())
        } else {
            Ok(LessonID(s.to_owned()))
        }
    }

    pub fn as_str(&self) -> (r: &str)
        ensures
            r@ == self@,
    {
        self.0.as_str()
    }

    /// A copy with the same characters.
    pub fn duplicate(&self) -> (r: LessonID)
        ensures
            r@ == self@,
    {
        LessonID(self.0.clone())
    }
}

} // verus!
