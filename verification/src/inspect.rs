//! The text of values: what `to_s` and `inspect` give for the values that
//! are held in a word, for strings, and for classes.
//!
//! A float has no text here: its shortest decimal form is for the caller to
//! make.

use vstd::prelude::*;
use vstd::string::{StrSliceExecFns, StringExecFns};
use vstd::utf8::{decode_utf8, encode_utf8, valid_utf8};
use crate::globals::Globals;
use crate::ids::{ClassId, IdentId};
use crate::value::{Kind, Value, TAG_SYMBOL};

verus! {

/// A value, unpacked.
#[derive(Debug)]
pub enum RV {
    Nil,
    Bool(bool),
    Integer(i64),
    /// A float, by its bits.
    Float(u64),
    Symbol(IdentId),
    /// A string, by its bytes.
    String(Vec<u8>),
    Class(ClassId),
}

/// The decimal digit of a number below ten.
pub open spec fn digit(d: int) -> char {
    if d == 0 {
        '0'
    } else if d == 1 {
        '1'
    } else if d == 2 {
        '2'
    } else if d == 3 {
        '3'
    } else if d == 4 {
        '4'
    } else if d == 5 {
        '5'
    } else if d == 6 {
        '6'
    } else if d == 7 {
        '7'
    } else if d == 8 {
        '8'
    } else {
        '9'
    }
}

/// The decimal digits of a natural number, without leading zeros.
pub open spec fn dec_digits(n: nat) -> Seq<char>
    decreases n,
{
    if n < 10 {
        seq![digit(n as int)]
    } else {
        dec_digits(n / 10).push(digit((n % 10) as int))
    }
}

/// The decimal text of an integer.
pub open spec fn int_text(i: int) -> Seq<char> {
    if i < 0 {
        seq!['-'] + dec_digits((-i) as nat)
    } else {
        dec_digits(i as nat)
    }
}

/// What a character becomes when a string is escaped: a backslash and a
/// letter for a control character, a backslash before a blank and before a
/// backslash, and itself else.
pub open spec fn escape_char(c: char) -> Seq<char> {
    if c == '\u{7}' {
        seq!['\\', 'a']
    } else if c == '\u{8}' {
        seq!['\\', 'b']
    } else if c == '\t' {
        seq!['\\', 't']
    } else if c == '\n' {
        seq!['\\', 'n']
    } else if c == '\u{b}' {
        seq!['\\', 'v']
    } else if c == '\u{c}' {
        seq!['\\', 'f']
    } else if c == '\r' {
        seq!['\\', 'r']
    } else if c == ' ' {
        seq!['\\', ' ']
    } else if c == '\\' {
        seq!['\\', '\\']
    } else {
        seq![c]
    }
}

/// A text with every character escaped.
pub open spec fn escaped(text: Seq<char>) -> Seq<char>
    decreases text.len(),
{
    if text.len() == 0 {
        seq![]
    } else {
        escaped(text.drop_last()) + escape_char(text.last())
    }
}

/// `escape_string::escape`: the text with the control characters bell,
/// backspace, tab, newline, vertical tab, form feed and carriage return
/// written as a backslash and their letter, and with a backslash before
/// every blank and every backslash.  All other characters stay.
#[verifier::external_body]
fn escape(text: &str) -> (r: String)
    ensures
        r@ == escaped(text@),
{
    escape_string::escape(text).into_owned()
}

/// `String::from_utf8`: the string that the bytes encode where they are
/// valid UTF-8, and nothing where they are not.
#[verifier::external_body]
fn from_utf8(bytes: &Vec<u8>) -> (r: Option<String>)
    ensures
        r is Some <==> valid_utf8(bytes@),
        r matches Some(s) ==> s@ == decode_utf8(bytes@),
{
    String::from_utf8(bytes.clone()).ok()
}

/// The text of one decimal digit.
fn digit_str(d: u64) -> (s: &'static str)
    requires
        d < 10,
    ensures
        s@ == seq![digit(d as int)],
{
    proof {
        reveal_strlit("0");
        reveal_strlit("1");
        reveal_strlit("2");
        reveal_strlit("3");
        reveal_strlit("4");
        reveal_strlit("5");
        reveal_strlit("6");
        reveal_strlit("7");
        reveal_strlit("8");
        reveal_strlit("9");
    }
    let s = if d == 0 {
        "0"
    } else if d == 1 {
        "1"
    } else if d == 2 {
        "2"
    } else if d == 3 {
        "3"
    } else if d == 4 {
        "4"
    } else if d == 5 {
        "5"
    } else if d == 6 {
        "6"
    } else if d == 7 {
        "7"
    } else if d == 8 {
        "8"
    } else {
        "9"
    };
    assert(s@ =~= seq![digit(d as int)]);
    s
}

/// Appends the decimal digits of `n`.
fn push_digits(s: &mut String, n: u64)
    ensures
        final(s)@ == old(s)@ + dec_digits(n as nat),
    decreases n,
{
    if n >= 10 {
        push_digits(s, n / 10);
    }
    let ghost before = s@;
    s.append(digit_str(n % 10));
    if n >= 10 {
        assert(s@ =~= old(s)@ + dec_digits((n / 10) as nat).push(digit((n % 10) as int)));
    } else {
        assert(s@ =~= old(s)@ + seq![digit(n as int)]);
    }
}

/// The decimal text of an integer.
pub fn integer_to_s(i: i64) -> (s: String)
    ensures
        s@ == int_text(i as int),
{
    proof {
        reveal_strlit("-");
        reveal_strlit("");
    }
    if i < 0 {
        let mut s = String::from_str("-");
        push_digits(&mut s, (-(i as i128)) as u64);
        assert(s@ =~= seq!['-'] + dec_digits((-i) as nat));
        s
    } else {
        let mut s = String::from_str("");
        push_digits(&mut s, i as u64);
        assert(s@ =~= dec_digits(i as nat));
        s
    }
}

impl Value {
    /// The value unpacked, for a value that is held in a word: `nil`, a
    /// boolean, a small integer, an inline float, or a symbol.  `None` for a
    /// heap object.
    pub fn unpack(&self) -> (r: Option<RV>)
        ensures
            match self.kind() {
                Kind::Nil => r matches Some(RV::Nil),
                Kind::True => r matches Some(RV::Bool(true)),
                Kind::False => r matches Some(RV::Bool(false)),
                Kind::Fixnum(i) => r matches Some(RV::Integer(n)) && n == i,
                Kind::Flonum(bits) => r matches Some(RV::Float(b)) && b == bits,
                Kind::Other => if self.0 % 0x100 == TAG_SYMBOL {
                    r matches Some(RV::Symbol(id)) && id.0 == self.0 / 0x1_0000_0000
                } else {
                    r is None
                },
            },
    {
        if let Some(i) = self.as_integer() {
            return Some(RV::Integer(i));
        }
        if let Some(bits) = self.as_float() {
            return Some(RV::Float(bits));
        }
        if self.is_nil() {
            return Some(RV::Nil);
        }
        proof {
            crate::value::lemma_tags_disjoint(self.0);
        }
        if self.0 == crate::value::TRUE_VALUE {
            Some(RV::Bool(true))
        } else if self.0 == crate::value::FALSE_VALUE {
            Some(RV::Bool(false))
        } else if self.0 % 0x100 == TAG_SYMBOL {
            Some(RV::Symbol(IdentId((self.0 / 0x1_0000_0000) as u32)))
        } else {
            None
        }
    }
}

impl Globals {
    /// The text of a name; empty for an unknown identifier.
    pub open spec fn name_text(&self, id: IdentId) -> Seq<char> {
        if id.0 < self.idents@.len() {
            self.idents@[id.0 as int]@
        } else {
            Seq::<char>::empty()
        }
    }

    /// The name of a class; empty for a class without a name.
    pub open spec fn class_text(&self, class_id: ClassId) -> Seq<char> {
        if class_id.0 < self.classes@.len() && self.classes@[class_id.0 as int].name is Some {
            self.name_text(self.classes@[class_id.0 as int].name->0)
        } else {
            Seq::<char>::empty()
        }
    }

    fn name_string(&self, id: IdentId) -> (s: String)
        ensures
            s@ == self.name_text(id),
    {
        proof {
            reveal_strlit("");
        }
        match self.get_name(id) {
            Some(s) => s.clone(),
            None => String::from_str(""),
        }
    }

    fn class_string(&self, class_id: ClassId) -> (s: String)
        ensures
            s@ == self.class_text(class_id),
    {
        proof {
            reveal_strlit("");
        }
        if (class_id.0 as usize) < self.classes.len() {
            match self.classes[class_id.0 as usize].name {
                Some(name) => self.name_string(name),
                None => String::from_str(""),
            }
        } else {
            String::from_str("")
        }
    }

    /// What `to_s` gives for a value; `None` for a float, whose text is for
    /// the caller to make, and for a string whose bytes are no valid UTF-8.
    pub fn val_tos(&self, val: &RV) -> (r: Option<String>)
        ensures
            match *val {
                RV::Nil => r matches Some(s) && s@ == "nil"@,
                RV::Bool(b) => r matches Some(s) && s@ == if b {
                    "true"@
                } else {
                    "false"@
                },
                RV::Integer(n) => r matches Some(s) && s@ == int_text(n as int),
                RV::Float(_) => r is None,
                RV::Symbol(id) => r matches Some(s) && s@ == self.name_text(id),
                RV::String(bytes) => (r is Some <==> valid_utf8(bytes@)) && (r matches Some(s) ==> s@
                    == decode_utf8(bytes@)),
                RV::Class(c) => r matches Some(s) && s@ == self.class_text(c),
            },
    {
        match val {
            RV::Nil => Some(String::from_str("nil")),
            RV::Bool(b) => if *b {
                Some(String::from_str("true"))
            } else {
                Some(String::from_str("false"))
            },
            RV::Integer(n) => Some(integer_to_s(*n)),
            RV::Float(_) => None,
            RV::Symbol(id) => Some(self.name_string(*id)),
            RV::String(bytes) => from_utf8(bytes),
            RV::Class(c) => Some(self.class_string(*c)),
        }
    }

    /// What `inspect` gives for a value: a symbol with a colon before it, a
    /// string escaped and in double quotes, every other value as `to_s`
    /// gives it.
    pub fn val_inspect(&self, val: &RV) -> (r: Option<String>)
        ensures
            match *val {
                RV::Nil => r matches Some(s) && s@ == "nil"@,
                RV::Bool(b) => r matches Some(s) && s@ == if b {
                    "true"@
                } else {
                    "false"@
                },
                RV::Integer(n) => r matches Some(s) && s@ == int_text(n as int),
                RV::Float(_) => r is None,
                RV::Symbol(id) => r matches Some(s) && s@ == seq![':'] + self.name_text(id),
                RV::String(bytes) => (r is Some <==> valid_utf8(bytes@)) && (r matches Some(s) ==> s@
                    == seq!['"'] + escaped(decode_utf8(bytes@)) + seq!['"']),
                RV::Class(c) => r matches Some(s) && s@ == self.class_text(c),
            },
    {
        match val {
            RV::Symbol(id) => {
                proof {
                    reveal_strlit(":");
                }
                let mut s = String::from_str(":");
                let name = self.name_string(*id);
                s.append(name.as_str());
                assert(s@ =~= seq![':'] + self.name_text(*id));
                Some(s)
            },
            RV::String(bytes) => match from_utf8(bytes) {
                Some(t) => {
                    proof {
                        reveal_strlit("\"");
                    }
                    let mut s = String::from_str("\"");
                    let e = escape(t.as_str());
                    s.append(e.as_str());
                    s.append("\"");
                    assert(s@ =~= seq!['"'] + escaped(t@) + seq!['"']);
                    Some(s)
                },
                None => None,
            },
            _ => self.val_tos(val),
        }
    }

    /// The bytes of what `to_s` gives, in UTF-8; for a string its own bytes,
    /// whatever they are.  `None` for a float.
    pub fn val_tobytes(&self, val: &RV) -> (r: Option<Vec<u8>>)
        ensures
            match *val {
                RV::Nil => r matches Some(v) && v@ == encode_utf8("nil"@),
                RV::Bool(b) => r matches Some(v) && v@ == encode_utf8(
                    if b {
                        "true"@
                    } else {
                        "false"@
                    },
                ),
                RV::Integer(n) => r matches Some(v) && v@ == encode_utf8(int_text(n as int)),
                RV::Float(_) => r is None,
                RV::Symbol(id) => r matches Some(v) && v@ == encode_utf8(self.name_text(id)),
                RV::String(bytes) => r matches Some(v) && v@ == bytes@,
                RV::Class(c) => r matches Some(v) && v@ == encode_utf8(self.class_text(c)),
            },
    {
        match val {
            RV::String(bytes) => Some(bytes.clone()),
            RV::Float(_) => None,
            _ => match self.val_tos(val) {
                Some(s) => Some(s.as_str().as_bytes_vec()),
                None => None,
            },
        }
    }
}

} // verus!
