use vstd::prelude::*;

verus! {

/// The byte of a horizontal tab.
pub const TAB: u8 = 9;

/// The byte of a comma.
pub const COMMA: u8 = 44;

/// The two characters `\t`, which stand for a tab where a delimiter is written out.
pub open spec fn tab_escape() -> Seq<char> {
    seq!['\\', 't']
}

/// A character that is one ASCII byte.
pub open spec fn is_ascii_char(c: char) -> bool {
    (c as u32) < 128
}

/// The delimiter that a written-out value stands for, if any.
pub open spec fn decoded(s: Seq<char>) -> Option<u8> {
    if s == tab_escape() {
        Some(TAB)
    } else if s.len() == 1 && is_ascii_char(s[0]) {
        Some(s[0] as u32 as u8)
    } else {
        None
    }
}

/// The message given for a value that is not a single ASCII byte.
pub open spec fn decode_error(s: Seq<char>) -> Seq<char> {
    "Could not convert '"@ + s + "' to a single ASCII character."@
}

/// A field delimiter: a single ASCII byte.
#[derive(Clone, Copy, Debug, PartialEq, Eq, Structural)]
pub struct Delimiter(pub u8);

impl Delimiter {
    pub fn as_byte(self) -> (r: u8)
        ensures
            r == self.0,
    {
        self.0
    }

    /// Reads a delimiter from its written form: one ASCII character, or `\t` for a tab.
    pub fn decode_delimiter(s: &str) -> (r: Result<Delimiter, String>)
        ensures
            decoded(s@) is Some ==> r == Ok::<Delimiter, String>(Delimiter(decoded(s@)->Some_0)),
            decoded(s@) is None ==> r is Err && r->Err_0@ == decode_error(s@),
    {
        let n = s.unicode_len();
        if n == 2 && s.get_char(0) == '\\' && s.get_char(1) == 't' {
            assert(s@ =~= tab_escape());
            return Ok(Delimiter(TAB));
        }
        if n == 1 {
            let c = s.get_char(0);
            if (c as u32) < 128 {
                assert(s@ != tab_escape());
                return Ok(Delimiter(c as u32 as u8));
            }
        }
        proof {
            if s@ == tab_escape() {
                assert(s@[0] == '\\' && s@[1] == 't');
            }
        }
        let mut m = String::from_str("Could not convert '");
        m.append(s);
        m.append("' to a single ASCII character.");
        Err(m)
    }
}

} // verus!
