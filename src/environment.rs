use vstd::prelude::*;
use crate::config::Overrides;
use crate::delimiter::{decoded, Delimiter};
use crate::dialect::{lower_of, lowercase, same_text};
use vstd::utf8::encode_utf8;

verus! {

/// The raw values of the environment variables that a configuration reads, each
/// `None` where the variable is not set.
#[derive(Clone, Debug, Default)]
pub struct EnvValues {
    pub default_delimiter: Option<String>,
    pub sniff_delimiter: Option<String>,
    pub sniff_preamble: Option<String>,
    pub autoindex_size: Option<String>,
    pub prefer_dmy: Option<String>,
    pub read_buffer: Option<String>,
    pub write_buffer: Option<String>,
    pub toggle_headers: Option<String>,
    pub no_headers: Option<String>,
    pub comment_char: Option<String>,
    pub output_bom: Option<String>,
}

/// The value of a string of decimal digits.
pub open spec fn digits_value(s: Seq<char>) -> int
    decreases s.len(),
{
    if s.len() == 0 {
        0
    } else {
        digits_value(s.drop_last()) * 10 + (s.last() as u32 - '0' as u32)
    }
}

pub open spec fn all_digits(s: Seq<char>) -> bool {
    forall|i: int| 0 <= i < s.len() ==> '0' <= #[trigger] s[i] && s[i] <= '9'
}

/// The number that a string writes as an optional `+` followed by decimal digits.
pub open spec fn decimal_of(s: Seq<char>) -> Option<int> {
    let d = if s.len() > 0 && s[0] == '+' {
        s.drop_first()
    } else {
        s
    };
    if d.len() > 0 && all_digits(d) {
        Some(digits_value(d))
    } else {
        None
    }
}

/// Relies on `u64::from_str`: an optional `+` then decimal digits, with no other
/// character, and a value that fits.
#[verifier::external_body]
fn parse_u64(s: &str) -> (r: Option<u64>)
    ensures
        r == (match decimal_of(s@) {
            Some(v) => if v <= u64::MAX {
                Some(v as u64)
            } else {
                None
            },
            None => None,
        }),
{
    s.parse::<u64>().ok()
}

/// Relies on `usize::from_str`: an optional `+` then decimal digits, with no other
/// character, and a value that fits.
#[verifier::external_body]
fn parse_usize(s: &str) -> (r: Option<usize>)
    ensures
        r == (match decimal_of(s@) {
            Some(v) => if v <= usize::MAX {
                Some(v as usize)
            } else {
                None
            },
            None => None,
        }),
{
    s.parse::<usize>().ok()
}

/// The first byte of a string's UTF-8 encoding, where it has one.
pub open spec fn first_byte_of(s: Seq<char>) -> Option<u8> {
    let b = encode_utf8(s);
    if b.len() > 0 {
        Some(b[0])
    } else {
        None
    }
}

/// Whether a variable's value turns its toggle on: `1`, or `true` in any case.
pub open spec fn flag_on(v: Option<Seq<char>>) -> bool {
    match v {
        Some(s) => s == "1"@ || lower_of(s) == "true"@,
        None => false,
    }
}

pub open spec fn view_of(v: &Option<String>) -> Option<Seq<char>> {
    match v {
        Some(s) => Some(s@),
        None => None,
    }
}

/// Whether a toggle is on.
pub fn flag_set(v: &Option<String>) -> (r: bool)
    ensures
        r == flag_on(view_of(v)),
{
    match v {
        Some(s) => {
            if same_text(s.as_str(), "1") {
                true
            } else {
                let l = lowercase(s.as_str());
                same_text(l.as_str(), "true")
            }
        },
        None => false,
    }
}

/// A size read from a variable: its decimal value, where it is one that fits.
pub open spec fn size_of(v: Option<Seq<char>>, max: int) -> Option<int> {
    match v {
        Some(s) => match decimal_of(s) {
            Some(n) => if n <= max {
                Some(n)
            } else {
                None
            },
            None => None,
        },
        None => None,
    }
}

/// Why the environment could not be read.
#[derive(Clone, Debug, PartialEq, Eq)]
pub enum EnvError {
    /// The default delimiter is not a single ASCII byte; the message says which.
    BadDelimiter(String),
    /// The comment variable is set, and empty.
    EmptyComment,
}

impl Overrides {
    /// Reads the settings out of the environment's raw values. Unparsable sizes are
    /// left unset; a bad delimiter or an empty comment byte is an error.
    pub fn from_env(v: &EnvValues) -> (r: Result<Overrides, EnvError>)
        ensures
            r is Err <==> ((view_of(&v.default_delimiter) is Some && decoded(
                view_of(&v.default_delimiter)->Some_0,
            ) is None) || (view_of(&v.comment_char) is Some && first_byte_of(
                view_of(&v.comment_char)->Some_0,
            ) is None)),
            r is Ok ==> ({
                let o = r->Ok_0;
                &&& o.default_delimiter == (match view_of(&v.default_delimiter) {
                    Some(s) => Some(Delimiter(decoded(s)->Some_0)),
                    None => None,
                })
                &&& o.sniff == (flag_on(view_of(&v.sniff_delimiter)) || flag_on(
                    view_of(&v.sniff_preamble),
                ))
                &&& o.autoindex_size == (match size_of(view_of(&v.autoindex_size), u64::MAX as int) {
                    Some(n) => n as u64,
                    None => 0,
                })
                &&& o.prefer_dmy == flag_on(view_of(&v.prefer_dmy))
                &&& o.read_buffer == (match size_of(view_of(&v.read_buffer), usize::MAX as int) {
                    Some(n) => Some(n as usize),
                    None => None,
                })
                &&& o.write_buffer == (match size_of(view_of(&v.write_buffer), usize::MAX as int) {
                    Some(n) => Some(n as usize),
                    None => None,
                })
                &&& o.toggle_headers == (view_of(&v.toggle_headers) == Some("1"@))
                &&& o.no_headers == flag_on(view_of(&v.no_headers))
                &&& o.comment == (match view_of(&v.comment_char) {
                    Some(s) => first_byte_of(s),
                    None => None,
                })
                &&& o.output_bom == flag_on(view_of(&v.output_bom))
            }),
    {
        let default_delimiter = match &v.default_delimiter {
            Some(s) => match Delimiter::decode_delimiter(s.as_str()) {
                Ok(d) => Some(d),
                Err(m) => {
                    return Err(EnvError::BadDelimiter(m));
                },
            },
            None => None,
        };
        let comment = match &v.comment_char {
            Some(s) => {
                let bytes = s.as_str().as_bytes();
                if bytes.len() == 0 {
                    return Err(EnvError::EmptyComment);
                }
                Some(bytes[0])
            },
            None => None,
        };
        let autoindex_size = match &v.autoindex_size {
            Some(s) => match parse_u64(s.as_str()) {
                Some(n) => n,
                None => 0,
            },
            None => 0,
        };
        let read_buffer = match &v.read_buffer {
            Some(s) => parse_usize(s.as_str()),
            None => None,
        };
        let write_buffer = match &v.write_buffer {
            Some(s) => parse_usize(s.as_str()),
            None => None,
        };
        let toggle_headers = match &v.toggle_headers {
            Some(s) => same_text(s.as_str(), "1"),
            None => false,
        };
        Ok(Overrides {
            default_delimiter,
            sniff: flag_set(&v.sniff_delimiter) || flag_set(&v.sniff_preamble),
            autoindex_size,
            prefer_dmy: flag_set(&v.prefer_dmy),
            read_buffer,
            write_buffer,
            toggle_headers,
            no_headers: flag_set(&v.no_headers),
            comment,
            output_bom: flag_set(&v.output_bom),
        })
    }
}

} // verus!
