//! Typed IP prefixes and their textual CIDR form.

use std::str::FromStr;
use vstd::prelude::*;
use vstd::string::StringExecFns;
use crate::text::chars_of;

verus! {

/// The address family of a prefix.
#[derive(Clone, Copy, Debug, PartialEq, Eq, Structural)]
pub enum AddressFamily {
    V4,
    V6,
}

impl AddressFamily {
    /// The longest prefix length of the family: 32 for IPv4, 128 for IPv6.
    pub open spec fn bits(self) -> u8 {
        match self {
            AddressFamily::V4 => 32u8,
            AddressFamily::V6 => 128u8,
        }
    }

    /// The longest prefix length of the family.
    pub fn max_prefix_len(self) -> (n: u8)
        ensures
            n == self.bits(),
    {
        match self {
            AddressFamily::V4 => 32,
            AddressFamily::V6 => 128,
        }
    }
}

/// Why a text is no prefix.
#[derive(Clone, Copy, Debug, PartialEq, Eq, Structural)]
pub enum ParseError {
    /// The text is not an address, a slash and a length within the range of
    /// the address's family, and nothing else.
    Syntax,
    /// The text opens with a bracket and is not an IPv6 address in
    /// brackets, a slash and a length.
    Bracket,
}

/// An IP prefix: the family, the address as a number (an IPv4 address in the
/// low 32 bits) and the prefix length.
///
/// Two prefixes are the same only if all three parts are equal. The address
/// is kept as written: host bits are neither required to be zero nor cleared.
#[derive(Clone, Copy, Debug, PartialEq, Eq)]
pub struct RoutePrefix {
    pub family: AddressFamily,
    pub addr: u128,
    pub len: u8,
}

impl RoutePrefix {
    /// The length is within the family's range and the address fits the
    /// family's width.
    pub open spec fn wf(self) -> bool {
        &&& self.len <= self.family.bits()
        &&& self.family == AddressFamily::V4 ==> self.addr <= u32::MAX
    }

    /// A prefix from its parts, or `None` if the parts are not those of a
    /// well-formed prefix.
    pub fn new(family: AddressFamily, addr: u128, len: u8) -> (made: Option<RoutePrefix>)
        ensures
            made == if (RoutePrefix { family, addr, len }).wf() {
                Some(RoutePrefix { family, addr, len })
            } else {
                None
            },
    {
        let prefix = RoutePrefix { family, addr, len };
        if prefix.is_well_formed() {
            Some(prefix)
        } else {
            None
        }
    }

    /// Whether the parts are those of a well-formed prefix.
    pub fn is_well_formed(&self) -> (good: bool)
        ensures
            good == self.wf(),
    {
        let fits = match self.family {
            AddressFamily::V4 => self.addr <= 0xffff_ffff,
            AddressFamily::V6 => true,
        };
        fits && self.len <= self.family.max_prefix_len()
    }

    /// Whether the two prefixes have the same family, address and length.
    pub fn same_as(&self, other: &RoutePrefix) -> (same: bool)
        ensures
            same == (*self == *other),
    {
        self.family == other.family && self.addr == other.addr && self.len == other.len
    }
}

/// What the parser of the `ipnet` crate makes of a text: the prefix it
/// reads, with the address as written, or nothing where it rejects the text.
pub uninterp spec fn ipnet_parse(text: Seq<char>) -> Option<RoutePrefix>;

/// Calls `IpNet::from_str` of the `ipnet` crate and hands its result over
/// as a `RoutePrefix`: the family of the variant, the address as a number
/// and the prefix length.
///
/// Taken on trust: the result is a function of the text alone, and a prefix
/// that the crate accepts has a length within the range of its family (the
/// crate reads at most 32 after an IPv4 address and at most 128 after an
/// IPv6 address) and, for IPv4, an address of 32 bits.
#[verifier::external_body]
fn parse_ipnet(text: &str) -> (parsed: Option<RoutePrefix>)
    ensures
        parsed == ipnet_parse(text@),
        parsed matches Some(prefix) ==> prefix.wf(),
{
    match ipnet::IpNet::from_str(text) {
        Ok(ipnet::IpNet::V4(net)) => Some(
            RoutePrefix {
                family: AddressFamily::V4,
                addr: u128::from(u32::from(net.addr())),
                len: net.prefix_len(),
            },
        ),
        Ok(ipnet::IpNet::V6(net)) => Some(
            RoutePrefix { family: AddressFamily::V6, addr: u128::from(net.addr()), len: net.prefix_len() },
        ),
        Err(_) => None,
    }
}

/// The position of the first `]` at or after `from`, or the length of the
/// text if there is none.
pub open spec fn closing_bracket(text: Seq<char>, from: int) -> int
    decreases text.len() - from,
{
    if from < 0 || from >= text.len() {
        text.len() as int
    } else if text[from] == ']' {
        from
    } else {
        closing_bracket(text, from + 1)
    }
}

/// Whether a text opens with a bracket.
pub open spec fn bracketed(text: Seq<char>) -> bool {
    text.len() > 0 && text[0] == '['
}

/// The text that the bracketed form stands for: `[addr]/len` stands for
/// `addr/len`. The first closing bracket ends the address and a slash
/// follows it directly; a text of another shape stands for nothing.
pub open spec fn bracket_content(text: Seq<char>) -> Option<Seq<char>> {
    let close = closing_bracket(text, 1);
    if close + 1 < text.len() && text[close + 1] == '/' {
        Some(text.subrange(1, close) + text.subrange(close + 1, text.len() as int))
    } else {
        None
    }
}

/// The result of parsing, given what the address parser made of the text
/// without its brackets: brackets are for IPv6 addresses only.
pub open spec fn accepted(in_brackets: bool, parsed: Option<RoutePrefix>) -> Result<
    RoutePrefix,
    ParseError,
> {
    match parsed {
        None => Err(ParseError::Syntax),
        Some(prefix) => if in_brackets && prefix.family != AddressFamily::V6 {
            Err(ParseError::Bracket)
        } else {
            Ok(prefix)
        },
    }
}

/// The prefix that a text denotes, or why it denotes none.
pub open spec fn parse_result(text: Seq<char>) -> Result<RoutePrefix, ParseError> {
    if bracketed(text) {
        match bracket_content(text) {
            None => Err(ParseError::Bracket),
            Some(inner) => accepted(true, ipnet_parse(inner)),
        }
    } else {
        accepted(false, ipnet_parse(text))
    }
}

/// Takes the brackets off the address of `[addr]/len`.
pub fn strip_brackets(text: &str) -> (inner: Option<String>)
    ensures
        match bracket_content(text@) {
            Some(content) => inner matches Some(stripped) && stripped@ == content,
            None => inner is None,
        },
{
    let chars = chars_of(text);
    let n: usize = chars.len();
    let mut close: usize = 1;
    while close < n && chars[close] != ']'
        invariant
            n == chars@.len(),
            chars@ == text@,
            1 <= close,
            close <= n || close == 1,
            closing_bracket(text@, close as int) == closing_bracket(text@, 1),
        decreases n - close,
    {
        close += 1;
    }
    if close < n && close + 1 < n && chars[close + 1] == '/' {
        let address = text.substring_char(1, close);
        let rest = text.substring_char(close + 1, n);
        let mut stripped = address.to_owned();
        stripped.append(rest);
        Some(stripped)
    } else {
        None
    }
}

/// Decides on a text from what the address parser made of it without its
/// brackets.
pub fn from_parsed(in_brackets: bool, parsed: Option<RoutePrefix>) -> (result: Result<
    RoutePrefix,
    ParseError,
>)
    ensures
        result == accepted(in_brackets, parsed),
{
    match parsed {
        None => Err(ParseError::Syntax),
        Some(prefix) => {
            let v6 = match prefix.family {
                AddressFamily::V6 => true,
                AddressFamily::V4 => false,
            };
            if in_brackets && !v6 {
                Err(ParseError::Bracket)
            } else {
                Ok(prefix)
            }
        },
    }
}

impl RoutePrefix {
    /// Parses a prefix in CIDR notation: `a.b.c.d/len` for IPv4, `addr/len`
    /// or `[addr]/len` for IPv6.
    pub fn parse(text: &str) -> (result: Result<RoutePrefix, ParseError>)
        ensures
            result == parse_result(text@),
            result matches Ok(prefix) ==> prefix.wf(),
    {
        let opens_with_bracket = text.unicode_len() > 0 && text.get_char(0) == '[';
        if opens_with_bracket {
            match strip_brackets(text) {
                None => Err(ParseError::Bracket),
                Some(inner) => from_parsed(true, parse_ipnet(inner.as_str())),
            }
        } else {
            from_parsed(false, parse_ipnet(text))
        }
    }
}

} // verus!
