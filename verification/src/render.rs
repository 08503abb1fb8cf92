//! Values, types and identifiers as text.

use crate::error::FormatError;
use crate::peek::{Peek, ValueId};
use crate::shape;
use facet_core::{PtrConst, Shape};
use vstd::prelude::*;
use vstd::string::StringExecFns;

verus! {

/// The text for a value that cannot be shown: the name of its type in angle brackets, if the type
/// has one that can be written.
pub open spec fn placeholder(shape: Shape) -> Option<Seq<char>> {
    match shape::name_of(shape) {
        Some(name) => Some("⟨"@ + name + "⟩"@),
        None => None,
    }
}

/// `r` is the text, or the error where there is none.
pub open spec fn is_written(text: Option<Seq<char>>, r: Result<String, FormatError>) -> bool {
    match text {
        Some(chars) => r matches Ok(written) && written@ == chars,
        None => r is Err,
    }
}

/// The text for a value: `o`, or the placeholder where the shape has no function for it.
pub open spec fn is_shown(
    shape: Shape,
    o: Option<Result<String, FormatError>>,
    r: Result<String, FormatError>,
) -> bool {
    match o {
        Some(shown) => r == shown,
        None => is_written(placeholder(shape), r),
    }
}

/// The digits from which a hexadecimal number is written.
pub open spec fn hex_digit(d: nat) -> char {
    seq!['0', '1', '2', '3', '4', '5', '6', '7', '8', '9', 'a', 'b', 'c', 'd', 'e', 'f'][d as int]
}

/// A number in hexadecimal, without leading zeros.
pub open spec fn hex_of(n: nat) -> Seq<char>
    decreases n,
{
    if n < 16 {
        seq![hex_digit(n)]
    } else {
        hex_of(n / 16).push(hex_digit(n % 16))
    }
}

/// Returns the hexadecimal digit.
fn digit_text(d: usize) -> (r: &'static str)
    requires
        d < 16,
    ensures
        r@ == seq![hex_digit(d as nat)],
{
    match d {
        0 => {
            proof {
                reveal_strlit("0");
            }
            "0"
        },
        1 => {
            proof {
                reveal_strlit("1");
            }
            "1"
        },
        2 => {
            proof {
                reveal_strlit("2");
            }
            "2"
        },
        3 => {
            proof {
                reveal_strlit("3");
            }
            "3"
        },
        4 => {
            proof {
                reveal_strlit("4");
            }
            "4"
        },
        5 => {
            proof {
                reveal_strlit("5");
            }
            "5"
        },
        6 => {
            proof {
                reveal_strlit("6");
            }
            "6"
        },
        7 => {
            proof {
                reveal_strlit("7");
            }
            "7"
        },
        8 => {
            proof {
                reveal_strlit("8");
            }
            "8"
        },
        9 => {
            proof {
                reveal_strlit("9");
            }
            "9"
        },
        10 => {
            proof {
                reveal_strlit("a");
            }
            "a"
        },
        11 => {
            proof {
                reveal_strlit("b");
            }
            "b"
        },
        12 => {
            proof {
                reveal_strlit("c");
            }
            "c"
        },
        13 => {
            proof {
                reveal_strlit("d");
            }
            "d"
        },
        14 => {
            proof {
                reveal_strlit("e");
            }
            "e"
        },
        _ => {
            proof {
                reveal_strlit("f");
            }
            "f"
        },
    }
}

/// Returns the number in hexadecimal.
fn hex_text(n: usize) -> (r: String)
    ensures
        r@ == hex_of(n as nat),
    decreases n,
{
    if n < 16 {
        digit_text(n).to_owned()
    } else {
        let mut text = hex_text(n / 16);
        text.append(digit_text(n % 16));
        assert(text@ == hex_of(n as nat));
        text
    }
}

/// The text of an identifier.
pub open spec fn id_text(shape: Shape, address: usize) -> Option<Seq<char>> {
    match shape::name_of(shape) {
        Some(name) => Some(name + "@0x"@ + hex_of(address as nat)),
        None => None,
    }
}

impl ValueId {
    /// Returns the identifier as text: the name of the type, `@` and the address in hexadecimal.
    ///
    /// Fails where the name of the type cannot be written.
    pub fn to_text(&self) -> (r: Result<String, FormatError>)
        requires
            shape::is_valid(self@.shape),
        ensures
            is_written(id_text(self@.shape, self@.address), r),
    {
        match shape::shape_name(self.shape()) {
            Ok(name) => {
                let mut text = name;
                text.append("@0x");
                text.append(hex_text(self.address()).as_str());
                Ok(text)
            },
            Err(e) => Err(e),
        }
    }
}

impl<'mem, 'facet> Peek<'mem, 'facet> {
    /// Returns the value as text, or the name of its type in angle brackets.
    fn shown<F: FnOnce(&'static Shape, PtrConst) -> Option<Result<String, FormatError>>>(
        &self,
        show: F,
    ) -> (r: Result<String, FormatError>)
        requires
            call_requires(show, (&self@.shape, self@.data)),
            call_ensures(show, (&self@.shape, self@.data), None::<Result<String, FormatError>>)
                ==> shape::is_valid(self@.shape),
        ensures
            exists|o: Option<Result<String, FormatError>>|
                call_ensures(show, (&self@.shape, self@.data), o) && #[trigger] is_shown(
                    self@.shape,
                    o,
                    r,
                ),
    {
        let outcome = show(self.shape(), self.data());
        let r = match outcome {
            Some(shown) => shown,
            None => {
                match shape::shape_name(self.shape()) {
                    Ok(name) => {
                        let mut text = "⟨".to_owned();
                        text.append(name.as_str());
                        text.append("⟩");
                        Ok(text)
                    },
                    Err(e) => Err(e),
                }
            },
        };
        assert(is_shown(self@.shape, outcome, r));
        r
    }

    /// Returns the value as it is displayed.
    ///
    /// `display` displays a value of a shape, or returns `None` where the shape cannot be
    /// displayed; the name of the type in angle brackets then stands for the value.
    pub fn display<F: FnOnce(&'static Shape, PtrConst) -> Option<Result<String, FormatError>>>(
        &self,
        display: F,
    ) -> (r: Result<String, FormatError>)
        requires
            call_requires(display, (&self@.shape, self@.data)),
            call_ensures(display, (&self@.shape, self@.data), None::<Result<String, FormatError>>)
                ==> shape::is_valid(self@.shape),
        ensures
            exists|o: Option<Result<String, FormatError>>|
                call_ensures(display, (&self@.shape, self@.data), o) && #[trigger] is_shown(
                    self@.shape,
                    o,
                    r,
                ),
    {
        self.shown(display)
    }

    /// Returns the value as it is shown to a developer.
    ///
    /// `debug` does so for a value of a shape, or returns `None` where the shape cannot be shown;
    /// the name of the type in angle brackets then stands for the value.
    pub fn debug<F: FnOnce(&'static Shape, PtrConst) -> Option<Result<String, FormatError>>>(
        &self,
        debug: F,
    ) -> (r: Result<String, FormatError>)
        requires
            call_requires(debug, (&self@.shape, self@.data)),
            call_ensures(debug, (&self@.shape, self@.data), None::<Result<String, FormatError>>)
                ==> shape::is_valid(self@.shape),
        ensures
            exists|o: Option<Result<String, FormatError>>|
                call_ensures(debug, (&self@.shape, self@.data), o) && #[trigger] is_shown(
                    self@.shape,
                    o,
                    r,
                ),
    {
        self.shown(debug)
    }

    /// Returns the name of the type.
    ///
    /// `format` formats the name by the formatter of the shape, or returns `None` where the shape
    /// has none; the identifier of the type is then its name.
    pub fn formatted_name<F: FnOnce(&'static Shape) -> Option<Result<String, FormatError>>>(
        &self,
        format: F,
    ) -> (r: Result<String, FormatError>)
        requires
            call_requires(format, (&self@.shape,)),
        ensures
            exists|o: Option<Result<String, FormatError>>| #[trigger]
                call_ensures(format, (&self@.shape,), o) && match o {
                    Some(formatted) => r == formatted,
                    None => r matches Ok(name) && name@ == shape::identifier_of(self@.shape),
                },
    {
        match format(self.shape()) {
            Some(formatted) => formatted,
            None => Ok(shape::type_identifier(self.shape()).to_owned()),
        }
    }
}

} // verus!
