//! The checks of the command-line arguments.

use vstd::prelude::*;

use crate::color::{brightness_range_message, validate_brightness};
use crate::error::{fails_invalid_input, Error};
use crate::text::{parse_u16, parse_u8, parsed_u16, parsed_u8, push_str, str_equals, string_of};

verus! {

/// The brightness given by the arguments after the color: none means full
/// brightness, `--brightness` and a value give that value.
pub open spec fn brightness_option(args: Seq<Seq<char>>) -> Result<u8, Seq<char>> {
    if args.len() == 0 {
        Ok(100)
    } else if args.len() == 2 && args[0] == "--brightness"@ {
        match parsed_u8(args[1]) {
            None => Err("brightness must be an integer between 0 and 100"@),
            Some(b) => if b <= 100 {
                Ok(b)
            } else {
                Err(brightness_range_message())
            },
        }
    } else {
        Err("expected only --brightness followed by a value from 0 through 100"@)
    }
}

/// Checks that a command got exactly `expected` arguments, the command
/// included.
pub fn require_arg_count(args: &[String], expected: usize) -> (r: Result<(), Error>)
    requires
        args@.len() == expected || args@.len() > 0,
    ensures
        args@.len() == expected ==> r is Ok,
        args@.len() != expected ==> fails_invalid_input(
            r,
            args@[0]@ + " does not accept additional arguments"@,
        ),
{
    if args.len() == expected {
        Ok(())
    } else {
        let mut m = args[0].clone();
        push_str(&mut m, " does not accept additional arguments");
        Err(Error::InvalidInput(m))
    }
}

/// Reads a channel value given on the command line; values above 255 are
/// rejected later, when the color is built.
pub fn parse_component(name: &str, value: &str) -> (r: Result<u16, Error>)
    ensures
        parsed_u16(value@) matches Some(v) ==> r == Ok::<u16, Error>(v),
        parsed_u16(value@) is None ==> fails_invalid_input(
            r,
            name@ + " channel must be an integer between 0 and 255"@,
        ),
{
    match parse_u16(value) {
        Some(v) => Ok(v),
        None => {
            let mut m = string_of(name);
            push_str(&mut m, " channel must be an integer between 0 and 255");
            Err(Error::InvalidInput(m))
        },
    }
}

/// Reads the optional `--brightness VALUE` arguments that follow a color.
pub fn parse_brightness_option(args: &[String]) -> (r: Result<u8, Error>)
    ensures
        ({
            let o = brightness_option(args@.map_values(|s: String| s@));
            &&& o matches Ok(b) ==> r == Ok::<u8, Error>(b)
            &&& o matches Err(m) ==> fails_invalid_input(r, m)
        }),
{
    let ghost views = args@.map_values(|s: String| s@);
    if args.len() == 0 {
        return Ok(100);
    }
    if args.len() == 2 && str_equals(args[0].as_str(), "--brightness") {
        assert(views[0] == args@[0]@);
        assert(views[1] == args@[1]@);
        let brightness = match parse_u8(args[1].as_str()) {
            Some(b) => b,
            None => {
                return Err(
                    Error::InvalidInput(
                        string_of("brightness must be an integer between 0 and 100"),
                    ),
                );
            },
        };
        validate_brightness(brightness)?;
        return Ok(brightness);
    }
    proof {
        if args@.len() == 2 {
            assert(views[0] == args@[0]@);
        }
    }
    Err(
        Error::InvalidInput(
            string_of("expected only --brightness followed by a value from 0 through 100"),
        ),
    )
}

} // verus!
