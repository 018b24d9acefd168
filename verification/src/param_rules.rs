//! The rule that a request must carry a parameter of the expected type.

use crate::status::HttpStatus;
use vstd::prelude::*;

verus! {

/// A required parameter is missing or has the wrong type; the message says
/// which.
#[derive(Debug, Clone)]
pub struct RequiredParamError(pub String);

/// What the `Debug` formatting of std writes for a string: the string in
/// double quotes, with its characters escaped as `char::escape_debug` does.
pub uninterp spec fn str_debug(s: Seq<char>) -> Seq<char>;

/// `<str as Debug>::fmt` of std, through `format!("{:?}", ..)`.
#[verifier::external_body]
fn debug_quoted(s: &str) -> (r: String)
    ensures
        r@ == str_debug(s@),
{
    format!("{:?}", s)
}

impl RequiredParamError {
    /// The error as it is displayed: like its debug form,
    /// `RequiredParamError("<message>")`.
    pub fn display_text(&self) -> (t: String)
        ensures
            t@ == "RequiredParamError("@ + str_debug(self.0@) + ")"@,
    {
        let mut t = "RequiredParamError(".to_owned();
        let quoted = debug_quoted(self.0.as_str());
        t.append(quoted.as_str());
        t.append(")");
        t
    }

    /// The message of the error.
    pub fn description(&self) -> (d: &str)
        ensures
            d@ == self.0@,
    {
        self.0.as_str()
    }
}

/// What looking up a parameter in a request found.
#[derive(Debug, Clone, Copy, PartialEq, Eq, Structural)]
pub enum ParamLookup {
    /// The request's parameters could not be read at all.
    ParamsUnavailable,
    /// The request has no parameter of that name.
    Missing,
    /// The parameter is there; `convertible` tells whether its value has
    /// the expected type.
    Present { convertible: bool },
}

/// Why a request was refused before it reached its handler.
#[derive(Debug, Clone)]
pub enum ParamRejectionCause {
    /// The request's parameters could not be read; the reader's own error
    /// is the cause.
    ParamsUnavailable,
    /// A required parameter is missing or has the wrong type.
    Required(RequiredParamError),
}

/// A refused request: the status answered and the cause.
#[derive(Debug, Clone)]
pub struct ParamRejection {
    pub status: HttpStatus,
    pub cause: ParamRejectionCause,
}

/// The message for a request that lacks the parameter `name`.
pub open spec fn missing_param_message(name: Seq<char>) -> Seq<char> {
    "the request doesn't contains the parameter "@ + name
}

/// The message for a parameter `name` whose value has the wrong type.
pub open spec fn wrong_type_message(name: Seq<char>) -> Seq<char> {
    "the '"@ + name + "' parameter is not of the correct type"@
}

/// Checks that the request carries the parameter `name` with a value of the
/// expected type; every refusal is a `400 Bad Request`.
pub fn check(name: &str, lookup: ParamLookup) -> (r: Result<(), ParamRejection>)
    ensures
        r is Ok <==> lookup == (ParamLookup::Present { convertible: true }),
        r matches Err(e) ==> e.status == HttpStatus::BadRequest,
        lookup == ParamLookup::ParamsUnavailable ==> (r matches Err(e) && e.cause
            is ParamsUnavailable),
        lookup == ParamLookup::Missing ==> (r matches Err(e) && e.cause matches ParamRejectionCause::Required(
            m,
        ) && m.0@ == missing_param_message(name@)),
        lookup == (ParamLookup::Present { convertible: false }) ==> (r matches Err(e)
            && e.cause matches ParamRejectionCause::Required(m) && m.0@ == wrong_type_message(
            name@,
        )),
{
    match lookup {
        ParamLookup::ParamsUnavailable => Err(
            ParamRejection {
                status: HttpStatus::BadRequest,
                cause: ParamRejectionCause::ParamsUnavailable,
            },
        ),
        ParamLookup::Missing => {
            let mut m = "the request doesn't contains the parameter ".to_owned();
            m.append(name);
            Err(
                ParamRejection {
                    status: HttpStatus::BadRequest,
                    cause: ParamRejectionCause::Required(RequiredParamError(m)),
                },
            )
        },
        ParamLookup::Present { convertible } => {
            if convertible {
                Ok(())
            } else {
                let mut m = "the '".to_owned();
                m.append(name);
                m.append("' parameter is not of the correct type");
                Err(
                    ParamRejection {
                        status: HttpStatus::BadRequest,
                        cause: ParamRejectionCause::Required(RequiredParamError(m)),
                    },
                )
            }
        },
    }
}

} // verus!
