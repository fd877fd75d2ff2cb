//! The parameter values of a `Bind`, decoded for the statement they are
//! bound into.

use crate::error::CubeError;
use crate::protocol::Bind;
use vstd::prelude::*;
use vstd::string::StringExecFns;
use vstd::utf8::{decode_utf8, valid_utf8};

verus! {

/// One parameter as the statement gets it: text, or nothing.
#[derive(Clone, Debug, PartialEq, Eq)]
pub enum BindValue {
    String(String),
    Null,
}

pub enum BindValueView {
    String(Seq<char>),
    Null,
}

impl View for BindValue {
    type V = BindValueView;

    open spec fn view(&self) -> BindValueView {
        match self {
            BindValue::String(text) => BindValueView::String(text@),
            BindValue::Null => BindValueView::Null,
        }
    }
}

/// What a raw parameter stands for: an absent one for nothing, a present
/// one for the text that its bytes encode.
pub open spec fn decoded(raw: Option<Vec<u8>>) -> BindValueView {
    match raw {
        None => BindValueView::Null,
        Some(bytes) => BindValueView::String(decode_utf8(bytes@)),
    }
}

/// A raw parameter can be decoded unless it is present and its bytes are
/// not UTF-8.
pub open spec fn decodable(raw: Option<Vec<u8>>) -> bool {
    raw matches Some(bytes) ==> valid_utf8(bytes@)
}

/// `std::str::from_utf8`: the text that the bytes encode, and nothing
/// where they are not valid UTF-8.
#[verifier::external_body]
fn str_from_utf8<'a>(bytes: &'a [u8]) -> (text: Option<&'a str>)
    ensures
        match text {
            Some(decoded) => valid_utf8(bytes@) && decoded@ == decode_utf8(bytes@),
            None => !valid_utf8(bytes@),
        },
{
    std::str::from_utf8(bytes).ok()
}

impl Bind {
    /// Decodes the parameter values, one value for each, in order. Where a
    /// present value is not UTF-8 nothing is decoded and the error says
    /// so.
    pub fn to_bind_values(&self) -> (result: Result<Vec<BindValue>, CubeError>)
        ensures
            match result {
                Ok(values) => {
                    &&& values.len() == self.parameter_values.len()
                    &&& forall|i: int|
                        0 <= i < values.len() ==> decodable(self.parameter_values[i])
                            && (#[trigger] values[i])@ == decoded(self.parameter_values[i])
                },
                Err(error) => {
                    &&& exists|i: int|
                        0 <= i < self.parameter_values.len() && !decodable(
                            #[trigger] self.parameter_values[i],
                        )
                    &&& error@ == "Unable to unpack raw parameter to string"@
                },
            },
    {
        let mut values: Vec<BindValue> = Vec::new();
        let mut i: usize = 0;
        while i < self.parameter_values.len()
            invariant
                i <= self.parameter_values.len(),
                values.len() == i,
                forall|j: int|
                    0 <= j < i ==> decodable(self.parameter_values[j]) && (#[trigger] values[j])@
                        == decoded(self.parameter_values[j]),
            decreases self.parameter_values.len() - i,
        {
            match &self.parameter_values[i] {
                None => {
                    values.push(BindValue::Null);
                },
                Some(bytes) => match str_from_utf8(bytes.as_slice()) {
                    Some(text) => {
                        values.push(BindValue::String(String::from_str(text)));
                    },
                    None => {
                        assert(!decodable(self.parameter_values[i as int]));
                        return Err(
                            CubeError::internal(
                                String::from_str("Unable to unpack raw parameter to string"),
                            ),
                        );
                    },
                },
            }
            i += 1;
        }
        Ok(values)
    }
}

} // verus!
