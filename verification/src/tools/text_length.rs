use vstd::prelude::*;
use vstd::utf8::encode_utf8;
use serde_json::Value;
use crate::json::{
    is_plain_json_text, json_member_string, json_quoted, member_string, number_object_text,
};
use crate::text::decimal;

verus! {

/// A tool that reports the length of a text.
#[derive(Clone, Copy, Debug, PartialEq, Eq)]
pub struct TextLengthTool;

/// The length of `text` in bytes of UTF-8, as `str::len` counts it.
pub open spec fn byte_length(text: Seq<char>) -> usize {
    encode_utf8(text).len() as usize
}

/// The answer to a request whose arguments hold the text `text`, or none:
/// the text's length in bytes, or the complaint that it is missing.
pub open spec fn measured(text: Option<Seq<char>>) -> Result<usize, Seq<char>> {
    match text {
        Some(given) => Ok(byte_length(given)),
        None => Err("Missing 'text' parameter"@),
    }
}

/// The answer for a text of `length` bytes: the JSON object with the one
/// member `length`.
pub open spec fn length_answer(length: usize) -> Seq<char> {
    "{\"length\":"@ + decimal(length as nat) + "}"@
}

impl TextLengthTool {
    pub fn new() -> (r: Self)
        ensures
            r == TextLengthTool,
    {
        Self
    }

    /// The name under which the tool is registered.
    pub fn def_name(&self) -> (r: &'static str)
        ensures
            r@ == "text_length_tool"@,
    {
        "text_length_tool"
    }

    /// What the tool tells the engine about itself.
    pub fn def_description(&self) -> (r: &'static str)
        ensures
            r@ == "Returns the length of the input text."@,
    {
        "Returns the length of the input text."
    }

    /// The schema of the tool's arguments, in JSON notation.
    pub fn def_parameters(&self) -> (r: &'static str)
        ensures
            r@ == "{\"type\":\"object\",\"properties\":{\"text\":{\"type\":\"string\",\"description\":\"Input text to calculate its length\"}},\"required\":[\"text\"]}"@,
    {
        "{\"type\":\"object\",\"properties\":{\"text\":{\"type\":\"string\",\"description\":\"Input text to calculate its length\"}},\"required\":[\"text\"]}"
    }

    /// The length in bytes of the text given, or the complaint that none was
    /// given.
    pub fn measure(text: Option<&str>) -> (r: Result<usize, String>)
        ensures
            match r {
                Ok(length) => measured(
                    match text {
                        Some(given) => Some(given@),
                        None => None,
                    },
                ) == Ok::<usize, Seq<char>>(length),
                Err(complaint) => measured(
                    match text {
                        Some(given) => Some(given@),
                        None => None,
                    },
                ) == Err::<usize, Seq<char>>(complaint@),
            },
    {
        match text {
            Some(given) => Ok(given.len()),
            None => Err("Missing 'text' parameter".to_owned()),
        }
    }

    /// Answers a request: the length of the member `text` of `args` as a
    /// JSON object with the one member `length`, or the complaint that the
    /// member is missing or no string.
    pub fn run(&self, args: Value) -> (r: Result<String, String>)
        ensures
            match r {
                Ok(answer) => measured(json_member_string(args, "text"@)) matches Ok(length)
                    && answer@ == length_answer(length),
                Err(complaint) => measured(json_member_string(args, "text"@)) == Err::<
                    usize,
                    Seq<char>,
                >(complaint@),
            },
    {
        let text = member_string(&args, "text");
        let measured = match &text {
            Some(given) => Self::measure(Some(given.as_str())),
            None => Self::measure(None),
        };
        match measured {
            Ok(length) => {
                proof {
                    reveal_strlit("length");
                    reveal_strlit("{");
                    reveal_strlit("\"");
                    reveal_strlit(":");
                    reveal_strlit("{\"length\":");
                    assert(is_plain_json_text("length"@));
                    assert("{"@ + json_quoted("length"@) + ":"@ =~= "{\"length\":"@);
                }
                Ok(number_object_text("length", length as u64))
            },
            Err(complaint) => Err(complaint),
        }
    }
}

} // verus!
