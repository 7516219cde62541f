//! A client that talks to a sandbox as a worker does.

use vstd::prelude::*;
use vstd::string::*;

use crate::metrics::Nanoseconds;
use crate::text::parse_u64;

verus! {

/// Where a request is to be found.
#[derive(Debug)]
pub enum RequestInput {
    /// In the file at the path given.
    File(String),
    /// In the text given.
    Inline(String),
}

/// The request that an argument speaks of is there.
pub open spec fn speaks_of(arg: Seq<char>, input: RequestInput) -> bool {
    if arg.len() > 0 && arg[0] == '@' {
        input is File && (input->File_0)@ == arg.skip(1)
    } else {
        input is Inline && (input->Inline_0)@ == arg
    }
}

/// Where the request is that an argument speaks of: in a file if it starts with `@`.
pub fn json_func_req(arg: &str) -> (r: RequestInput)
    ensures
        if arg@.len() > 0 && arg@[0] == '@' {
            r is File && (r->File_0)@ == arg@.skip(1)
        } else {
            r is Inline && (r->Inline_0)@ == arg@
        },
        speaks_of(arg@, r),
{
    let len: usize = arg.unicode_len();
    if len > 0 && arg.get_char(0) == '@' {
        RequestInput::File(arg.substring_char(1, len).to_owned())
    } else {
        RequestInput::Inline(arg.to_owned())
    }
}

/// The duration in a header.
pub open spec fn duration_in(value: Option<Seq<char>>) -> Nanoseconds {
    match value {
        Some(s) => match crate::text::u64_of_text(s) {
            Some(ns) => ns,
            None => 0,
        },
        None => 0,
    }
}

/// The duration in a header; none if there is no such header or it is no number.
pub fn header_duration(value: Option<&str>) -> (r: Nanoseconds)
    ensures
        r == (match value {
            Some(s) => match crate::text::u64_of_text(s@) {
                Some(ns) => ns,
                None => 0,
            },
            None => 0,
        }),
        r == duration_in(
            match value {
                Some(s) => Some(s@),
                None => None,
            },
        ),
{
    match value {
        Some(s) => match parse_u64(s) {
            Some(ns) => ns,
            None => 0,
        },
        None => 0,
    }
}

/// A duration that is written in a header is read back; where there is none, or what is there is no
/// number, there is no duration.
pub proof fn law_durations_in_headers(n: u64, s: Seq<char>)
    ensures
        duration_in(Some(crate::text::decimal(n as nat))) == n,
        duration_in(None) == 0,
        crate::text::u64_of_text(s) is None ==> duration_in(Some(s)) == 0,
{
    crate::text::law_numbers_are_read_back(n as nat, 0);
}

/// An argument that starts with `@` speaks of the file at the path after that, and any other is the
/// request itself.
pub proof fn law_what_arguments_speak_of(path: Seq<char>, arg: Seq<char>, input: RequestInput)
    ensures
        speaks_of(seq!['@'] + path, input) <==> input is File && (input->File_0)@ == path,
        arg.len() == 0 || arg[0] != '@' ==> (speaks_of(arg, input) <==> input is Inline
            && (input->Inline_0)@ == arg),
{
    assert((seq!['@'] + path).skip(1) =~= path);
}

} // verus!
