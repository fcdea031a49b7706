//! How an audio file is named after the title of its track.
//!
//! A title becomes a file name by replacing every character that is unsafe in
//! a file name, or that the acquisition tool reads as part of an output
//! template, with an underscore. The replacement is character by character, so
//! the name is as long as the title and depends on nothing else.

use crate::text::push_char;
use vstd::prelude::*;
use vstd::string::*;

verus! {

/// The characters that do not go into a file name: the path separators, the
/// characters that common file systems reserve, the percent sign, and the
/// control characters.
pub open spec fn replaced_in_file_name(c: char) -> bool {
    c == '/' || c == '\\' || c == ':' || c == '*' || c == '?' || c == '"' || c == '<' || c == '>'
        || c == '|' || c == '%' || (c as u32) < 32 || c as u32 == 127
}

/// The character that stands for `c` in a file name.
pub open spec fn safe_char(c: char) -> char {
    if replaced_in_file_name(c) {
        '_'
    } else {
        c
    }
}

/// The file name made from a title.
pub open spec fn sanitized(title: Seq<char>) -> Seq<char> {
    Seq::new(title.len(), |i: int| safe_char(title[i]))
}

/// Where the audio file of a track with this title lies under `output_dir`.
pub open spec fn file_path_for(output_dir: Seq<char>, title: Seq<char>) -> Seq<char> {
    output_dir + "/"@ + sanitized(title) + ".mp3"@
}

/// The character that stands for `c` in a file name.
pub fn sanitize_char(c: char) -> (safe: char)
    ensures
        safe == safe_char(c),
{
    if c == '/' || c == '\\' || c == ':' || c == '*' || c == '?' || c == '"' || c == '<' || c == '>'
        || c == '|' || c == '%' || (c as u32) < 32 || c as u32 == 127 {
        '_'
    } else {
        c
    }
}

/// The file name made from a title: the title with every unsafe character
/// replaced by an underscore.
pub fn sanitize_title(title: &str) -> (name: String)
    ensures
        name@ == sanitized(title@),
{
    let mut name = String::new();
    for c in it: title.chars()
        invariant
            it.seq() == title@,
            name@ == sanitized(title@.take(it.index() as int)),
    {
        push_char(&mut name, sanitize_char(c));
    }
    name
}

/// Where the audio file of a track with this title lies under `output_dir`:
/// the directory, a slash, the file name made from the title, and `.mp3`.
pub fn expected_file_path(output_dir: &str, title: &str) -> (path: String)
    ensures
        path@ == file_path_for(output_dir@, title@),
{
    let mut path = output_dir.to_owned();
    path.append("/");
    path.append(sanitize_title(title).as_str());
    path.append(".mp3");
    path
}

} // verus!
