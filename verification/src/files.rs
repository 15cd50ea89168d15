//! What the library knows of file names: the image formats it takes and the
//! name of the file that the text goes to.

use vstd::prelude::*;
use vstd::string::StringExecFns;
use crate::text::chars_of;

verus! {

/// A letter of the basic Latin alphabet in lower case; any other character
/// as it is.
pub open spec fn ascii_lower(c: char) -> char {
    if 'A' <= c && c <= 'Z' {
        (c as int + 32) as char
    } else {
        c
    }
}

/// A text with its basic Latin letters in lower case.
pub open spec fn lowered(s: Seq<char>) -> Seq<char> {
    Seq::new(s.len(), |i: int| ascii_lower(s[i]))
}

/// Whether a file name extension names an image format that can be read:
/// `png`, `jpg`, `jpeg`, `webp` or `bmp`, in upper or lower case.
pub open spec fn is_supported(ext: Seq<char>) -> bool {
    let name = lowered(ext);
    name == "png"@ || name == "jpg"@ || name == "jpeg"@ || name == "webp"@ || name == "bmp"@
}

fn to_ascii_lower(c: char) -> (l: char)
    ensures
        l == ascii_lower(c),
{
    if 'A' <= c && c <= 'Z' {
        ((c as u8) + 32) as char
    } else {
        c
    }
}

fn same_chars(a: &Vec<char>, b: &Vec<char>) -> (same: bool)
    ensures
        same == (a@ == b@),
{
    if a.len() != b.len() {
        return false;
    }
    let mut i: usize = 0;
    while i < a.len()
        invariant
            i <= a@.len(),
            a@.len() == b@.len(),
            a@.take(i as int) == b@.take(i as int),
        decreases a@.len() - i,
    {
        if a[i] != b[i] {
            return false;
        }
        assert(a@.take(i + 1) == a@.take(i as int).push(a@[i as int]));
        assert(b@.take(i + 1) == b@.take(i as int).push(b@[i as int]));
        i += 1;
    }
    assert(a@.take(a@.len() as int) == a@);
    assert(b@.take(b@.len() as int) == b@);
    true
}

/// Whether a file name extension, given without its dot, names an image
/// format that can be read.
pub fn supported_extension(ext: &str) -> (b: bool)
    ensures
        b == is_supported(ext@),
{
    let chars = chars_of(ext);
    let mut name: Vec<char> = Vec::new();
    let mut i: usize = 0;
    while i < chars.len()
        invariant
            i <= chars@.len(),
            name@ == lowered(chars@).take(i as int),
        decreases chars@.len() - i,
    {
        name.push(to_ascii_lower(chars[i]));
        proof {
            let all = lowered(chars@);
            assert(all.take(i + 1) == all.take(i as int).push(all[i as int]));
        }
        i += 1;
    }
    assert(lowered(chars@).take(chars@.len() as int) == lowered(chars@));
    same_chars(&name, &chars_of("png"))
        || same_chars(&name, &chars_of("jpg"))
        || same_chars(&name, &chars_of("jpeg"))
        || same_chars(&name, &chars_of("webp"))
        || same_chars(&name, &chars_of("bmp"))
}

/// The name of the file that the text is written to: the output path with
/// `ascii_output.txt` straight after it, no separator between them.
pub fn output_file_name(output_path: &str) -> (name: String)
    ensures
        name@ == output_path@ + "ascii_output.txt"@,
{
    String::from_str(output_path).concat("ascii_output.txt")
}

} // verus!
