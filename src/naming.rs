use vstd::prelude::*;

use crate::text::{ends_with, starts_with};

verus! {

/// What `Path::file_stem` gives for a path: its file name without the last
/// extension, empty where there is none.
pub uninterp spec fn file_stem_of(path: Seq<char>) -> Seq<char>;

/// What `Path::extension` gives for a path: the part of the file name after
/// its last dot, empty where there is none.
pub uninterp spec fn extension_of(path: Seq<char>) -> Seq<char>;

/// Relies on std::path::Path::file_stem, the result read as text.
#[verifier::external_body]
fn path_stem(path: &str) -> (r: String)
    ensures
        r@ == file_stem_of(path@),
{
    std::path::Path::new(path).file_stem().unwrap_or_default().to_string_lossy().into_owned()
}

/// Relies on std::path::Path::extension, the result read as text.
#[verifier::external_body]
fn path_extension(path: &str) -> (r: String)
    ensures
        r@ == extension_of(path@),
{
    std::path::Path::new(path).extension().unwrap_or_default().to_string_lossy().into_owned()
}

/// The character of a decimal digit.
pub open spec fn digit_char(d: nat) -> char {
    if d == 0 {
        '0'
    } else if d == 1 {
        '1'
    } else if d == 2 {
        '2'
    } else if d == 3 {
        '3'
    } else if d == 4 {
        '4'
    } else if d == 5 {
        '5'
    } else if d == 6 {
        '6'
    } else if d == 7 {
        '7'
    } else if d == 8 {
        '8'
    } else {
        '9'
    }
}

/// `n` written in decimal, without leading zeros.
pub open spec fn decimal(n: nat) -> Seq<char>
    decreases n,
{
    if n < 10 {
        seq![digit_char(n)]
    } else {
        decimal(n / 10) + seq![digit_char(n % 10)]
    }
}

/// The file name of a session's recording: the stem, an underscore, the
/// session number, a dot, and the extension, `wav` where there is none.
pub open spec fn recording_name(stem: Seq<char>, extension: Seq<char>, session: nat) -> Seq<
    char,
> {
    stem + seq!['_'] + decimal(session) + seq!['.'] + if extension.len() == 0 {
        seq!['w', 'a', 'v']
    } else {
        extension
    }
}

fn digit_str(d: u64) -> (r: &'static str)
    requires
        d < 10,
    ensures
        r@ == seq![digit_char(d as nat)],
{
    proof {
        reveal_strlit("0");
        reveal_strlit("1");
        reveal_strlit("2");
        reveal_strlit("3");
        reveal_strlit("4");
        reveal_strlit("5");
        reveal_strlit("6");
        reveal_strlit("7");
        reveal_strlit("8");
        reveal_strlit("9");
    }
    if d == 0 {
        "0"
    } else if d == 1 {
        "1"
    } else if d == 2 {
        "2"
    } else if d == 3 {
        "3"
    } else if d == 4 {
        "4"
    } else if d == 5 {
        "5"
    } else if d == 6 {
        "6"
    } else if d == 7 {
        "7"
    } else if d == 8 {
        "8"
    } else {
        "9"
    }
}

fn push_decimal(s: &mut String, n: u64)
    ensures
        final(s)@ == old(s)@ + decimal(n as nat),
    decreases n,
{
    if n >= 10 {
        push_decimal(s, n / 10);
    }
    s.append(digit_str(n % 10));
    proof {
        assert(old(s)@ + decimal(n as nat) =~= if n >= 10 {
            old(s)@ + decimal((n / 10) as nat) + seq![digit_char((n % 10) as nat)]
        } else {
            old(s)@ + seq![digit_char((n % 10) as nat)]
        });
    }
}

/// The file name of a session's recording, from the stem and extension of
/// the base path.
pub fn recording_file_name(stem: &str, extension: &str, session: u64) -> (r: String)
    ensures
        r@ == recording_name(stem@, extension@, session as nat),
{
    proof {
        reveal_strlit("_");
        reveal_strlit(".");
        reveal_strlit("wav");
    }
    let mut name = String::from_str(stem);
    name.append("_");
    push_decimal(&mut name, session);
    name.append(".");
    if extension.is_empty() {
        name.append("wav");
    } else {
        name.append(extension);
    }
    name
}

/// The file name of a session's recording next to `base`: `recording` and
/// session 3 give `recording_3.wav`, `take.flac` gives `take_3.flac`.
pub fn recording_path(base: &str, session: u64) -> (r: String)
    ensures
        r@ == recording_name(file_stem_of(base@), extension_of(base@), session as nat),
{
    let stem = path_stem(base);
    let extension = path_extension(base);
    recording_file_name(stem.as_str(), extension.as_str(), session)
}

/// Whether a file name is a recording left from an earlier run: it starts
/// with `prefix` and ends in `.wav`.
pub fn is_stale_recording(file_name: &str, prefix: &str) -> (r: bool)
    ensures
        r == (prefix@.is_prefix_of(file_name@) && seq!['.', 'w', 'a', 'v'].is_suffix_of(
            file_name@,
        )),
{
    proof {
        reveal_strlit(".wav");
    }
    starts_with(file_name, prefix) && ends_with(file_name, ".wav")
}

} // verus!
