//! The library's error types.

use vstd::prelude::*;
use crate::events::input::KeyEvent;
use crate::events::input::KeyCode;
use crate::text::{decimal, push_chars, push_decimal, str_eq};

verus! {

/// `std::io::Error`, carried through unchanged.
#[verifier::external_type_specification]
#[verifier::external_body]
pub struct ExIoError(std::io::Error);

/// An error of the explorer.
#[derive(Debug)]
pub enum RTVUIError {
    FileSystemError(FileSystemErrors),
    SystemError(SystemError),
}

/// A filesystem error, with the path it concerns where there is one.
#[derive(Debug)]
pub enum FileSystemErrors {
    NotFound(String),
    PermissionDenied(String),
    Io(std::io::Error),
    InvalidPath(String),
}

/// An error outside the filesystem.
#[derive(Debug)]
pub enum SystemError {
    EventKeyError(KeyEvent),
}

/// The error that `raise_filesystem_error` builds for a kind name.
pub open spec fn filesystem_error_of(
    error_type: Seq<char>,
    path: String,
    error: std::io::Error,
) -> RTVUIError {
    if error_type == "NotFound"@ {
        RTVUIError::FileSystemError(FileSystemErrors::NotFound(path))
    } else if error_type == "PermissionDenied"@ {
        RTVUIError::FileSystemError(FileSystemErrors::PermissionDenied(path))
    } else if error_type == "InvalidPath"@ {
        RTVUIError::FileSystemError(FileSystemErrors::InvalidPath(path))
    } else {
        RTVUIError::FileSystemError(FileSystemErrors::Io(error))
    }
}

/// Builds a filesystem error from its kind name (`NotFound`,
/// `PermissionDenied`, `Io`, `InvalidPath`); any other name gives an I/O
/// error carrying `error`.
pub fn raise_filesystem_error(error_type: &str, path: String, error: std::io::Error) -> (r:
    RTVUIError)
    ensures
        r == filesystem_error_of(error_type@, path, error),
{
    proof {
        reveal_strlit("Io");
        reveal_strlit("NotFound");
        reveal_strlit("PermissionDenied");
        reveal_strlit("InvalidPath");
        assert("Io"@.len() == 2 && "InvalidPath"@.len() == 11);
        assert("Io"@ != "InvalidPath"@);
    }
    if str_eq(error_type, "NotFound") {
        RTVUIError::FileSystemError(FileSystemErrors::NotFound(path))
    } else if str_eq(error_type, "PermissionDenied") {
        RTVUIError::FileSystemError(FileSystemErrors::PermissionDenied(path))
    } else if str_eq(error_type, "Io") {
        RTVUIError::FileSystemError(FileSystemErrors::Io(error))
    } else if str_eq(error_type, "InvalidPath") {
        RTVUIError::FileSystemError(FileSystemErrors::InvalidPath(path))
    } else {
        RTVUIError::FileSystemError(FileSystemErrors::Io(error))
    }
}

/// Maps the failure of an I/O step to the explorer's I/O error.
pub fn handle_error<T>(result: Result<T, std::io::Error>, path: String) -> (r: Result<T, RTVUIError>)
    ensures
        result is Ok ==> r == Ok::<T, RTVUIError>(result->Ok_0),
        result is Err ==> r == Err::<T, RTVUIError>(
            RTVUIError::FileSystemError(FileSystemErrors::Io(result->Err_0)),
        ),
{
    match result {
        Ok(v) => Ok(v),
        Err(e) => {
            let r = raise_filesystem_error("Io", path, e);
            proof {
                reveal_strlit("Io");
                reveal_strlit("NotFound");
                assert("Io"@.len() == 2);
                assert("NotFound"@.len() == 8);
                assert("Io"@ != "NotFound"@);
                reveal_strlit("PermissionDenied");
                reveal_strlit("InvalidPath");
            }
            Err(r)
        },
    }
}


/// What `{:?}` prints for a string: the string in double quotes, with
/// quotes, backslashes and unprintable characters escaped.
pub uninterp spec fn debug_quoted(s: Seq<char>) -> Seq<char>;

/// What `{:?}` prints for a character: the character in single quotes,
/// escaped like a string's.
pub uninterp spec fn debug_char(c: char) -> Seq<char>;

/// `<str as Debug>::fmt`, through `format!`. Its text (the quoting and
/// escaping) is a function of the string alone; the contract names it
/// `debug_quoted`.
#[verifier::external_body]
fn str_debug(s: &str) -> (r: String)
    ensures
        r@ == debug_quoted(s@),
{
    format!("{s:?}")
}

/// `<char as Debug>::fmt`, through `format!`. The contract names the text
/// `debug_char`.
#[verifier::external_body]
fn char_debug(c: char) -> (r: String)
    ensures
        r@ == debug_char(c),
{
    format!("{c:?}")
}

/// `<std::io::Error as Debug>::fmt`, through `format!`. The text holds the
/// operating system's message, so nothing is claimed of it.
#[verifier::external_body]
fn io_error_debug(e: &std::io::Error) -> (r: String) {
    format!("{e:?}")
}

/// The debug text of a key code.
pub open spec fn key_code_text(c: KeyCode) -> Seq<char> {
    match c {
        KeyCode::Char(ch) => "Char("@ + debug_char(ch) + ")"@,
        KeyCode::Backspace => "Backspace"@,
        KeyCode::Enter => "Enter"@,
        KeyCode::Esc => "Esc"@,
        KeyCode::Left => "Left"@,
        KeyCode::Right => "Right"@,
        KeyCode::Up => "Up"@,
        KeyCode::Down => "Down"@,
        KeyCode::Home => "Home"@,
        KeyCode::End => "End"@,
        KeyCode::PageUp => "PageUp"@,
        KeyCode::PageDown => "PageDown"@,
        KeyCode::Tab => "Tab"@,
        KeyCode::BackTab => "BackTab"@,
        KeyCode::Delete => "Delete"@,
        KeyCode::Insert => "Insert"@,
        KeyCode::F(n) => "F("@ + decimal(n as nat) + ")"@,
        KeyCode::Other => "Other"@,
    }
}

/// Whether `t` is the debug text of `e` (the text `{:?}` prints): the
/// variants' names with their contents in brackets. The text of an I/O
/// error comes from the operating system, so for one only the frame
/// around it is fixed.
pub open spec fn error_text_of(e: RTVUIError, t: Seq<char>) -> bool {
    match e {
        RTVUIError::FileSystemError(f) => match f {
            FileSystemErrors::NotFound(p) => t == "FileSystemError(NotFound("@ + debug_quoted(p@) + "))"@,
            FileSystemErrors::PermissionDenied(p) => t == "FileSystemError(PermissionDenied("@
                + debug_quoted(p@) + "))"@,
            FileSystemErrors::InvalidPath(p) => t == "FileSystemError(InvalidPath("@ + debug_quoted(p@)
                + "))"@,
            FileSystemErrors::Io(_) => exists|m: Seq<char>| t == "FileSystemError(Io("@ + m + "))"@,
        },
        RTVUIError::SystemError(SystemError::EventKeyError(k)) => t
            == "SystemError(EventKeyError(KeyEvent { code: "@ + key_code_text(k.code) + " }))"@,
    }
}

fn push_key_code(s: &mut String, c: KeyCode)
    ensures
        final(s)@ == old(s)@ + key_code_text(c),
{
    match c {
        KeyCode::Char(ch) => {
            push_chars(s, "Char(");
            let t = char_debug(ch);
            push_chars(s, t.as_str());
            push_chars(s, ")");
        },
        KeyCode::Backspace => push_chars(s, "Backspace"),
        KeyCode::Enter => push_chars(s, "Enter"),
        KeyCode::Esc => push_chars(s, "Esc"),
        KeyCode::Left => push_chars(s, "Left"),
        KeyCode::Right => push_chars(s, "Right"),
        KeyCode::Up => push_chars(s, "Up"),
        KeyCode::Down => push_chars(s, "Down"),
        KeyCode::Home => push_chars(s, "Home"),
        KeyCode::End => push_chars(s, "End"),
        KeyCode::PageUp => push_chars(s, "PageUp"),
        KeyCode::PageDown => push_chars(s, "PageDown"),
        KeyCode::Tab => push_chars(s, "Tab"),
        KeyCode::BackTab => push_chars(s, "BackTab"),
        KeyCode::Delete => push_chars(s, "Delete"),
        KeyCode::Insert => push_chars(s, "Insert"),
        KeyCode::F(n) => {
            push_chars(s, "F(");
            push_decimal(s, n as u64);
            push_chars(s, ")");
        },
        KeyCode::Other => push_chars(s, "Other"),
    }
}

/// The debug text of an error (what `{:?}` prints for it).
pub fn error_text(e: &RTVUIError) -> (r: String)
    ensures
        error_text_of(*e, r@),
{
    let mut s = String::new();
    match e {
        RTVUIError::FileSystemError(FileSystemErrors::NotFound(p)) => {
            push_chars(&mut s, "FileSystemError(NotFound(");
            let q = str_debug(p.as_str());
            push_chars(&mut s, q.as_str());
            push_chars(&mut s, "))");
            assert(s@ =~= "FileSystemError(NotFound("@ + q@ + "))"@);
        },
        RTVUIError::FileSystemError(FileSystemErrors::PermissionDenied(p)) => {
            push_chars(&mut s, "FileSystemError(PermissionDenied(");
            let q = str_debug(p.as_str());
            push_chars(&mut s, q.as_str());
            push_chars(&mut s, "))");
            assert(s@ =~= "FileSystemError(PermissionDenied("@ + q@ + "))"@);
        },
        RTVUIError::FileSystemError(FileSystemErrors::InvalidPath(p)) => {
            push_chars(&mut s, "FileSystemError(InvalidPath(");
            let q = str_debug(p.as_str());
            push_chars(&mut s, q.as_str());
            push_chars(&mut s, "))");
            assert(s@ =~= "FileSystemError(InvalidPath("@ + q@ + "))"@);
        },
        RTVUIError::FileSystemError(FileSystemErrors::Io(io)) => {
            push_chars(&mut s, "FileSystemError(Io(");
            let q = io_error_debug(io);
            push_chars(&mut s, q.as_str());
            push_chars(&mut s, "))");
            assert(s@ =~= "FileSystemError(Io("@ + q@ + "))"@);
        },
        RTVUIError::SystemError(SystemError::EventKeyError(k)) => {
            push_chars(&mut s, "SystemError(EventKeyError(KeyEvent { code: ");
            let ghost mid = s@;
            push_key_code(&mut s, k.code);
            push_chars(&mut s, " }))");
            assert(s@ =~= "SystemError(EventKeyError(KeyEvent { code: "@ + key_code_text(k.code)
                + " }))"@);
        },
    }
    s
}

} // verus!
