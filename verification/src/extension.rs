//! The file extension that a `content-type` header value stands for, and the
//! name of the file a download is written to.

use crate::date::{date_text, is_date_text, lemma_date_text_is_digits_and_dashes};
use crate::text::{push_char, text_of};
use vstd::prelude::*;
use vstd::string::StringExecFns;

verus! {

/// The byte `/`, which parts the type from the subtype.
pub const SEPARATOR: u8 = 47;

/// The byte of the space, the first printable one.
pub const SPACE: u8 = 32;

/// The byte of the delete control, which follows the last printable one.
pub const DELETE: u8 = 127;

/// The byte of the tab.
pub const TAB: u8 = 9;

/// The default extension, used whenever the header gives none.
pub open spec fn default_extension() -> Seq<char> {
    seq!['t', 'x', 't']
}

/// A byte that may stand in a header value read as text: a printable ASCII
/// character, a space or a tab.
pub open spec fn is_visible_ascii(b: u8) -> bool {
    SPACE <= b < DELETE || b == TAB
}

/// Whether a header value can be read as text: every byte of it is visible.
pub open spec fn is_header_text(value: Seq<u8>) -> bool {
    forall|i: int| 0 <= i < value.len() ==> is_visible_ascii(#[trigger] value[i])
}

/// The position of the last `/` in `value`, or -1 when it holds none.
pub open spec fn last_separator(value: Seq<u8>) -> int
    decreases value.len(),
{
    if value.len() == 0 {
        -1
    } else if value.last() == SEPARATOR {
        value.len() - 1
    } else {
        last_separator(value.drop_last())
    }
}

/// The bytes of `value` read as characters, one for one.
pub open spec fn as_text(value: Seq<u8>) -> Seq<char> {
    Seq::new(value.len(), |i: int| value[i] as char)
}

/// What follows the last `/` of `value`.
pub open spec fn subtype(value: Seq<u8>) -> Seq<u8> {
    value.subrange(last_separator(value) + 1, value.len() as int)
}

/// Why a response gives no file extension.
#[derive(Debug, Clone, Copy, PartialEq, Eq, Structural)]
pub enum ExtensionError {
    /// The response has no `content-type` header.
    MissingHeader,
    /// The header value holds a byte that is not visible ASCII.
    InvalidValue,
    /// The header value holds no `/`.
    NoSubtype,
}

/// The extension that a header stands for, as a function of the header alone:
/// the text after its last `/`.
pub open spec fn extension_of(content_type: Option<Seq<u8>>) -> Result<Seq<char>, ExtensionError> {
    match content_type {
        None => Err(ExtensionError::MissingHeader),
        Some(value) => if !is_header_text(value) {
            Err(ExtensionError::InvalidValue)
        } else if last_separator(value) < 0 {
            Err(ExtensionError::NoSubtype)
        } else {
            Ok(as_text(subtype(value)))
        },
    }
}

/// The extension a download is saved under: the one the header stands for,
/// or the default when it stands for none.
pub open spec fn extension_or_default_of(content_type: Option<Seq<u8>>) -> Seq<char> {
    match extension_of(content_type) {
        Ok(extension) => extension,
        Err(_) => default_extension(),
    }
}

/// The header value as a sequence of bytes, when there is one.
pub open spec fn header_bytes(content_type: Option<&[u8]>) -> Option<Seq<u8>> {
    match content_type {
        Some(value) => Some(value@),
        None => None,
    }
}

/// `<date>.<extension>`.
pub open spec fn file_name_of(date: Seq<char>, extension: Seq<char>) -> Seq<char> {
    date + seq!['.'] + extension
}

/// The sentence that tells why no extension was read.
pub open spec fn extension_message(error: ExtensionError) -> Seq<char> {
    match error {
        ExtensionError::MissingHeader => "No content-type header found"@,
        _ => "Could not get file extension"@,
    }
}

impl ExtensionError {
    /// A sentence for the person who runs the program.
    pub fn message(&self) -> (text: String)
        ensures
            text@ == extension_message(*self),
    {
        match self {
            ExtensionError::MissingHeader => String::from_str("No content-type header found"),
            _ => String::from_str("Could not get file extension"),
        }
    }
}

fn is_visible_byte(b: u8) -> (visible: bool)
    ensures
        visible == is_visible_ascii(b),
{
    (b >= SPACE && b < DELETE) || b == TAB
}

/// Reads the extension off the value of a `content-type` header, given as the
/// header's bytes, or as `None` when the response has no such header.
///
/// The value must be text, that is visible ASCII throughout, and hold a `/`;
/// the extension is what follows the last `/`, which may be empty.
pub fn get_file_extension(content_type: Option<&[u8]>) -> (result: Result<
    String,
    ExtensionError,
>)
    ensures
        text_of(result) == extension_of(header_bytes(content_type)),
{
    let value = match content_type {
        None => {
            return Err(ExtensionError::MissingHeader);
        },
        Some(value) => value,
    };
    let mut separator: Option<usize> = None;
    let mut i: usize = 0;
    while i < value.len()
        invariant
            header_bytes(content_type) == Some(value@),
            i <= value.len(),
            is_header_text(value@.take(i as int)),
            match separator {
                Some(k) => k < i && k as int == last_separator(value@.take(i as int)),
                None => last_separator(value@.take(i as int)) == -1,
            },
        decreases value.len() - i,
    {
        proof {
            assert(value@.take(i + 1).drop_last() =~= value@.take(i as int));
        }
        if !is_visible_byte(value[i]) {
            proof {
                assert(!is_visible_ascii(value@[i as int]));
            }
            return Err(ExtensionError::InvalidValue);
        }
        if value[i] == SEPARATOR {
            separator = Some(i);
        }
        i += 1;
    }
    proof {
        assert(value@.take(i as int) =~= value@);
    }
    let start = match separator {
        None => {
            return Err(ExtensionError::NoSubtype);
        },
        Some(k) => k + 1,
    };
    let mut extension = String::new();
    let mut j: usize = start;
    while j < value.len()
        invariant
            start <= j <= value.len(),
            extension@ == as_text(value@.subrange(start as int, j as int)),
        decreases value.len() - j,
    {
        push_char(&mut extension, value[j] as char);
        proof {
            assert(as_text(value@.subrange(start as int, j + 1)) =~= as_text(
                value@.subrange(start as int, j as int),
            ).push(value[j as int] as char));
        }
        j += 1;
    }
    Ok(extension)
}

/// The extension a download is saved under: the one that
/// [`get_file_extension`] reads, or `txt` when it reads none.
pub fn extension_or_default(content_type: Option<&[u8]>) -> (extension: String)
    ensures
        extension@ == extension_or_default_of(header_bytes(content_type)),
        content_type is None ==> extension@ == default_extension(),
{
    match get_file_extension(content_type) {
        Ok(extension) => extension,
        Err(_) => {
            proof {
                reveal_strlit("txt");
                assert("txt"@ =~= default_extension());
            }
            String::from_str("txt")
        },
    }
}

/// The name of the file a download is written to: the date, a dot, and the
/// extension.
pub fn file_name(date: &str, extension: &str) -> (name: String)
    ensures
        name@ == file_name_of(date@, extension@),
{
    let mut name = String::from_str(date);
    push_char(&mut name, '.');
    name.append(extension);
    name
}

/// The name under which the body of a response is saved on the day `date`:
/// `<date>.<extension>`, with the extension that the `content-type` header
/// stands for, and `<date>.txt` when the header is missing or unusable.
pub fn download_file_name(date: &str, content_type: Option<&[u8]>) -> (name: String)
    ensures
        name@ == file_name_of(date@, extension_or_default_of(header_bytes(content_type))),
        content_type is None ==> name@ == date@ + seq!['.', 't', 'x', 't'],
{
    let extension = extension_or_default(content_type);
    let name = file_name(date, extension.as_str());
    proof {
        assert(date@ + seq!['.'] + seq!['t', 'x', 't'] =~= date@ + seq!['.', 't', 'x', 't']);
    }
    name
}

/// The position that [`last_separator`] gives is that of a `/` with no `/`
/// after it: an extension never holds one.
pub proof fn lemma_last_separator(value: Seq<u8>)
    ensures
        -1 <= last_separator(value) < value.len(),
        last_separator(value) >= 0 ==> value[last_separator(value)] == SEPARATOR,
        forall|j: int| last_separator(value) < j < value.len() ==> value[j] != SEPARATOR,
    decreases value.len(),
{
    if value.len() > 0 && value.last() != SEPARATOR {
        let front = value.drop_last();
        lemma_last_separator(front);
        assert forall|j: int| last_separator(value) < j < value.len() implies value[j] != SEPARATOR by {
            if j < front.len() {
                assert(front[j] == value[j]);
            }
        }
    }
}

/// An extension never holds a `/`, whatever the header: a file name made of
/// it cannot name a file outside the directory it is created in.
pub proof fn lemma_extension_holds_no_separator(content_type: Option<Seq<u8>>)
    ensures
        !extension_or_default_of(content_type).contains('/'),
{
    let extension = extension_or_default_of(content_type);
    if extension.contains('/') {
        let i = choose|i: int| 0 <= i < extension.len() && extension[i] == '/';
        match extension_of(content_type) {
            Ok(_) => {
                let value = content_type->Some_0;
                lemma_last_separator(value);
                let j = last_separator(value) + 1 + i;
                assert(subtype(value)[i] == value[j]);
                assert(value[j] as char == '/');
                assert(value[j] == SEPARATOR);
            },
            Err(_) => {},
        }
    }
}

/// The name that a download gets on any day holds no `/`, whatever the header
/// says: the file is created in the destination directory and nowhere else.
pub proof fn lemma_file_name_holds_no_separator(today: Seq<char>, content_type: Option<Seq<u8>>)
    requires
        is_date_text(today),
    ensures
        !file_name_of(today, extension_or_default_of(content_type)).contains('/'),
{
    let extension = extension_or_default_of(content_type);
    let name = file_name_of(today, extension);
    if name.contains('/') {
        let i = choose|i: int| 0 <= i < name.len() && name[i] == '/';
        if i < today.len() {
            let (year, month, day) = choose|year: i32, month: u32, day: u32|
                1 <= month <= 12 && 1 <= day <= 31 && today == #[trigger] date_text(
                    year as int,
                    month as nat,
                    day as nat,
                );
            lemma_date_text_is_digits_and_dashes(year as int, month as nat, day as nat);
            assert(name[i] == today[i]);
        } else if i > today.len() {
            lemma_extension_holds_no_separator(content_type);
            assert(extension[i - today.len() - 1] == name[i]);
        }
    }
}

} // verus!
