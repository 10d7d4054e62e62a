use vstd::prelude::*;
use vstd::utf8::encode_utf8;
use crate::pubkey::Pubkey;

verus! {

/// Largest title, in bytes.
pub const MAX_TITLE_LEN: usize = 50;

/// Largest content, in bytes.
pub const MAX_CONTENT_LEN: usize = 500;

/// Why an operation on the store was refused.
#[derive(Clone, Copy, Debug, PartialEq, Eq, Structural)]
pub enum NoteError {
    /// The title is over `MAX_TITLE_LEN` bytes.
    TitleTooLong,
    /// The content is over `MAX_CONTENT_LEN` bytes.
    ContentTooLong,
    /// The title is empty.
    TitleEmpty,
    /// The caller does not own the note.
    Unauthorized,
    /// A note is already stored at the derived address.
    AlreadyExists,
    /// No note is stored at the derived address, or its recorded
    /// discriminator differs from the one given.
    NotFound,
}

/// The bytes of a text in UTF-8.
pub open spec fn text_bytes(s: Seq<char>) -> Seq<u8> {
    encode_utf8(s)
}

/// The length of a text in bytes.
pub open spec fn byte_len(s: Seq<char>) -> nat {
    text_bytes(s).len()
}

/// The error that a proposed title raises, if any.
pub open spec fn title_error(t: Seq<char>) -> Option<NoteError> {
    if byte_len(t) == 0 {
        Some(NoteError::TitleEmpty)
    } else if byte_len(t) > MAX_TITLE_LEN {
        Some(NoteError::TitleTooLong)
    } else {
        None
    }
}

/// Whether a content fits.
pub open spec fn content_fits(c: Seq<char>) -> bool {
    byte_len(c) <= MAX_CONTENT_LEN
}

/// One owned note.
#[derive(Clone, Debug)]
pub struct Note {
    /// The principal that created the note; never changes.
    pub owner: Pubkey,
    /// Between one and `MAX_TITLE_LEN` bytes.
    pub title: String,
    /// At most `MAX_CONTENT_LEN` bytes.
    pub content: String,
    /// Set once, when the note is created.
    pub created_at: i64,
    /// Set at creation and refreshed by every successful update.
    pub updated_at: i64,
    /// The address discriminator recorded at creation.
    pub bump: u8,
}

impl Note {
    /// A note whose fields keep the limits and whose timestamps are ordered.
    pub open spec fn wf(&self) -> bool {
        &&& title_error(self.title@).is_none()
        &&& content_fits(self.content@)
        &&& self.created_at <= self.updated_at
    }
}

/// The byte length of a text.
pub fn text_len(s: &String) -> (r: usize)
    ensures
        r == byte_len(s@),
{
    s.as_str().as_bytes().len()
}

/// Checks a proposed title: not empty, then not over the limit.
pub fn check_title(t: &String) -> (r: Result<(), NoteError>)
    ensures
        r is Ok <==> title_error(t@).is_none(),
        r is Err ==> title_error(t@) == Some(r->Err_0),
{
    let n = text_len(t);
    if n == 0 {
        Err(NoteError::TitleEmpty)
    } else if n > MAX_TITLE_LEN {
        Err(NoteError::TitleTooLong)
    } else {
        Ok(())
    }
}

/// Checks a proposed content against its limit.
pub fn check_content(c: &String) -> (r: Result<(), NoteError>)
    ensures
        r is Ok <==> content_fits(c@),
        r is Err ==> r->Err_0 == NoteError::ContentTooLong,
{
    if text_len(c) > MAX_CONTENT_LEN {
        Err(NoteError::ContentTooLong)
    } else {
        Ok(())
    }
}

} // verus!
