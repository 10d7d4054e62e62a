use vstd::prelude::*;
use crate::address::address_of;
use crate::note::{byte_len, content_fits, title_error, NoteError, MAX_CONTENT_LEN, MAX_TITLE_LEN};
use crate::pubkey::Pubkey;
use crate::store::{access_error, create_outcome, delete_outcome, notes_wf, update_outcome, Notes};

verus! {

/// A create with a valid title and content at a free address succeeds, and
/// reading the address back gives a note whose fields are the inputs and
/// whose two timestamps are equal.
pub proof fn lemma_create_then_read(
    m: Notes,
    user: Pubkey,
    bump: u8,
    now: i64,
    title: String,
    content: String,
)
    requires
        1 <= byte_len(title@) <= MAX_TITLE_LEN,
        byte_len(content@) <= MAX_CONTENT_LEN,
        !m.contains_key(address_of(user@, title@)),
    ensures
        ({
            let (m2, r) = create_outcome(m, user, bump, now, title, content);
            let n = m2[address_of(user@, title@)];
            &&& r is Ok
            &&& m2.contains_key(address_of(user@, title@))
            &&& n.owner == user
            &&& n.title == title
            &&& n.content == content
            &&& n.created_at == now
            &&& n.created_at == n.updated_at
            &&& n.bump == bump
        }),
{
}

/// A create with an empty title fails with `TitleEmpty`, whatever the
/// content, and stores nothing.
pub proof fn lemma_create_empty_title(
    m: Notes,
    user: Pubkey,
    bump: u8,
    now: i64,
    title: String,
    content: String,
)
    requires
        byte_len(title@) == 0,
    ensures
        create_outcome(m, user, bump, now, title, content) == (m, Err::<(), NoteError>(NoteError::TitleEmpty)),
{
}

/// A create with a title over the limit fails with `TitleTooLong`; a title
/// of exactly the limit is accepted.
pub proof fn lemma_create_title_limit(
    m: Notes,
    user: Pubkey,
    bump: u8,
    now: i64,
    title: String,
    content: String,
)
    ensures
        byte_len(title@) > MAX_TITLE_LEN ==> create_outcome(m, user, bump, now, title, content)
            == (m, Err::<(), NoteError>(NoteError::TitleTooLong)),
        byte_len(title@) == MAX_TITLE_LEN && content_fits(content@) && !m.contains_key(
            address_of(user@, title@),
        ) ==> create_outcome(m, user, bump, now, title, content).1 is Ok,
{
}

/// A create with a valid title and content over the limit fails with
/// `ContentTooLong`; content of exactly the limit is accepted.
pub proof fn lemma_create_content_limit(
    m: Notes,
    user: Pubkey,
    bump: u8,
    now: i64,
    title: String,
    content: String,
)
    requires
        title_error(title@) is None,
    ensures
        byte_len(content@) > MAX_CONTENT_LEN ==> create_outcome(m, user, bump, now, title, content)
            == (m, Err::<(), NoteError>(NoteError::ContentTooLong)),
        byte_len(content@) == MAX_CONTENT_LEN && !m.contains_key(address_of(user@, title@))
            ==> create_outcome(m, user, bump, now, title, content).1 is Ok,
{
}

/// After a create succeeds, a second create by the same user under the same
/// title fails with `AlreadyExists` and leaves the first note as it was.
pub proof fn lemma_create_twice(
    m: Notes,
    user: Pubkey,
    bump1: u8,
    now1: i64,
    content1: String,
    bump2: u8,
    now2: i64,
    content2: String,
    title: String,
)
    requires
        create_outcome(m, user, bump1, now1, title, content1).1 is Ok,
        content_fits(content2@),
    ensures
        ({
            let m1 = create_outcome(m, user, bump1, now1, title, content1).0;
            create_outcome(m1, user, bump2, now2, title, content2) == (
                m1,
                Err::<(), NoteError>(NoteError::AlreadyExists),
            )
        }),
{
}

/// An update by anyone but the note's owner fails with `Unauthorized` and
/// changes nothing.
pub proof fn lemma_update_by_stranger(
    m: Notes,
    addr: Seq<u8>,
    user: Pubkey,
    bump: u8,
    now: i64,
    title: Option<String>,
    content: Option<String>,
)
    requires
        m.contains_key(addr),
        m[addr].owner@ != user@,
    ensures
        update_outcome(m, addr, user, bump, now, title, content) == (m, Err::<(), NoteError>(NoteError::Unauthorized)),
{
}

/// An update by the owner of a note that its owner and stored title still
/// derive, with the recorded discriminator and no overrides, succeeds: title,
/// content and creation time stay, and the modification time becomes `now`,
/// or stays where it was if `now` is earlier.
pub proof fn lemma_update_without_overrides(m: Notes, addr: Seq<u8>, user: Pubkey, bump: u8, now: i64)
    requires
        m.contains_key(addr),
        m[addr].owner@ == user@,
        address_of(m[addr].owner@, m[addr].title@) == addr,
        m[addr].bump == bump,
    ensures
        ({
            let (m2, r) = update_outcome(m, addr, user, bump, now, None, None);
            &&& r is Ok
            &&& m2.contains_key(addr)
            &&& m2[addr].owner == m[addr].owner
            &&& m2[addr].title == m[addr].title
            &&& m2[addr].content == m[addr].content
            &&& m2[addr].created_at == m[addr].created_at
            &&& m2[addr].updated_at >= m[addr].updated_at
            &&& m2[addr].updated_at >= now
            &&& (now >= m[addr].updated_at ==> m2[addr].updated_at == now)
            &&& m2.remove(addr) == m.remove(addr)
        }),
{
    let m2 = update_outcome(m, addr, user, bump, now, None, None).0;
    assert(m2.remove(addr) =~= m.remove(addr));
}

/// An update that proposes an invalid title fails as a whole, whatever
/// content it proposes: nothing is written. Where the note is otherwise open
/// to the call, the error is the title's own.
pub proof fn lemma_update_bad_title(
    m: Notes,
    addr: Seq<u8>,
    user: Pubkey,
    bump: u8,
    now: i64,
    title: String,
    content: Option<String>,
)
    requires
        title_error(title@) is Some,
    ensures
        update_outcome(m, addr, user, bump, now, Some(title), content).0 == m,
        update_outcome(m, addr, user, bump, now, Some(title), content).1 is Err,
        access_error(m, addr, user, bump) is None ==> update_outcome(
            m,
            addr,
            user,
            bump,
            now,
            Some(title),
            content,
        ).1 == Err::<(), NoteError>(title_error(title@)->Some_0),
{
}

/// A delete by the owner of a note that its owner and stored title still
/// derive, with the recorded discriminator, succeeds and removes that note
/// alone.
pub proof fn lemma_delete_by_owner(m: Notes, addr: Seq<u8>, user: Pubkey, bump: u8)
    requires
        m.contains_key(addr),
        m[addr].owner@ == user@,
        address_of(m[addr].owner@, m[addr].title@) == addr,
        m[addr].bump == bump,
    ensures
        delete_outcome(m, addr, user, bump) == (m.remove(addr), Ok::<(), NoteError>(())),
{
}

/// Once a note's stored title no longer derives its address, its owner can
/// neither update nor delete it there: both fail with `NotFound` and change
/// nothing.
pub proof fn lemma_renamed_note_unreachable(
    m: Notes,
    addr: Seq<u8>,
    user: Pubkey,
    bump: u8,
    now: i64,
    title: Option<String>,
    content: Option<String>,
)
    requires
        m.contains_key(addr),
        m[addr].owner@ == user@,
        address_of(m[addr].owner@, m[addr].title@) != addr,
    ensures
        update_outcome(m, addr, user, bump, now, title, content) == (m, Err::<(), NoteError>(NoteError::NotFound)),
        delete_outcome(m, addr, user, bump) == (m, Err::<(), NoteError>(NoteError::NotFound)),
{
}

/// Once a delete succeeds, a later update or delete at the same address
/// fails with `NotFound`.
pub proof fn lemma_delete_then_gone(
    m: Notes,
    addr: Seq<u8>,
    user: Pubkey,
    bump: u8,
    user2: Pubkey,
    bump2: u8,
    now2: i64,
    title2: Option<String>,
    content2: Option<String>,
)
    requires
        delete_outcome(m, addr, user, bump).1 is Ok,
    ensures
        ({
            let m1 = delete_outcome(m, addr, user, bump).0;
            &&& update_outcome(m1, addr, user2, bump2, now2, title2, content2).1 == Err::<(), NoteError>(
                NoteError::NotFound,
            )
            &&& delete_outcome(m1, addr, user2, bump2).1 == Err::<(), NoteError>(NoteError::NotFound)
        }),
{
}

/// A delete by anyone but the note's owner fails with `Unauthorized` and
/// leaves the note in place, unchanged.
pub proof fn lemma_delete_by_stranger(m: Notes, addr: Seq<u8>, user: Pubkey, bump: u8)
    requires
        m.contains_key(addr),
        m[addr].owner@ != user@,
    ensures
        delete_outcome(m, addr, user, bump) == (m, Err::<(), NoteError>(NoteError::Unauthorized)),
{
}

/// A note found at the address derived from `owner` and some title is
/// owned by `owner`.
pub proof fn lemma_owner_of_address(m: Notes, owner: Seq<u8>, title: Seq<char>)
    requires
        notes_wf(m),
        owner.len() == 32,
        m.contains_key(address_of(owner, title)),
    ensures
        m[address_of(owner, title)].owner@ == owner,
{
    assert(address_of(owner, title).subrange(4, 36) =~= owner);
}

} // verus!
