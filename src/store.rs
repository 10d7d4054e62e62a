use vstd::prelude::*;
use crate::address::{address_of, note_address, same_bytes};
use crate::note::{check_content, check_title, content_fits, title_error, Note, NoteError};
use crate::pubkey::Pubkey;

verus! {

/// The stored notes, keyed by address.
pub type Notes = Map<Seq<u8>, Note>;

/// Every stored note keeps the field limits and ordered timestamps, and its
/// owner is the owner that its address was derived from.
pub open spec fn notes_wf(m: Notes) -> bool {
    forall|a: Seq<u8>|
        #[trigger] m.contains_key(a) ==> {
            &&& m[a].wf()
            &&& a.len() >= 36
            &&& a.subrange(4, 36) == m[a].owner@
        }
}

/// What a create leaves behind and returns.
pub open spec fn create_outcome(
    m: Notes,
    user: Pubkey,
    bump: u8,
    now: i64,
    title: String,
    content: String,
) -> (Notes, Result<(), NoteError>) {
    let addr = address_of(user@, title@);
    if title_error(title@) is Some {
        (m, Err(title_error(title@)->Some_0))
    } else if !content_fits(content@) {
        (m, Err(NoteError::ContentTooLong))
    } else if m.contains_key(addr) {
        (m, Err(NoteError::AlreadyExists))
    } else {
        let n = Note { owner: user, title, content, created_at: now, updated_at: now, bump };
        (m.insert(addr, n), Ok(()))
    }
}

/// The error, if any, that stops an update or a delete of the note at `addr`
/// before its fields are looked at: no note there, a caller who is not its
/// owner, an address that its owner and stored title no longer derive, or a
/// discriminator other than the recorded one.
pub open spec fn access_error(m: Notes, addr: Seq<u8>, user: Pubkey, bump: u8) -> Option<
    NoteError,
> {
    if !m.contains_key(addr) {
        Some(NoteError::NotFound)
    } else if m[addr].owner@ != user@ {
        Some(NoteError::Unauthorized)
    } else if address_of(m[addr].owner@, m[addr].title@) != addr {
        Some(NoteError::NotFound)
    } else if m[addr].bump != bump {
        Some(NoteError::NotFound)
    } else {
        None
    }
}

/// The error, if any, that the proposed new fields of an update raise.
pub open spec fn override_error(title: Option<String>, content: Option<String>) -> Option<
    NoteError,
> {
    if title is Some && title_error(title->Some_0@) is Some {
        title_error(title->Some_0@)
    } else if content is Some && !content_fits(content->Some_0@) {
        Some(NoteError::ContentTooLong)
    } else {
        None
    }
}

/// The note after a successful update: overridden fields replaced, the
/// modification time moved to `now` unless that would move it backwards.
pub open spec fn updated_note(n: Note, now: i64, title: Option<String>, content: Option<String>) -> Note {
    Note {
        title: if title is Some { title->Some_0 } else { n.title },
        content: if content is Some { content->Some_0 } else { n.content },
        updated_at: if now > n.updated_at { now } else { n.updated_at },
        ..n
    }
}

/// What an update leaves behind and returns.
pub open spec fn update_outcome(
    m: Notes,
    addr: Seq<u8>,
    user: Pubkey,
    bump: u8,
    now: i64,
    title: Option<String>,
    content: Option<String>,
) -> (Notes, Result<(), NoteError>) {
    if access_error(m, addr, user, bump) is Some {
        (m, Err(access_error(m, addr, user, bump)->Some_0))
    } else if override_error(title, content) is Some {
        (m, Err(override_error(title, content)->Some_0))
    } else {
        (m.insert(addr, updated_note(m[addr], now, title, content)), Ok(()))
    }
}

/// What a delete leaves behind and returns.
pub open spec fn delete_outcome(m: Notes, addr: Seq<u8>, user: Pubkey, bump: u8) -> (
    Notes,
    Result<(), NoteError>,
) {
    if access_error(m, addr, user, bump) is Some {
        (m, Err(access_error(m, addr, user, bump)->Some_0))
    } else {
        (m.remove(addr), Ok(()))
    }
}

/// A stored note together with the address it was created at.
struct Slot {
    address: Vec<u8>,
    note: Note,
}

/// The collection of notes, each at the address derived from its owner and
/// the title it was created with.
pub struct NoteStore {
    slots: Vec<Slot>,
    model: Ghost<Notes>,
}

impl View for NoteStore {
    type V = Notes;

    closed spec fn view(&self) -> Notes {
        self.model@
    }
}

impl NoteStore {
    /// The slots hold exactly the notes of the model, one per address.
    pub closed spec fn inv(&self) -> bool {
        &&& forall|i: int|
            0 <= i < self.slots@.len() ==> {
                &&& self.model@.contains_key(#[trigger] self.slots@[i].address@)
                &&& self.model@[self.slots@[i].address@] == self.slots@[i].note
            }
        &&& forall|a: Seq<u8>|
            #[trigger] self.model@.contains_key(a) ==> exists|i: int|
                0 <= i < self.slots@.len() && #[trigger] self.slots@[i].address@ == a
        &&& forall|i: int, j: int|
            0 <= i < j < self.slots@.len() ==> #[trigger] self.slots@[i].address@
                != #[trigger] self.slots@[j].address@
    }

    /// A store in a consistent state.
    pub open spec fn wf(&self) -> bool {
        self.inv() && notes_wf(self@)
    }

    /// An empty store.
    pub fn new() -> (r: NoteStore)
        ensures
            r.wf(),
            r@ == Notes::empty(),
    {
        NoteStore { slots: Vec::new(), model: Ghost(Map::empty()) }
    }

    /// The slot at `addr`, if a note is stored there.
    fn find(&self, addr: &Vec<u8>) -> (r: Option<usize>)
        requires
            self.inv(),
        ensures
            r is None <==> !self@.contains_key(addr@),
            r is Some ==> r->Some_0 < self.slots@.len() && self.slots@[r->Some_0 as int].address@
                == addr@,
    {
        let mut i: usize = 0;
        while i < self.slots.len()
            invariant
                self.inv(),
                i <= self.slots@.len(),
                forall|j: int| 0 <= j < i ==> self.slots@[j].address@ != addr@,
            decreases self.slots@.len() - i,
        {
            if same_bytes(&self.slots[i].address, addr) {
                return Some(i);
            }
            i = i + 1;
        }
        None
    }

    /// The slot of the note at `addr`, if `user` may change it with the
    /// discriminator `bump`.
    fn check_access(&self, addr: &Vec<u8>, user: &Pubkey, bump: u8) -> (r: Result<usize, NoteError>)
        requires
            self.inv(),
        ensures
            r is Err <==> access_error(self@, addr@, *user, bump) is Some,
            r is Err ==> r->Err_0 == access_error(self@, addr@, *user, bump)->Some_0,
            r is Ok ==> r->Ok_0 < self.slots@.len() && self.slots@[r->Ok_0 as int].address@
                == addr@,
    {
        let i = match self.find(addr) {
            Some(i) => i,
            None => return Err(NoteError::NotFound),
        };
        let note = &self.slots[i].note;
        if note.owner != *user {
            return Err(NoteError::Unauthorized);
        }
        let derived = note_address(&note.owner, &note.title);
        if !same_bytes(&derived, addr) {
            return Err(NoteError::NotFound);
        }
        if note.bump != bump {
            return Err(NoteError::NotFound);
        }
        Ok(i)
    }

    /// The note that `owner` holds under `title`, if any.
    pub fn get(&self, owner: &Pubkey, title: &String) -> (r: Option<&Note>)
        requires
            self.wf(),
        ensures
            r is None <==> !self@.contains_key(address_of(owner@, title@)),
            r is Some ==> *r->Some_0 == self@[address_of(owner@, title@)],
    {
        let addr = note_address(owner, title);
        match self.find(&addr) {
            Some(i) => Some(&self.slots[i].note),
            None => None,
        }
    }
}

/// The invocation context of a create: the signing principal, the address
/// discriminator found for the new note, and the time now.
#[derive(Clone, Copy, Debug)]
pub struct CreateNote {
    pub user: Pubkey,
    pub bump: u8,
    pub now: i64,
}

/// The invocation context of an update: the signing principal, the owner and
/// title that the target note's address was derived from, the discriminator
/// recorded with it, and the time now.
#[derive(Clone, Debug)]
pub struct UpdateNote {
    pub user: Pubkey,
    pub owner: Pubkey,
    pub title: String,
    pub bump: u8,
    pub now: i64,
}

/// The invocation context of a delete: the signing principal, the owner and
/// title that the target note's address was derived from, and the
/// discriminator recorded with it.
#[derive(Clone, Debug)]
pub struct DeleteNote {
    pub user: Pubkey,
    pub owner: Pubkey,
    pub title: String,
    pub bump: u8,
}

/// Creates a note owned by `ctx.user` at the address derived from the user
/// and `title`, with both timestamps set to `ctx.now`.
pub fn create_note(store: &mut NoteStore, ctx: &CreateNote, title: String, content: String) -> (r:
    Result<(), NoteError>)
    requires
        old(store).wf(),
    ensures
        final(store).wf(),
        (final(store)@, r) == create_outcome(old(store)@, ctx.user, ctx.bump, ctx.now, title, content),
{
    check_title(&title)?;
    check_content(&content)?;
    let addr = note_address(&ctx.user, &title);
    if store.find(&addr).is_some() {
        return Err(NoteError::AlreadyExists);
    }
    let note = Note {
        owner: ctx.user,
        title,
        content,
        created_at: ctx.now,
        updated_at: ctx.now,
        bump: ctx.bump,
    };
    let ghost old_slots = store.slots@;
    let ghost m = store.model@.insert(addr@, note);
    store.slots.push(Slot { address: addr, note });
    store.model = Ghost(m);
    proof {
        assert(addr@.subrange(4, 36) =~= ctx.user@);
        let n = store.slots@.len() - 1;
        assert(store.slots@[n as int].address@ == addr@);
        assert forall|a: Seq<u8>| #[trigger] store.model@.contains_key(a) implies exists|i: int|
            0 <= i < store.slots@.len() && #[trigger] store.slots@[i].address@ == a by {
            if a != addr@ {
                let i = choose|i: int| 0 <= i < old_slots.len() && #[trigger] old_slots[i].address@ == a;
                assert(store.slots@[i].address@ == a);
            } else {
                assert(store.slots@[n as int].address@ == a);
            }
        }
    }
    Ok(())
}

/// Updates the note at the address derived from `ctx.owner` and `ctx.title`:
/// only its owner may, only while its owner and stored title derive that
/// address again and `ctx.bump` is the recorded discriminator; each override
/// is checked before anything is written, and the modification time is
/// refreshed.
pub fn update_note(
    store: &mut NoteStore,
    ctx: &UpdateNote,
    title: Option<String>,
    content: Option<String>,
) -> (r: Result<(), NoteError>)
    requires
        old(store).wf(),
    ensures
        final(store).wf(),
        (final(store)@, r) == update_outcome(
            old(store)@,
            address_of(ctx.owner@, ctx.title@),
            ctx.user,
            ctx.bump,
            ctx.now,
            title,
            content,
        ),
{
    let addr = note_address(&ctx.owner, &ctx.title);
    let i = store.check_access(&addr, &ctx.user, ctx.bump)?;
    if let Some(t) = &title {
        check_title(t)?;
    }
    if let Some(c) = &content {
        check_content(c)?;
    }
    let ghost old_slots = store.slots@;
    let ghost old_note = store.slots@[i as int].note;
    let mut slot = store.slots.remove(i);
    if let Some(t) = title {
        slot.note.title = t;
    }
    if let Some(c) = content {
        slot.note.content = c;
    }
    if ctx.now > slot.note.updated_at {
        slot.note.updated_at = ctx.now;
    }
    let ghost m = store.model@.insert(addr@, slot.note);
    store.slots.insert(i, slot);
    store.model = Ghost(m);
    proof {
        assert(store.slots@ =~= old_slots.update(i as int, store.slots@[i as int]));
        assert forall|a: Seq<u8>| #[trigger] store.model@.contains_key(a) implies exists|j: int|
            0 <= j < store.slots@.len() && #[trigger] store.slots@[j].address@ == a by {
            let j = choose|j: int| 0 <= j < old_slots.len() && #[trigger] old_slots[j].address@ == a;
            assert(store.slots@[j].address@ == a);
        }
    }
    Ok(())
}

/// Deletes the note at the address derived from `ctx.owner` and `ctx.title`;
/// only its owner may, and only while its owner and stored title derive that
/// address again and `ctx.bump` is the recorded discriminator.
pub fn delete_note(store: &mut NoteStore, ctx: &DeleteNote) -> (r: Result<(), NoteError>)
    requires
        old(store).wf(),
    ensures
        final(store).wf(),
        (final(store)@, r) == delete_outcome(
            old(store)@,
            address_of(ctx.owner@, ctx.title@),
            ctx.user,
            ctx.bump,
        ),
{
    let addr = note_address(&ctx.owner, &ctx.title);
    let i = store.check_access(&addr, &ctx.user, ctx.bump)?;
    let ghost old_slots = store.slots@;
    let ghost m = store.model@.remove(addr@);
    store.slots.remove(i);
    store.model = Ghost(m);
    proof {
        assert(store.slots@ =~= old_slots.remove(i as int));
        assert forall|j: int| 0 <= j < store.slots@.len() implies {
            &&& store.model@.contains_key(#[trigger] store.slots@[j].address@)
            &&& store.model@[store.slots@[j].address@] == store.slots@[j].note
        } by {
            if j < i {
                assert(store.slots@[j] == old_slots[j]);
            } else {
                assert(store.slots@[j] == old_slots[j + 1]);
            }
        }
        assert forall|a: Seq<u8>| #[trigger] store.model@.contains_key(a) implies exists|j: int|
            0 <= j < store.slots@.len() && #[trigger] store.slots@[j].address@ == a by {
            let j = choose|j: int| 0 <= j < old_slots.len() && #[trigger] old_slots[j].address@ == a;
            if j < i {
                assert(store.slots@[j].address@ == a);
            } else {
                assert(store.slots@[j - 1].address@ == a);
            }
        }
        assert forall|x: int, y: int| 0 <= x < y < store.slots@.len() implies #[trigger] store.slots@[x].address@
            != #[trigger] store.slots@[y].address@ by {
            let ox = if x < i { x } else { x + 1 };
            let oy = if y < i { y } else { y + 1 };
            assert(store.slots@[x] == old_slots[ox]);
            assert(store.slots@[y] == old_slots[oy]);
        }
    }
    Ok(())
}

} // verus!
