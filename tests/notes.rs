use note_store::note::{check_content, check_title, Note, NoteError, MAX_CONTENT_LEN, MAX_TITLE_LEN};
use note_store::pubkey::Pubkey;
use note_store::store::{create_note, delete_note, update_note, CreateNote, DeleteNote, NoteStore, UpdateNote};

fn key(b: u8) -> Pubkey {
    Pubkey::new([b; 32])
}

fn s(x: &str) -> String {
    x.to_string()
}

fn create(store: &mut NoteStore, user: u8, bump: u8, now: i64, title: &str, content: &str) -> Result<(), NoteError> {
    let ctx = CreateNote { user: key(user), bump, now };
    create_note(store, &ctx, s(title), s(content))
}

fn update(
    store: &mut NoteStore,
    user: u8,
    owner: u8,
    title: &str,
    bump: u8,
    now: i64,
    new_title: Option<&str>,
    new_content: Option<&str>,
) -> Result<(), NoteError> {
    let ctx = UpdateNote { user: key(user), owner: key(owner), title: s(title), bump, now };
    update_note(store, &ctx, new_title.map(s), new_content.map(s))
}

fn delete(store: &mut NoteStore, user: u8, owner: u8, title: &str, bump: u8) -> Result<(), NoteError> {
    let ctx = DeleteNote { user: key(user), owner: key(owner), title: s(title), bump };
    delete_note(store, &ctx)
}

fn read(store: &NoteStore, owner: u8, title: &str) -> Option<Note> {
    store.get(&key(owner), &s(title)).cloned()
}

#[test]
fn create_then_read_matches_inputs() {
    let mut st = NoteStore::new();
    assert_eq!(create(&mut st, 1, 254, 100, "Groceries", "bread"), Ok(()));
    let n = read(&st, 1, "Groceries").unwrap();
    assert!(n.owner == key(1));
    assert_eq!(n.title, "Groceries");
    assert_eq!(n.content, "bread");
    assert_eq!(n.created_at, 100);
    assert_eq!(n.updated_at, 100);
    assert_eq!(n.bump, 254);
}

#[test]
fn create_with_empty_content() {
    let mut st = NoteStore::new();
    assert_eq!(create(&mut st, 1, 0, -5, "t", ""), Ok(()));
    let n = read(&st, 1, "t").unwrap();
    assert_eq!(n.content, "");
    assert_eq!(n.created_at, -5);
}

#[test]
fn create_empty_title_fails() {
    let mut st = NoteStore::new();
    assert_eq!(create(&mut st, 1, 0, 1, "", "x"), Err(NoteError::TitleEmpty));
    assert_eq!(create(&mut st, 1, 0, 1, "", &"y".repeat(501)), Err(NoteError::TitleEmpty));
    assert!(read(&st, 1, "").is_none());
}

#[test]
fn create_title_limit() {
    let mut st = NoteStore::new();
    let long = "a".repeat(51);
    assert_eq!(create(&mut st, 1, 0, 1, &long, "x"), Err(NoteError::TitleTooLong));
    assert!(read(&st, 1, &long).is_none());
    let max = "a".repeat(50);
    assert_eq!(create(&mut st, 1, 0, 1, &max, "x"), Ok(()));
    assert_eq!(read(&st, 1, &max).unwrap().title, max);
}

#[test]
fn title_length_counts_bytes() {
    // 26 two-byte characters: 52 bytes.
    let t = "é".repeat(26);
    assert_eq!(check_title(&t), Err(NoteError::TitleTooLong));
    let t = "é".repeat(25);
    assert_eq!(check_title(&t), Ok(()));
    assert_eq!(check_content(&"é".repeat(251)), Err(NoteError::ContentTooLong));
    assert_eq!(check_content(&"é".repeat(250)), Ok(()));
}

#[test]
fn create_content_limit() {
    let mut st = NoteStore::new();
    assert_eq!(create(&mut st, 1, 0, 1, "a", &"c".repeat(501)), Err(NoteError::ContentTooLong));
    assert!(read(&st, 1, "a").is_none());
    assert_eq!(create(&mut st, 1, 0, 1, "a", &"c".repeat(500)), Ok(()));
    assert_eq!(read(&st, 1, "a").unwrap().content.len(), 500);
}

#[test]
fn create_twice_fails() {
    let mut st = NoteStore::new();
    assert_eq!(create(&mut st, 1, 7, 10, "same", "first"), Ok(()));
    assert_eq!(create(&mut st, 1, 8, 20, "same", "second"), Err(NoteError::AlreadyExists));
    let n = read(&st, 1, "same").unwrap();
    assert_eq!(n.content, "first");
    assert_eq!(n.created_at, 10);
    assert_eq!(n.updated_at, 10);
    assert_eq!(n.bump, 7);
    // Another owner may use the same title.
    assert_eq!(create(&mut st, 2, 8, 20, "same", "second"), Ok(()));
    assert_eq!(read(&st, 2, "same").unwrap().content, "second");
}

#[test]
fn update_by_stranger_fails() {
    let mut st = NoteStore::new();
    assert_eq!(create(&mut st, 1, 3, 10, "t", "c"), Ok(()));
    assert_eq!(update(&mut st, 2, 1, "t", 3, 20, Some("u"), Some("d")), Err(NoteError::Unauthorized));
    assert_eq!(update(&mut st, 2, 1, "t", 3, 20, None, None), Err(NoteError::Unauthorized));
    let n = read(&st, 1, "t").unwrap();
    assert_eq!(n.title, "t");
    assert_eq!(n.content, "c");
    assert_eq!(n.updated_at, 10);
}

#[test]
fn update_without_overrides_bumps_time() {
    let mut st = NoteStore::new();
    assert_eq!(create(&mut st, 1, 3, 10, "t", "c"), Ok(()));
    assert_eq!(update(&mut st, 1, 1, "t", 3, 15, None, None), Ok(()));
    let n = read(&st, 1, "t").unwrap();
    assert_eq!(n.title, "t");
    assert_eq!(n.content, "c");
    assert_eq!(n.created_at, 10);
    assert_eq!(n.updated_at, 15);
    // A clock that goes back never moves the time backwards.
    assert_eq!(update(&mut st, 1, 1, "t", 3, 12, None, None), Ok(()));
    assert_eq!(read(&st, 1, "t").unwrap().updated_at, 15);
}

#[test]
fn update_bad_title_writes_nothing() {
    let mut st = NoteStore::new();
    assert_eq!(create(&mut st, 1, 3, 10, "t", "c"), Ok(()));
    assert_eq!(update(&mut st, 1, 1, "t", 3, 20, Some(""), Some("new")), Err(NoteError::TitleEmpty));
    let long = "x".repeat(51);
    assert_eq!(update(&mut st, 1, 1, "t", 3, 20, Some(&long), Some("new")), Err(NoteError::TitleTooLong));
    let n = read(&st, 1, "t").unwrap();
    assert_eq!(n.title, "t");
    assert_eq!(n.content, "c");
    assert_eq!(n.updated_at, 10);
}

#[test]
fn update_bad_content_writes_nothing() {
    let mut st = NoteStore::new();
    assert_eq!(create(&mut st, 1, 3, 10, "t", "c"), Ok(()));
    let long = "x".repeat(501);
    assert_eq!(update(&mut st, 1, 1, "t", 3, 20, Some("u"), Some(&long)), Err(NoteError::ContentTooLong));
    let n = read(&st, 1, "t").unwrap();
    assert_eq!(n.title, "t");
    assert_eq!(n.content, "c");
}

#[test]
fn renamed_note_no_longer_resolves() {
    let mut st = NoteStore::new();
    assert_eq!(create(&mut st, 1, 3, 10, "old", "c"), Ok(()));
    assert_eq!(update(&mut st, 1, 1, "old", 3, 20, Some("new"), None), Ok(()));
    assert!(read(&st, 1, "new").is_none());
    let n = read(&st, 1, "old").unwrap();
    assert_eq!(n.title, "new");
    assert_eq!(n.content, "c");
    assert_eq!(n.updated_at, 20);
    // The stored title no longer derives the address the note sits at.
    assert_eq!(update(&mut st, 1, 1, "old", 3, 30, None, Some("d")), Err(NoteError::NotFound));
    assert_eq!(update(&mut st, 1, 1, "new", 3, 30, None, Some("d")), Err(NoteError::NotFound));
    assert_eq!(delete(&mut st, 1, 1, "old", 3), Err(NoteError::NotFound));
    assert_eq!(delete(&mut st, 1, 1, "new", 3), Err(NoteError::NotFound));
    // A stranger is still told that the note is not theirs.
    assert_eq!(delete(&mut st, 2, 1, "old", 3), Err(NoteError::Unauthorized));
    let n = read(&st, 1, "old").unwrap();
    assert_eq!(n.title, "new");
    assert_eq!(n.content, "c");
    assert_eq!(n.updated_at, 20);
}

#[test]
fn update_with_same_title_keeps_note_reachable() {
    let mut st = NoteStore::new();
    assert_eq!(create(&mut st, 1, 3, 10, "t", "c"), Ok(()));
    assert_eq!(update(&mut st, 1, 1, "t", 3, 20, Some("t"), Some("d")), Ok(()));
    assert_eq!(update(&mut st, 1, 1, "t", 3, 30, None, Some("e")), Ok(()));
    let n = read(&st, 1, "t").unwrap();
    assert_eq!(n.content, "e");
    assert_eq!(n.updated_at, 30);
    assert_eq!(delete(&mut st, 1, 1, "t", 3), Ok(()));
    assert!(read(&st, 1, "t").is_none());
}

#[test]
fn wrong_discriminator_is_not_found() {
    let mut st = NoteStore::new();
    assert_eq!(create(&mut st, 1, 3, 10, "t", "c"), Ok(()));
    assert_eq!(update(&mut st, 1, 1, "t", 4, 20, None, Some("d")), Err(NoteError::NotFound));
    assert_eq!(delete(&mut st, 1, 1, "t", 4), Err(NoteError::NotFound));
    assert_eq!(read(&st, 1, "t").unwrap().content, "c");
}

#[test]
fn delete_then_gone() {
    let mut st = NoteStore::new();
    assert_eq!(create(&mut st, 1, 3, 10, "t", "c"), Ok(()));
    assert_eq!(create(&mut st, 1, 3, 10, "other", "c"), Ok(()));
    assert_eq!(delete(&mut st, 1, 1, "t", 3), Ok(()));
    assert!(read(&st, 1, "t").is_none());
    assert_eq!(update(&mut st, 1, 1, "t", 3, 20, None, None), Err(NoteError::NotFound));
    assert_eq!(delete(&mut st, 1, 1, "t", 3), Err(NoteError::NotFound));
    assert!(read(&st, 1, "other").is_some());
    // The address is free again.
    assert_eq!(create(&mut st, 1, 5, 30, "t", "again"), Ok(()));
    assert_eq!(read(&st, 1, "t").unwrap().content, "again");
}

#[test]
fn delete_by_stranger_fails() {
    let mut st = NoteStore::new();
    assert_eq!(create(&mut st, 1, 3, 10, "t", "c"), Ok(()));
    assert_eq!(delete(&mut st, 2, 1, "t", 3), Err(NoteError::Unauthorized));
    let n = read(&st, 1, "t").unwrap();
    assert!(n.owner == key(1));
    assert_eq!(n.title, "t");
    assert_eq!(n.content, "c");
    assert_eq!(n.created_at, 10);
    assert_eq!(n.updated_at, 10);
}

#[test]
fn shopping_scenario() {
    let mut st = NoteStore::new();
    let (a, b) = (10u8, 11u8);
    let (t0, t1) = (1_000i64, 1_060i64);
    assert_eq!(create(&mut st, a, 255, t0, "Shopping", "milk"), Ok(()));
    assert_eq!(read(&st, a, "Shopping").unwrap().created_at, t0);
    assert_eq!(update(&mut st, a, a, "Shopping", 255, t1, None, Some("milk, eggs")), Ok(()));
    let n = read(&st, a, "Shopping").unwrap();
    assert_eq!(n.content, "milk, eggs");
    assert_eq!(n.title, "Shopping");
    assert_eq!(n.updated_at, t1);
    assert_eq!(delete(&mut st, b, a, "Shopping", 255), Err(NoteError::Unauthorized));
    assert_eq!(delete(&mut st, a, a, "Shopping", 255), Ok(()));
    assert_eq!(update(&mut st, a, a, "Shopping", 255, t1, None, Some("x")), Err(NoteError::NotFound));
}

#[test]
fn limits_and_size() {
    assert_eq!(MAX_TITLE_LEN, 50);
    assert_eq!(MAX_CONTENT_LEN, 500);
    assert_eq!(Note::LEN, 615);
}

#[test]
fn stored_layout() {
    let mut owner = [0u8; 32];
    for (i, b) in owner.iter_mut().enumerate() {
        *b = i as u8 + 1;
    }
    let n = Note {
        owner: Pubkey::new(owner),
        title: s("Hi"),
        content: s("abc"),
        created_at: 0x0102030405060708,
        updated_at: -1,
        bump: 9,
    };
    let v = n.to_bytes();
    assert_eq!(v.len(), Note::LEN);
    assert_eq!(&v[0..8], &[203, 75, 252, 196, 81, 210, 122, 126]);
    assert_eq!(&v[8..40], &owner[..]);
    assert_eq!(&v[40..44], &[2, 0, 0, 0]);
    assert_eq!(&v[44..46], b"Hi");
    assert!(v[46..94].iter().all(|&x| x == 0));
    assert_eq!(&v[94..98], &[3, 0, 0, 0]);
    assert_eq!(&v[98..101], b"abc");
    assert!(v[101..598].iter().all(|&x| x == 0));
    assert_eq!(&v[598..606], &[8, 7, 6, 5, 4, 3, 2, 1]);
    assert_eq!(&v[606..614], &[255; 8]);
    assert_eq!(v[614], 9);
}

#[test]
fn identity_equality() {
    assert!(key(1) == key(1));
    let mut b = [1u8; 32];
    b[31] = 2;
    assert!(key(1) != Pubkey::new(b));
    assert_eq!(key(4).to_bytes(), [4u8; 32]);
}
