use craftcms::commands::{
    delete_image, file_named, file_removed, insert_image, insert_image_from_path, update_image,
    Pending, Step, StoreReply, StoreRequest,
};
use craftcms::database::{
    failure_from_database, get_image_by_slug, get_images, row_from_image, ImageRow,
};
use craftcms::files::{DeletePlan, ImageFileManager};
use craftcms::media::MediaType;
use craftcms::models::{ErrorKind, Failure, Image};
use rusqlite::Connection;
use std::collections::HashMap;

struct Stores {
    conn: Connection,
    files: HashMap<String, Vec<u8>>,
    manager: ImageFileManager,
    faults: Vec<Option<Failure>>,
    log: Vec<String>,
}

fn open_stores() -> Stores {
    let conn = Connection::open_in_memory().unwrap();
    conn.execute_batch(
        "CREATE TABLE images (
            id INTEGER PRIMARY KEY AUTOINCREMENT,
            alt TEXT NOT NULL,
            description TEXT,
            slug TEXT UNIQUE NOT NULL,
            keywords TEXT,
            filename TEXT NOT NULL
        );",
    )
    .unwrap();
    Stores {
        conn,
        files: HashMap::new(),
        manager: ImageFileManager::new("data/images"),
        faults: Vec::new(),
        log: Vec::new(),
    }
}

fn read_row(conn: &Connection, slug: &str) -> Result<ImageRow, Failure> {
    conn.query_row(
        "SELECT alt, description, slug, keywords, filename FROM images WHERE slug = ?",
        [slug],
        |row| {
            Ok(ImageRow {
                alt: row.get(0)?,
                description: row.get(1)?,
                slug: row.get(2)?,
                keywords: row.get(3)?,
                filename: row.get(4)?,
            })
        },
    )
    .map_err(|e| failure_from_database(&e))
}

fn perform(stores: &mut Stores, request: StoreRequest) -> StoreReply {
    let fault = if stores.faults.is_empty() { None } else { stores.faults.remove(0) };
    stores.log.push(
        match &request {
            StoreRequest::SaveBlob { .. } => "save",
            StoreRequest::DeleteBlob { .. } => "delete-blob",
            StoreRequest::RenameBlob { .. } => "rename",
            StoreRequest::ReadRow { .. } => "read",
            StoreRequest::InsertRow { .. } => "insert",
            StoreRequest::UpdateRow { .. } => "update",
            StoreRequest::DeleteRow { .. } => "delete-row",
        }
        .to_string(),
    );
    if let Some(failure) = fault {
        return StoreReply::Failed(failure);
    }
    match request {
        StoreRequest::SaveBlob { data, slug, media } => {
            let name = stores.manager.filename_for(&slug, &media);
            stores.files.insert(name.clone(), data);
            StoreReply::Filename(name)
        }
        StoreRequest::DeleteBlob { filename } => {
            match stores.manager.delete_plan(stores.files.contains_key(&filename)) {
                DeletePlan::AlreadyAbsent => StoreReply::Done,
                DeletePlan::Remove => {
                    stores.files.remove(&filename);
                    StoreReply::Done
                }
            }
        }
        StoreRequest::RenameBlob { filename, new_base } => {
            let target = stores.manager.rename_target(&filename, &new_base);
            match stores.files.remove(&filename) {
                Some(data) => {
                    stores.files.insert(target.clone(), data);
                    file_named(Ok(target))
                }
                None => file_named(Err("No such file or directory".to_string())),
            }
        }
        StoreRequest::ReadRow { slug } => get_image_by_slug(read_row(&stores.conn, &slug)),
        StoreRequest::InsertRow { image } => match row_from_image(&image) {
            Ok(row) => craftcms::database::insert_image(
                stores
                    .conn
                    .execute(
                        "INSERT INTO images (alt, description, slug, keywords, filename)
                         VALUES (?1, ?2, ?3, ?4, ?5)",
                        [&row.alt, &row.description, &row.slug, &row.keywords, &row.filename],
                    )
                    .map_err(|e| failure_from_database(&e)),
            ),
            Err(failure) => StoreReply::Failed(failure),
        },
        StoreRequest::UpdateRow { slug, image } => match row_from_image(&image) {
            Ok(row) => craftcms::database::update_image(
                stores
                    .conn
                    .execute(
                        "UPDATE images SET alt = ?1, description = ?2, slug = ?3, keywords = ?4,
                         filename = ?5 WHERE slug = ?6",
                        [&row.alt, &row.description, &row.slug, &row.keywords, &row.filename, &slug],
                    )
                    .map_err(|e| failure_from_database(&e)),
            ),
            Err(failure) => StoreReply::Failed(failure),
        },
        StoreRequest::DeleteRow { slug } => craftcms::database::delete_image(
            stores
                .conn
                .execute("DELETE FROM images WHERE slug = ?", [&slug])
                .map_err(|e| failure_from_database(&e)),
        ),
    }
}

fn run(stores: &mut Stores, first: Step) -> Result<(), Failure> {
    let mut step = first;
    loop {
        match step {
            Step::Finish { outcome } => return outcome,
            Step::Call { request, pending } => {
                let reply = perform(stores, request);
                step = pending.resume(reply);
            }
        }
    }
}

fn get_by_slug(stores: &Stores, slug: &str) -> Result<Image, Failure> {
    match get_image_by_slug(read_row(&stores.conn, slug)) {
        StoreReply::Row(image) => Ok(image),
        StoreReply::Failed(failure) => Err(failure),
        other => panic!("unexpected reply {:?}", other),
    }
}

fn image(alt: &str, slug: &str, keywords: &[&str]) -> Image {
    Image {
        alt: alt.to_string(),
        description: String::new(),
        slug: slug.to_string(),
        keywords: keywords.iter().map(|k| k.to_string()).collect(),
        filename: String::new(),
    }
}

fn jpeg() -> MediaType {
    MediaType::new("image", "jpeg")
}

fn png() -> MediaType {
    MediaType::new("image", "png")
}

#[test]
fn create_then_read_returns_the_submitted_bytes() {
    let mut stores = open_stores();
    let data = vec![1u8, 2, 3, 4, 5];
    let outcome = run(&mut stores, insert_image(data.clone(), png(), image("a dog", "dog", &["pet", "dog"])));
    assert_eq!(outcome, Ok(()));
    let found = get_by_slug(&stores, "dog").unwrap();
    assert_eq!(found.filename, "dog.png");
    assert_eq!(found.alt, "a dog");
    assert_eq!(found.keywords, vec!["pet", "dog"]);
    assert_eq!(stores.files.get(&found.filename), Some(&data));
    assert_eq!(stores.log, vec!["save", "insert"]);
}

#[test]
fn second_delete_is_not_found_and_touches_no_file() {
    let mut stores = open_stores();
    run(&mut stores, insert_image(vec![9u8; 3], jpeg(), image("x", "x", &[]))).unwrap();
    assert_eq!(run(&mut stores, delete_image("x".to_string())), Ok(()));
    assert!(stores.files.is_empty());
    stores.log.clear();
    let second = run(&mut stores, delete_image("x".to_string())).unwrap_err();
    assert_eq!(second.kind, ErrorKind::NotFound);
    assert_ne!(second.kind, ErrorKind::IOFailure);
    assert_eq!(stores.log, vec!["read"]);
}

#[test]
fn delete_of_a_slug_that_never_existed_is_not_found() {
    let mut stores = open_stores();
    let failure = run(&mut stores, delete_image("ghost".to_string())).unwrap_err();
    assert_eq!(failure.kind, ErrorKind::NotFound);
    let failure = run(&mut stores, update_image("ghost".to_string(), None, image("a", "ghost", &[])))
        .unwrap_err();
    assert_eq!(failure.kind, ErrorKind::NotFound);
}

#[test]
fn duplicate_create_fails_and_deletes_its_orphan() {
    let mut stores = open_stores();
    let first = vec![1u8; 4];
    run(&mut stores, insert_image(first.clone(), jpeg(), image("one", "same", &[]))).unwrap();
    stores.log.clear();
    let failure =
        run(&mut stores, insert_image(vec![2u8; 6], png(), image("two", "same", &[]))).unwrap_err();
    assert_eq!(failure.kind, ErrorKind::DuplicateSlug);
    assert_eq!(stores.log, vec!["save", "insert", "delete-blob"]);
    assert!(!stores.files.contains_key("same.png"));
    assert_eq!(stores.files.get("same.jpg"), Some(&first));
    let kept = get_by_slug(&stores, "same").unwrap();
    assert_eq!(kept.alt, "one");
    assert_eq!(kept.filename, "same.jpg");
}

#[test]
fn duplicate_create_with_the_same_extension_removes_the_shared_file() {
    let mut stores = open_stores();
    run(&mut stores, insert_image(vec![1u8; 4], jpeg(), image("one", "same", &[]))).unwrap();
    let failure =
        run(&mut stores, insert_image(vec![2u8; 6], jpeg(), image("two", "same", &[]))).unwrap_err();
    assert_eq!(failure.kind, ErrorKind::DuplicateSlug);
    assert!(!stores.files.contains_key("same.jpg"));
    assert_eq!(get_by_slug(&stores, "same").unwrap().alt, "one");
}

#[test]
fn update_of_the_slug_renames_the_blob_and_keeps_its_extension() {
    let mut stores = open_stores();
    let data = vec![7u8; 8];
    run(&mut stores, insert_image(data.clone(), png(), image("old", "old-slug", &["k"]))).unwrap();
    stores.log.clear();
    let outcome = run(
        &mut stores,
        update_image("old-slug".to_string(), None, image("new", "new-slug", &["k", "l"])),
    );
    assert_eq!(outcome, Ok(()));
    assert_eq!(stores.log, vec!["read", "rename", "update"]);
    let found = get_by_slug(&stores, "new-slug").unwrap();
    assert_eq!(found.filename, "new-slug.png");
    assert!(found.filename.ends_with(".png"));
    assert_eq!(found.alt, "new");
    assert_eq!(found.keywords, vec!["k", "l"]);
    assert_eq!(stores.files.get("new-slug.png"), Some(&data));
    assert!(!stores.files.contains_key("old-slug.png"));
    assert_eq!(get_by_slug(&stores, "old-slug").unwrap_err().kind, ErrorKind::NotFound);
}

#[test]
fn update_with_new_bytes_replaces_the_blob() {
    let mut stores = open_stores();
    run(&mut stores, insert_image(vec![1u8; 3], png(), image("a", "pic", &[]))).unwrap();
    stores.log.clear();
    let fresh = vec![5u8; 12];
    let outcome = run(
        &mut stores,
        update_image("pic".to_string(), Some((fresh.clone(), jpeg())), image("b", "pic", &[])),
    );
    assert_eq!(outcome, Ok(()));
    assert_eq!(stores.log, vec!["read", "delete-blob", "save", "update"]);
    let found = get_by_slug(&stores, "pic").unwrap();
    assert_eq!(found.filename, "pic.jpg");
    assert_eq!(stores.files.get("pic.jpg"), Some(&fresh));
    assert!(!stores.files.contains_key("pic.png"));
}

#[test]
fn scenario_create_update_delete() {
    let mut stores = open_stores();
    let payload: Vec<u8> = vec![0xFF, 0xD8, 0xFF, 0xE0, 0, 1, 2, 3, 4, 5];
    assert_eq!(payload.len(), 10);
    let created = run(&mut stores, insert_image(payload.clone(), jpeg(), image("cat", "cat-1", &["pet"])));
    assert_eq!(created, Ok(()));
    let found = get_by_slug(&stores, "cat-1").unwrap();
    assert_eq!(found.filename, "cat-1.jpg");
    assert_eq!(found.keywords, vec!["pet"]);
    assert_eq!(stores.files.get("cat-1.jpg"), Some(&payload));

    stores.log.clear();
    let updated = run(
        &mut stores,
        update_image("cat-1".to_string(), None, image("a sleeping cat", "cat-1", &["pet"])),
    );
    assert_eq!(updated, Ok(()));
    assert_eq!(stores.log, vec!["read", "update"]);
    let found = get_by_slug(&stores, "cat-1").unwrap();
    assert_eq!(found.filename, "cat-1.jpg");
    assert_eq!(found.alt, "a sleeping cat");
    assert_eq!(stores.files.get("cat-1.jpg"), Some(&payload));

    let deleted = run(&mut stores, delete_image("cat-1".to_string()));
    assert_eq!(deleted, Ok(()));
    assert_eq!(get_by_slug(&stores, "cat-1").unwrap_err().kind, ErrorKind::NotFound);
    assert!(!stores.files.contains_key("cat-1.jpg"));
}

#[test]
fn failed_save_leaves_the_catalog_alone() {
    let mut stores = open_stores();
    stores.faults = vec![Some(Failure::io("disk full".to_string()))];
    let failure = run(&mut stores, insert_image(vec![1], jpeg(), image("a", "a", &[]))).unwrap_err();
    assert_eq!(failure, Failure::io("disk full".to_string()));
    assert_eq!(stores.log, vec!["save"]);
    assert_eq!(get_by_slug(&stores, "a").unwrap_err().kind, ErrorKind::NotFound);
}

#[test]
fn failed_compensation_still_reports_the_catalog_failure() {
    let mut stores = open_stores();
    let cause = Failure::internal("database is locked".to_string());
    stores.faults = vec![None, Some(cause.clone()), Some(Failure::io("permission denied".to_string()))];
    let failure = run(&mut stores, insert_image(vec![1], jpeg(), image("a", "a", &[]))).unwrap_err();
    assert_eq!(failure, cause);
    assert_eq!(stores.log, vec!["save", "insert", "delete-blob"]);
    assert!(stores.files.contains_key("a.jpg"));
}

#[test]
fn failed_delete_of_the_old_blob_aborts_the_update() {
    let mut stores = open_stores();
    let old = vec![3u8; 3];
    run(&mut stores, insert_image(old.clone(), png(), image("a", "pic", &[]))).unwrap();
    stores.log.clear();
    stores.faults = vec![None, Some(Failure::io("permission denied".to_string()))];
    let failure = run(
        &mut stores,
        update_image("pic".to_string(), Some((vec![4u8; 4], jpeg())), image("b", "pic", &[])),
    )
    .unwrap_err();
    assert_eq!(failure.kind, ErrorKind::IOFailure);
    assert_eq!(stores.log, vec!["read", "delete-blob"]);
    assert_eq!(stores.files.get("pic.png"), Some(&old));
    assert_eq!(get_by_slug(&stores, "pic").unwrap().alt, "a");
}

#[test]
fn interrupted_delete_can_be_retried() {
    let mut stores = open_stores();
    run(&mut stores, insert_image(vec![1u8; 2], jpeg(), image("a", "gone", &[]))).unwrap();
    stores.faults = vec![None, None, Some(Failure::internal("database is locked".to_string()))];
    let failure = run(&mut stores, delete_image("gone".to_string())).unwrap_err();
    assert_eq!(failure.kind, ErrorKind::InternalFailure);
    assert!(!stores.files.contains_key("gone.jpg"));
    assert_eq!(get_by_slug(&stores, "gone").unwrap().filename, "gone.jpg");
    assert_eq!(run(&mut stores, delete_image("gone".to_string())), Ok(()));
    assert_eq!(get_by_slug(&stores, "gone").unwrap_err().kind, ErrorKind::NotFound);
}

#[test]
fn update_to_a_taken_slug_is_a_duplicate() {
    let mut stores = open_stores();
    run(&mut stores, insert_image(vec![1], jpeg(), image("a", "a", &[]))).unwrap();
    run(&mut stores, insert_image(vec![2], jpeg(), image("b", "b", &[]))).unwrap();
    let failure = run(
        &mut stores,
        update_image("a".to_string(), Some((vec![3], jpeg())), image("a", "b", &[])),
    )
    .unwrap_err();
    assert_eq!(failure.kind, ErrorKind::DuplicateSlug);
}

#[test]
fn unexpected_reply_ends_the_operation() {
    let step = insert_image(vec![1], jpeg(), image("a", "a", &[]));
    let pending = match step {
        Step::Call { request, pending } => {
            assert_eq!(
                request,
                StoreRequest::SaveBlob { data: vec![1], slug: "a".to_string(), media: jpeg() }
            );
            pending
        }
        Step::Finish { .. } => panic!("a create starts with a request"),
    };
    assert_eq!(pending, Pending::CreateSaving { image: image("a", "a", &[]) });
    let next = pending.resume(StoreReply::Done);
    assert_eq!(
        next,
        Step::Finish {
            outcome: Err(Failure::new(
                ErrorKind::InternalFailure,
                "unexpected reply from the store".to_string()
            ))
        }
    );
}

#[test]
fn media_type_of_an_imported_file_comes_from_its_path() {
    let step = insert_image_from_path("photos/Cat.PNG", vec![1, 2], image("a", "cat", &[]));
    match step {
        Step::Call { request, .. } => assert_eq!(
            request,
            StoreRequest::SaveBlob { data: vec![1, 2], slug: "cat".to_string(), media: png() }
        ),
        Step::Finish { .. } => panic!("a create starts with a request"),
    }
    let step = insert_image_from_path("photos/noext", vec![], image("a", "cat", &[]));
    match step {
        Step::Call { request, .. } => assert_eq!(
            request,
            StoreRequest::SaveBlob {
                data: vec![],
                slug: "cat".to_string(),
                media: MediaType::octet_stream()
            }
        ),
        Step::Finish { .. } => panic!("a create starts with a request"),
    }
}

#[test]
fn listing_decodes_every_row() {
    let rows = vec![
        ImageRow {
            alt: "a".to_string(),
            description: "d".to_string(),
            slug: "s".to_string(),
            keywords: "[\"x\",\"y\"]".to_string(),
            filename: "s.jpg".to_string(),
        },
        ImageRow {
            alt: "b".to_string(),
            description: String::new(),
            slug: "t".to_string(),
            keywords: "not json".to_string(),
            filename: "t.png".to_string(),
        },
    ];
    let images = get_images(&rows);
    assert_eq!(images.len(), 2);
    assert_eq!(images[0].keywords, vec!["x", "y"]);
    assert_eq!(images[0].filename, "s.jpg");
    assert_eq!(images[1].keywords, Vec::<String>::new());
    assert_eq!(images[1].slug, "t");
}

#[test]
fn rename_of_a_missing_file_is_an_io_failure() {
    let mut stores = open_stores();
    run(&mut stores, insert_image(vec![1u8; 2], jpeg(), image("a", "lost", &[]))).unwrap();
    stores.files.clear();
    stores.log.clear();
    let failure =
        run(&mut stores, update_image("lost".to_string(), None, image("a", "found", &[])))
            .unwrap_err();
    assert_eq!(failure, Failure::io("No such file or directory".to_string()));
    assert_eq!(stores.log, vec!["read", "rename"]);
    assert_eq!(get_by_slug(&stores, "lost").unwrap().filename, "lost.jpg");
}

#[test]
fn file_system_errors_are_io_failures() {
    assert_eq!(file_named(Ok("a.jpg".to_string())), StoreReply::Filename("a.jpg".to_string()));
    assert_eq!(
        file_named(Err("disk full".to_string())),
        StoreReply::Failed(Failure::io("disk full".to_string()))
    );
    assert_eq!(file_removed(Ok(())), StoreReply::Done);
    assert_eq!(
        file_removed(Err("denied".to_string())),
        StoreReply::Failed(Failure::io("denied".to_string()))
    );
}

#[test]
fn bare_file_name_gives_the_media_type_of_its_extension() {
    match insert_image_from_path("cat.png", vec![1], image("a", "cat", &[])) {
        Step::Call { request, .. } => assert_eq!(
            request,
            StoreRequest::SaveBlob { data: vec![1], slug: "cat".to_string(), media: png() }
        ),
        Step::Finish { .. } => panic!("a create starts with a request"),
    }
    match insert_image_from_path(".png", vec![1], image("a", "cat", &[])) {
        Step::Call { request, .. } => assert_eq!(
            request,
            StoreRequest::SaveBlob {
                data: vec![1],
                slug: "cat".to_string(),
                media: MediaType::octet_stream()
            }
        ),
        Step::Finish { .. } => panic!("a create starts with a request"),
    }
}
