use craftcms::cli::{confirms_deletion, create_user_command, handle_insert_image, is_yes, user_line, UserCreation};
use craftcms::commands::{Step, StoreReply, StoreRequest};
use craftcms::config::{Config, MetaConfig, RoutesConfig, ServerConfig, SiteConfig};
use craftcms::database::{
    classify, classify_outside_catalog, delete_image, delete_session, delete_user,
    failure_from_database, failure_outside_catalog, get_image_by_slug, image_from_row,
    insert_image, keywords_or_default, list_users, listed_user, read_image, removed,
    row_from_image, row_with_keywords, update_image, DbErrorClass, ImageRow,
};
use craftcms::files::{DeletePlan, ImageFileManager};
use craftcms::media::MediaType;
use craftcms::models::{
    CustomError, ErrorKind, Failure, Image, ImageInput, LoginResponse, User,
};
use craftcms::session::verify_user;
use rusqlite::Connection;

fn row(keywords: &str) -> ImageRow {
    ImageRow {
        alt: "a".to_string(),
        description: "d".to_string(),
        slug: "s".to_string(),
        keywords: keywords.to_string(),
        filename: "s.jpg".to_string(),
    }
}

#[test]
fn row_keywords_are_read_from_json() {
    let image = image_from_row(&row("[\"pet\", \"cat\"]"));
    assert_eq!(image.keywords, vec!["pet", "cat"]);
    assert_eq!(image.alt, "a");
    assert_eq!(image.description, "d");
    assert_eq!(image.slug, "s");
    assert_eq!(image.filename, "s.jpg");
    assert_eq!(image_from_row(&row("")).keywords, Vec::<String>::new());
    assert_eq!(image_from_row(&row("{\"a\":1}")).keywords, Vec::<String>::new());
    assert_eq!(keywords_or_default(None), Vec::<String>::new());
    assert_eq!(keywords_or_default(Some(vec!["x".to_string()])), vec!["x"]);
}

#[test]
fn record_keywords_are_written_as_json() {
    let image = Image {
        alt: "a".to_string(),
        description: "d".to_string(),
        slug: "s".to_string(),
        keywords: vec!["pet".to_string(), "say \"hi\"".to_string()],
        filename: "s.jpg".to_string(),
    };
    let written = row_from_image(&image).unwrap();
    assert_eq!(written.keywords, "[\"pet\",\"say \\\"hi\\\"\"]");
    assert_eq!(written.slug, "s");
    assert_eq!(image_from_row(&written), image);
    let failure = row_with_keywords(&image, None).unwrap_err();
    assert_eq!(failure, Failure::internal("the keywords could not be encoded".to_string()));
}

#[test]
fn database_errors_are_told_apart() {
    let conn = Connection::open_in_memory().unwrap();
    conn.execute_batch("CREATE TABLE t (slug TEXT UNIQUE NOT NULL);").unwrap();
    conn.execute("INSERT INTO t (slug) VALUES (?1)", ["a"]).unwrap();
    let taken = conn.execute("INSERT INTO t (slug) VALUES (?1)", ["a"]).unwrap_err();
    let failure = failure_from_database(&taken);
    assert_eq!(failure.kind, ErrorKind::DuplicateSlug);
    assert_eq!(failure.detail, taken.to_string());
    let none = conn
        .query_row("SELECT slug FROM t WHERE slug = ?1", ["zzz"], |r| r.get::<_, String>(0))
        .unwrap_err();
    assert_eq!(failure_from_database(&none).kind, ErrorKind::NotFound);
    let broken = conn.execute("INSERT INTO missing (slug) VALUES (?1)", ["a"]).unwrap_err();
    assert_eq!(failure_from_database(&broken).kind, ErrorKind::InternalFailure);
    assert_eq!(classify(DbErrorClass::NoRows, "x".to_string()).kind, ErrorKind::NotFound);
    assert_eq!(classify(DbErrorClass::Constraint, "x".to_string()).kind, ErrorKind::DuplicateSlug);
    assert_eq!(classify(DbErrorClass::Other, "x".to_string()), Failure::internal("x".to_string()));
}

#[test]
fn a_taken_email_is_no_duplicate_slug() {
    let conn = Connection::open_in_memory().unwrap();
    conn.execute_batch("CREATE TABLE users (email TEXT UNIQUE NOT NULL);").unwrap();
    conn.execute("INSERT INTO users (email) VALUES (?1)", ["a@b.c"]).unwrap();
    let taken = conn.execute("INSERT INTO users (email) VALUES (?1)", ["a@b.c"]).unwrap_err();
    let failure = failure_outside_catalog(&taken);
    assert_eq!(failure.kind, ErrorKind::InternalFailure);
    assert_eq!(failure.detail, taken.to_string());
    assert_ne!(failure.detail, "");
    let none = conn
        .query_row("SELECT email FROM users WHERE email = ?1", ["zzz"], |r| r.get::<_, String>(0))
        .unwrap_err();
    assert_eq!(failure_outside_catalog(&none).kind, ErrorKind::NotFound);
    assert_eq!(
        classify_outside_catalog(DbErrorClass::Constraint, "x".to_string()),
        Failure::internal("x".to_string())
    );
    assert_eq!(
        classify_outside_catalog(DbErrorClass::NoRows, "x".to_string()).kind,
        ErrorKind::NotFound
    );
}

#[test]
fn removing_what_is_not_there_succeeds() {
    assert_eq!(delete_session(Ok(0)), Ok(()));
    assert_eq!(delete_session(Ok(1)), Ok(()));
    assert_eq!(delete_user(Ok(0)), Ok(()));
    assert_eq!(removed(Ok(7)), Ok(()));
    let failure = Failure::internal("locked".to_string());
    assert_eq!(delete_session(Err(failure.clone())), Err(failure.clone()));
    assert_eq!(delete_user(Err(failure.clone())), Err(failure));
}

#[test]
fn a_read_gives_the_record_or_the_failure() {
    assert_eq!(read_image(Ok(row("[\"k\"]"))), Ok(image_from_row(&row("[\"k\"]"))));
    let failure = Failure::new(ErrorKind::NotFound, "no rows".to_string());
    assert_eq!(read_image(Err(failure.clone())), Err(failure));
}

#[test]
fn statements_that_change_no_row_are_not_found() {
    let missing = Failure::new(ErrorKind::NotFound, "no image has this slug".to_string());
    assert_eq!(update_image(Ok(0)), StoreReply::Failed(missing.clone()));
    assert_eq!(delete_image(Ok(0)), StoreReply::Failed(missing));
    assert_eq!(update_image(Ok(1)), StoreReply::Done);
    assert_eq!(delete_image(Ok(1)), StoreReply::Done);
    assert_eq!(insert_image(Ok(1)), StoreReply::Done);
    let failure = Failure::internal("locked".to_string());
    assert_eq!(insert_image(Err(failure.clone())), StoreReply::Failed(failure.clone()));
    assert_eq!(update_image(Err(failure.clone())), StoreReply::Failed(failure.clone()));
    assert_eq!(delete_image(Err(failure.clone())), StoreReply::Failed(failure.clone()));
    assert_eq!(get_image_by_slug(Err(failure.clone())), StoreReply::Failed(failure));
    assert_eq!(get_image_by_slug(Ok(row("[]"))), StoreReply::Row(image_from_row(&row("[]"))));
}

#[test]
fn listed_users_carry_no_hash() {
    let users = list_users(&vec![(1, "a@b.c".to_string()), (2, "d@e.f".to_string())]);
    assert_eq!(
        users,
        vec![
            User { id: 1, email: "a@b.c".to_string(), password_hash: String::new(), access_token: None },
            User { id: 2, email: "d@e.f".to_string(), password_hash: String::new(), access_token: None },
        ]
    );
    assert_eq!(listed_user(3, "x".to_string()).id, 3);
    assert_eq!(user_line(&users[0]), "Email: a@b.c");
}

#[test]
fn blob_names_follow_the_media_type() {
    let manager = ImageFileManager::new("data/images");
    assert_eq!(manager.base_path(), "data/images");
    assert_eq!(manager.filename_for("cat-1", &MediaType::new("image", "jpeg")), "cat-1.jpg");
    assert_eq!(manager.filename_for("cat-1", &MediaType::new("image", "png")), "cat-1.png");
    assert_eq!(manager.filename_for("cat-1", &MediaType::new("image", "gif")), "cat-1.jpg");
    assert_eq!(manager.filename_for("cat-1", &MediaType::new("text", "png")), "cat-1.jpg");
    assert_eq!(manager.filename_for("", &MediaType::octet_stream()), ".jpg");
}

#[test]
fn renamed_blob_keeps_its_extension() {
    let manager = ImageFileManager::new("data/images");
    assert_eq!(manager.rename_target("old.png", "new"), "new.png");
    assert_eq!(manager.rename_target("old.tar.gz", "new"), "new.gz");
    assert_eq!(manager.rename_target("old", "new"), "new.jpg");
    assert_eq!(manager.rename_target(".png", "new"), "new.jpg");
    assert_eq!(ImageFileManager::extension_of("dir/photo.JPG"), Some("JPG".to_string()));
    assert_eq!(ImageFileManager::extension_of("photo"), None);
    assert_eq!(ImageFileManager::renamed_filename("n", Some("webp")), "n.webp");
    assert_eq!(ImageFileManager::renamed_filename("n", None), "n.jpg");
}

fn after_last_dot(name: &str) -> Option<String> {
    let chars: Vec<char> = name.chars().collect();
    let dot = chars.iter().rposition(|c| *c == '.');
    match dot {
        None | Some(0) => None,
        Some(_) if name == ".." => None,
        Some(i) => Some(chars[i + 1..].iter().collect()),
    }
}

#[test]
fn extension_of_a_plain_name_follows_its_last_dot() {
    let names = [
        "", ".", "..", "...", "a", "a.", ".a", ".a.", "a.b", "a.b.c", "a..b", "..a", "cat-1.png",
        "cat-1.jpg", "old.tar.gz", " .x", "x. ", "\u{e9}t\u{e9}.\u{fc}", "PHOTO.JPG", ".png",
        "a b.c d", "....", "a.b.",
    ];
    for name in names {
        assert_eq!(ImageFileManager::extension_of(name), after_last_dot(name), "{:?}", name);
    }
    assert_eq!(ImageFileManager::extension_of("cat-1.png"), Some("png".to_string()));
    assert_eq!(ImageFileManager::extension_of("a."), Some(String::new()));
    assert_eq!(ImageFileManager::extension_of("..."), Some(String::new()));
    assert_eq!(ImageFileManager::extension_of(".."), None);
    assert_eq!(ImageFileManager::extension_of(".png"), None);
    assert_eq!(ImageFileManager::extension_of("dir.d/name"), None);
    let manager = ImageFileManager::new("data/images");
    assert_eq!(manager.rename_target("cat-1.png", "cat-2"), "cat-2.png");
    assert_eq!(manager.rename_target("a.", "b"), "b.");
    assert_eq!(manager.rename_target("..", "b"), "b.jpg");
}

#[test]
fn missing_file_counts_as_deleted() {
    let manager = ImageFileManager::new("data/images");
    assert_eq!(manager.delete_plan(false), DeletePlan::AlreadyAbsent);
    assert_eq!(manager.delete_plan(true), DeletePlan::Remove);
}

#[test]
fn urls_are_built_from_the_settings() {
    let config = Config::default();
    assert_eq!(config.get_detail_url("cat-1"), "http://localhost:8080/post/cat-1");
    assert_eq!(config.get_image_url("cat-1"), "http://localhost:8080/images/cat-1");
    assert_eq!(config.get_image_url(""), "http://localhost:8080/images/");
    let other = Config {
        site: SiteConfig { base_url: "https://x.y".to_string(), ..SiteConfig::default() },
        routes: RoutesConfig { detail_path: "p".to_string(), images_path: "i".to_string() },
        server: ServerConfig::default(),
        meta: MetaConfig::default(),
    };
    assert_eq!(other.get_detail_url("s"), "https://x.y/p/s");
    assert_eq!(other.get_image_url("s"), "https://x.y/i/s");
}

#[test]
fn defaults_are_the_documented_ones() {
    let config = Config::default();
    assert_eq!(config.site.name, "My CraftCMS Site");
    assert_eq!(config.site.title, "Welcome to CraftCMS");
    assert_eq!(
        config.site.description,
        "A simple CMS for managing and serving templated HTML documents with images."
    );
    assert_eq!(config.site.base_url, "http://localhost:8080");
    assert_eq!(config.routes.detail_path, "post");
    assert_eq!(config.routes.images_path, "images");
    assert_eq!(config.server.host, "127.0.0.1");
    assert_eq!(config.server.port, 8080);
    assert_eq!(config.meta.author, "CraftCMS User");
    assert_eq!(config.meta.creator_suffix, "Created with CraftCMS");
}

#[test]
fn errors_carry_their_message() {
    let error = CustomError::new("boom".to_string());
    assert_eq!(error.message, "boom");
    assert_eq!(error.to_string(), "boom");
    assert_eq!(Failure::io("x".to_string()).kind, ErrorKind::IOFailure);
    assert_eq!(Failure::io("x".to_string()).to_string(), "x");
    let response = LoginResponse { access_token: "t".to_string() };
    assert_eq!(response.access_token, "t");
}

#[test]
fn image_keeps_its_metadata_under_a_new_file_name() {
    let image = Image {
        alt: "a".to_string(),
        description: "d".to_string(),
        slug: "s".to_string(),
        keywords: vec!["k".to_string()],
        filename: String::new(),
    };
    let named = image.clone().with_filename("s.png".to_string());
    assert_eq!(named, Image { filename: "s.png".to_string(), ..image });
}

#[test]
fn deletion_is_confirmed_by_y_only() {
    assert!(confirms_deletion("y"));
    assert!(confirms_deletion("  Y \n"));
    assert!(!confirms_deletion("yes"));
    assert!(!confirms_deletion(""));
    assert!(!confirms_deletion("n"));
    assert!(is_yes("y"));
    assert!(!is_yes("Y"));
}

#[test]
fn user_is_created_only_when_the_passwords_agree() {
    assert_eq!(create_user_command("a@b.c\n", "one", "two"), UserCreation::PasswordsDiffer);
    match create_user_command("  a@b.c \n", "one", "one") {
        UserCreation::Ready(user) => {
            assert_eq!(user.email, "a@b.c");
            assert_eq!(verify_user(&user.password_hash, "one"), Ok(true));
        }
        other => panic!("unexpected {:?}", other),
    }
}

#[test]
fn imported_image_takes_its_path_from_the_input() {
    let input = ImageInput {
        url: "/tmp/pictures/dog.jpeg".to_string(),
        alt: "dog".to_string(),
        description: "a dog".to_string(),
        slug: "dog-1".to_string(),
        keywords: vec!["pet".to_string()],
        image_type: "photo".to_string(),
    };
    let (image, path) = input.clone().into_image();
    assert_eq!(path, "/tmp/pictures/dog.jpeg");
    assert_eq!(image.filename, "");
    assert_eq!(image.slug, "dog-1");
    assert_eq!(image.keywords, vec!["pet"]);
    match handle_insert_image(input, vec![1, 2, 3]) {
        Step::Call { request, .. } => assert_eq!(
            request,
            StoreRequest::SaveBlob {
                data: vec![1, 2, 3],
                slug: "dog-1".to_string(),
                media: MediaType::new("image", "jpeg")
            }
        ),
        Step::Finish { .. } => panic!("a create starts with a request"),
    }
}
