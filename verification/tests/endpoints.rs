use blog_api::accounts::{
    account_or_refusal, credentials, login, login_at, login_reply, new_user, password_digest,
    user_created_reply, LoginRequest, RegisterRequest, UserResponse,
};
use blog_api::api_response::{
    done_or_refusal, found_or_refusal, serialization_fallback, ApiResponse,
};
use blog_api::config::{
    address_or_default, bind_address, port_or_default, region_or_default, setting_or,
};
use blog_api::files::{
    content_type_or_default, extension_or_default, file_name_or_refusal, fresh_object_key,
    object_key, object_url, open_failure_reply, read_failure_reply, storage_extension,
    upload_reply,
};
use blog_api::home::{all_users_reply, hello_reply};
use blog_api::jwt::decode_jwt_at;
use blog_api::posts::{
    get_post_reply, new_post, post_created_reply, post_deleted_reply, post_id_from_path,
    post_or_refusal, post_updated_reply, posts_of_user_reply, CreatePostRequest,
};
use blog_api::users::{get_user_reply, user_id_from_path, user_or_refusal, user_updated_reply};
use blog_api::websocket::{echo, EchoStep, Incoming, Outgoing};

fn shows(reply: &ApiResponse<String>, status: u16, message: &str, data: &str) -> bool {
    reply.status == status && reply.message == message && reply.data == data
}

fn ann() -> UserResponse {
    UserResponse {
        id: 12,
        name: "Ann".to_string(),
        email: "ann@example.com".to_string(),
        created_at: "2024-01-01 10:00:00".to_string(),
        updated_at: "2024-01-02 11:00:00".to_string(),
    }
}

#[test]
fn api_response_new_keeps_its_parts() {
    let reply = ApiResponse::new(201, "made".to_string(), vec![1, 2, 3]);
    assert_eq!(reply.status, 201);
    assert_eq!(reply.message, "made");
    assert_eq!(reply.data, vec![1, 2, 3]);
    assert_eq!(reply.message_text(), "made");
    assert!(reply.has_sendable_status());
    assert!(!ApiResponse::new(99, String::new(), ()).has_sendable_status());
    assert!(ApiResponse::new(100, String::new(), ()).has_sendable_status());
    assert!(ApiResponse::new(999, String::new(), ()).has_sendable_status());
    assert!(!ApiResponse::new(1000, String::new(), ()).has_sendable_status());
    let ok = ApiResponse::success("fine", 5u8);
    assert_eq!((ok.status, ok.message.as_str(), ok.data), (200, "fine", 5));
    assert!(shows(&ApiResponse::text(404, "gone", "nothing"), 404, "gone", "nothing"));
    assert_eq!(
        serialization_fallback(),
        "{\"status\": 500, \"message\": \"Serialization error\", \"data\": null}"
    );
}

#[test]
fn lookups_turn_into_items_or_refusals() {
    assert_eq!(found_or_refusal(Ok(Some(5)), "none", "x").unwrap(), 5);
    assert!(shows(&found_or_refusal::<u8>(Ok(None), "none", "x").unwrap_err(), 404, "none", "x"));
    assert!(shows(
        &found_or_refusal::<u8>(Err("boom".to_string()), "none", "x").unwrap_err(),
        500,
        "Database error",
        ""
    ));
    let done = done_or_refusal(Ok(7), "done", "failed").unwrap();
    assert_eq!((done.status, done.message.as_str(), done.data), (200, "done", 7));
    assert!(shows(
        &done_or_refusal::<u8>(Err("boom".to_string()), "done", "failed").unwrap_err(),
        500,
        "failed",
        ""
    ));
}

#[test]
fn user_paths_name_ids() {
    assert_eq!(user_id_from_path("15").unwrap(), 15);
    assert_eq!(user_id_from_path("-15").unwrap(), -15);
    assert!(shows(&user_id_from_path("abc").unwrap_err(), 400, "Invalid user ID format", "Bad Request"));
    assert!(shows(&user_id_from_path("").unwrap_err(), 400, "Invalid user ID format", "Bad Request"));
    assert!(shows(
        &user_id_from_path("2147483648").unwrap_err(),
        400,
        "Invalid user ID format",
        "Bad Request"
    ));
}

#[test]
fn user_replies() {
    let found = get_user_reply(Ok(Some("ann"))).unwrap();
    assert_eq!((found.status, found.message.as_str(), found.data), (200, "User found", "ann"));
    assert!(shows(&get_user_reply::<u8>(Ok(None)).unwrap_err(), 404, "User not found", "User not found"));
    assert!(shows(
        &get_user_reply::<u8>(Err("db down".to_string())).unwrap_err(),
        500,
        "Database error",
        ""
    ));
    assert_eq!(user_or_refusal(Ok(Some(1))).unwrap(), 1);
    assert!(shows(&user_or_refusal::<u8>(Ok(None)).unwrap_err(), 404, "User not found", "User not found"));
    let updated = user_updated_reply(Ok("ann")).unwrap();
    assert_eq!((updated.status, updated.message.as_str(), updated.data), (200, "User updated", "ann"));
    assert!(shows(
        &user_updated_reply::<u8>(Err("db down".to_string())).unwrap_err(),
        500,
        "Failed to update user",
        ""
    ));
}

#[test]
fn post_paths_name_ids() {
    assert_eq!(post_id_from_path("8").unwrap(), 8);
    assert!(shows(&post_id_from_path("eight").unwrap_err(), 400, "Invalid post ID format", ""));
}

#[test]
fn new_posts_need_a_numeric_author() {
    let request = CreatePostRequest {
        user_id: "4".to_string(),
        title: "Title".to_string(),
        text: "Text".to_string(),
        banner: Some("b.png".to_string()),
    };
    let post = new_post(request).unwrap();
    assert_eq!(post.user_id, 4);
    assert_eq!(post.title, "Title");
    assert_eq!(post.text, "Text");
    assert_eq!(post.banner, Some("b.png".to_string()));
    let request = CreatePostRequest {
        user_id: "four".to_string(),
        title: "Title".to_string(),
        text: "Text".to_string(),
        banner: None,
    };
    assert!(shows(&new_post(request).unwrap_err(), 400, "Invalid user_id format", ""));
}

#[test]
fn post_replies() {
    let found = get_post_reply(Ok(Some(1))).unwrap();
    assert_eq!((found.status, found.message.as_str(), found.data), (200, "Post found", 1));
    assert!(shows(&get_post_reply::<u8>(Ok(None)).unwrap_err(), 404, "Post not found", ""));
    assert!(shows(&get_post_reply::<u8>(Err("x".to_string())).unwrap_err(), 500, "Database error", ""));
    assert!(shows(&post_or_refusal::<u8>(Ok(None)).unwrap_err(), 404, "Post not found", ""));
    let created = post_created_reply(Ok(2)).unwrap();
    assert_eq!((created.status, created.message.as_str(), created.data), (200, "Post created", 2));
    assert!(shows(&post_created_reply::<u8>(Err("x".to_string())).unwrap_err(), 500, "Database error", ""));
    let updated = post_updated_reply(Ok(3)).unwrap();
    assert_eq!((updated.status, updated.message.as_str(), updated.data), (200, "Post updated", 3));
    assert!(shows(&post_updated_reply::<u8>(Err("x".to_string())).unwrap_err(), 500, "Database error", ""));
    let deleted = post_deleted_reply(4, Ok(())).unwrap();
    assert_eq!((deleted.status, deleted.message.as_str(), deleted.data), (200, "Post deleted", 4));
    assert!(shows(&post_deleted_reply(4, Err("x".to_string())).unwrap_err(), 500, "Database error", ""));
    let mine = posts_of_user_reply(Ok(vec![1, 2, 3])).unwrap();
    assert_eq!((mine.status, mine.message.as_str()), (200, "Posts found: 3"));
    assert_eq!(mine.data, vec![1, 2, 3]);
    let nothing = posts_of_user_reply(Ok(Vec::<u8>::new())).unwrap();
    assert_eq!(nothing.message, "Posts found: 0");
    assert!(shows(&posts_of_user_reply::<u8>(Err("x".to_string())).unwrap_err(), 500, "Database error", ""));
}

#[test]
fn passwords_are_stored_as_digests() {
    assert_eq!(
        password_digest("hello"),
        "2cf24dba5fb0a30e26e83b2ac5b9e29e1b161e5c1fa7425e73043362938b9824"
    );
    assert_eq!(
        password_digest(""),
        "e3b0c44298fc1c149afbf4c8996fb92427ae41e4649b934ca495991b7852b855"
    );
    let user = new_user(RegisterRequest {
        name: "Ann".to_string(),
        email: "ann@example.com".to_string(),
        password: "hello".to_string(),
    });
    assert_eq!(user.name, "Ann");
    assert_eq!(user.email, "ann@example.com");
    assert_eq!(
        user.password_digest,
        "2cf24dba5fb0a30e26e83b2ac5b9e29e1b161e5c1fa7425e73043362938b9824"
    );
    let wanted = credentials(LoginRequest {
        email: "ann@example.com".to_string(),
        password: "hello".to_string(),
    });
    assert_eq!(wanted.email, "ann@example.com");
    assert_eq!(wanted.password_digest, user.password_digest);
}

#[test]
fn registration_replies() {
    let made = user_created_reply(Ok((31, "ann"))).unwrap();
    assert_eq!((made.status, made.message.as_str(), made.data), (200, "User created successfully: 31", "ann"));
    let negative = user_created_reply(Ok((-5, "odd"))).unwrap();
    assert_eq!(negative.message, "User created successfully: -5");
    assert!(shows(
        &user_created_reply::<u8>(Err("duplicate key".to_string())).unwrap_err(),
        500,
        "Failed to create user",
        ""
    ));
}

#[test]
fn login_refusals() {
    assert!(shows(&account_or_refusal(Ok(None)).unwrap_err(), 401, "User not found", "User not found"));
    assert!(shows(
        &account_or_refusal(Err("db down".to_string())).unwrap_err(),
        500,
        "Database error",
        ""
    ));
    assert_eq!(account_or_refusal(Ok(Some(ann()))).unwrap().id, 12);
    assert!(shows(&login_at(Ok(None), "s", 5).unwrap_err(), 401, "User not found", "User not found"));
    assert!(shows(&login_at(Err("x".to_string()), "s", 5).unwrap_err(), 500, "Database error", ""));
    assert!(shows(&login(Ok(None), "s").unwrap_err(), 401, "User not found", "User not found"));
}

#[test]
fn login_issues_a_token_for_the_user() {
    let reply = login_at(Ok(Some(ann())), "login-secret", 1_000).unwrap();
    assert_eq!(reply.status, 200);
    assert_eq!(reply.message, "Login successful");
    assert_eq!(reply.data.user.id, 12);
    assert_eq!(reply.data.user.name, "Ann");
    assert_eq!(reply.data.user.created_at, "2024-01-01 10:00:00");
    let claims = decode_jwt_at(&reply.data.token, "login-secret", 1_001).unwrap();
    assert_eq!(claims.user_id, 12);
    assert_eq!(claims.email, "ann@example.com");
    assert_eq!(claims.iat, 1_000);
    assert_eq!(claims.exp, 87_400);
    let by_clock = login(Ok(Some(ann())), "login-secret").unwrap();
    assert_eq!(by_clock.data.user.email, "ann@example.com");
    assert_eq!(by_clock.data.token.split('.').count(), 3);
    let plain = login_reply(ann(), "tok".to_string());
    assert_eq!((plain.status, plain.message.as_str(), plain.data.token.as_str()), (200, "Login successful", "tok"));
}

#[test]
fn greetings() {
    assert!(shows(&hello_reply("Ann"), 200, "Hello, Ann!", "Ann"));
    assert!(shows(&hello_reply(""), 200, "Hello, !", ""));
    let all = all_users_reply(vec!["a", "b"]);
    assert_eq!((all.status, all.message.as_str()), (200, "Found users 2"));
    assert_eq!(all.data, vec!["a", "b"]);
}

#[test]
fn upload_names_and_defaults() {
    assert_eq!(file_name_or_refusal(Some("a.png".to_string())).unwrap(), "a.png");
    assert!(shows(&file_name_or_refusal(None).unwrap_err(), 400, "File name is required", ""));
    assert_eq!(content_type_or_default(Some("image/png".to_string())), "image/png");
    assert_eq!(content_type_or_default(None), "application/octet-stream");
    assert_eq!(extension_or_default(Some("png".to_string())), "png");
    assert_eq!(extension_or_default(None), "bin");
    assert_eq!(storage_extension("photo.png"), "png");
    assert_eq!(storage_extension("archive.tar.gz"), "gz");
    assert_eq!(storage_extension("README"), "bin");
    assert_eq!(storage_extension(".hidden"), "bin");
    assert_eq!(storage_extension(""), "bin");
}

#[test]
fn upload_keys_and_addresses() {
    assert_eq!(object_key("abc", "png"), "uploads/abc.png");
    assert_eq!(
        object_url("bucket", "eu-west-1", "uploads/abc.png"),
        "https://bucket.s3.eu-west-1.amazonaws.com/uploads/abc.png"
    );
    let key = fresh_object_key("jpg");
    assert!(key.starts_with("uploads/"));
    assert!(key.ends_with(".jpg"));
    assert_eq!(key.len(), "uploads/".len() + 36 + ".jpg".len());
    assert_ne!(key, fresh_object_key("jpg"));
}

#[test]
fn upload_replies() {
    let done = upload_reply(Ok(()), "bucket", "us-east-1", "uploads/k.bin".to_string()).unwrap();
    assert_eq!(done.status, 200);
    assert_eq!(done.message, "File uploaded successfully");
    assert_eq!(done.data.message, "File uploaded successfully");
    assert_eq!(done.data.file_url, "https://bucket.s3.us-east-1.amazonaws.com/uploads/k.bin");
    assert_eq!(done.data.file_key, "uploads/k.bin");
    let failed = upload_reply(Err("denied".to_string()), "b", "r", "k".to_string()).unwrap_err();
    assert!(shows(&failed, 500, "S3 upload failed: denied", ""));
    assert!(shows(&open_failure_reply("no such file"), 500, "Failed to read file: no such file", ""));
    assert!(shows(
        &read_failure_reply("interrupted"),
        500,
        "Failed to read file content: interrupted",
        ""
    ));
}

#[test]
fn echo_sends_back_what_came() {
    match echo(Incoming::Text("hi".to_string())) {
        EchoStep::Send(Outgoing::Text(text)) => assert_eq!(text, "hi"),
        other => panic!("unexpected step {:?}", other),
    }
    match echo(Incoming::Binary(vec![1, 2])) {
        EchoStep::Send(Outgoing::Binary(bytes)) => assert_eq!(bytes, vec![1, 2]),
        other => panic!("unexpected step {:?}", other),
    }
    match echo(Incoming::Ping(vec![9])) {
        EchoStep::Send(Outgoing::Pong(bytes)) => assert_eq!(bytes, vec![9]),
        other => panic!("unexpected step {:?}", other),
    }
    assert!(matches!(echo(Incoming::Close), EchoStep::Stop));
    assert!(matches!(echo(Incoming::Pong(vec![1])), EchoStep::Wait));
    assert!(matches!(echo(Incoming::Other), EchoStep::Wait));
}

#[test]
fn settings_have_defaults() {
    assert_eq!(address_or_default(None), "0.0.0.0");
    assert_eq!(address_or_default(Some("127.0.0.1".to_string())), "127.0.0.1");
    assert_eq!(region_or_default(None), "us-east-1");
    assert_eq!(region_or_default(Some("eu-west-1".to_string())), "eu-west-1");
    assert_eq!(setting_or(None, "d"), "d");
    assert_eq!(setting_or(Some("s".to_string()), "d"), "s");
    assert_eq!(port_or_default(None), Some(3000));
    assert_eq!(port_or_default(Some("8080".to_string())), Some(8080));
    assert_eq!(port_or_default(Some("65536".to_string())), None);
    assert_eq!(port_or_default(Some("http".to_string())), None);
    assert_eq!(bind_address("0.0.0.0", 3000), "0.0.0.0:3000");
}

#[test]
fn stored_extension_stands_behind_a_dot_of_the_name() {
    let names = [
        "photo.png", "archive.tar.gz", "README", ".hidden", "", "a.", "a..b", "..", ".",
        "dir.d/file", "dir.d/file.txt", "a.txt/", "a.txt/.", "x.y.z/", "name.", "UPPER.JPG",
        "zürich.jpeg", "a b.c d",
    ];
    for name in names {
        let chosen = storage_extension(name);
        assert!(!chosen.contains('.'), "for {:?}", name);
        let behind_a_dot = name.contains(&format!(".{}", chosen));
        assert!(chosen == "bin" || behind_a_dot, "for {:?}", name);
        if !name.contains('.') {
            assert_eq!(chosen, "bin", "for {:?}", name);
        }
    }
    assert_eq!(storage_extension("a."), "");
    assert_eq!(storage_extension("dir.d/file"), "bin");
    assert_eq!(storage_extension("dir.d/file.txt"), "txt");
    assert_eq!(storage_extension("zürich.jpeg"), "jpeg");
}
