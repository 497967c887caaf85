use chat_notify::error::{AppError, ErrorOutput};
use chat_notify::files::{check_file_workspace, file_content_type};
use chat_notify::models::{
    chat_not_found, deletion_reply, require_chat, Chat, ChatPatch, ChatType, CreateChat,
    CreateChatFault, Timestamp, UpdateChat,
};
use chat_notify::password::{hash_password, verify_password, verify_stored_password};
use chat_notify::text::decimal;

fn existing_chat() -> Chat {
    Chat {
        id: 1,
        ws_id: 1,
        name: Some("general".to_string()),
        chat_type: ChatType::PublicChannel,
        members: vec![1, 2, 3, 4, 5],
        created_at: Timestamp { secs: 0, nanos: 0 },
        deleted_at: None,
    }
}

fn create_error(text: &str) -> AppError {
    AppError::CreateChatError(text.to_string())
}

#[test]
fn hash_password_and_verify_should_work() {
    let password = "hunter42";
    let password_hash = hash_password(password).unwrap();
    assert_eq!(password_hash.len(), 97);
    assert!(verify_password(password, &password_hash).unwrap());
}

#[test]
fn a_wrong_password_does_not_verify() {
    let password_hash = hash_password("hunter42").unwrap();
    assert!(!verify_password("hunter43", &password_hash).unwrap());
    assert!(!verify_password("", &password_hash).unwrap());
}

#[test]
fn two_hashes_of_one_password_differ() {
    let first = hash_password("hunter42").unwrap();
    let second = hash_password("hunter42").unwrap();
    assert_ne!(first, second);
    assert!(verify_password("hunter42", &first).unwrap());
    assert!(verify_password("hunter42", &second).unwrap());
}

#[test]
fn a_text_that_is_no_hash_is_an_error() {
    assert!(matches!(
        verify_password("hunter42", "not a hash"),
        Err(AppError::PasswordHashError(_))
    ));
    assert!(matches!(verify_password("hunter42", ""), Err(AppError::PasswordHashError(_))));
}

#[test]
fn a_stored_hash_is_checked_and_a_missing_one_is_an_error() {
    let stored = hash_password("hunter42").unwrap();
    assert!(verify_stored_password("hunter42", Some(&stored)).unwrap());
    assert!(!verify_stored_password("other", Some(&stored)).unwrap());
    assert!(matches!(
        verify_stored_password("hunter42", None),
        Err(AppError::PasswordHashError(_))
    ));
}

#[test]
fn create_chat_new_reads_an_empty_name_as_none() {
    let input = CreateChat::new("", &[1, 2], false);
    assert_eq!(input.name, None);
    assert_eq!(input.members, vec![1, 2]);
    assert!(!input.public);
    let input = CreateChat::new("general", &[1, 2, 3], true);
    assert_eq!(input.name, Some("general".to_string()));
    assert_eq!(input.members, vec![1, 2, 3]);
    assert!(input.public);
}

#[test]
fn a_chat_needs_two_members() {
    assert_eq!(
        CreateChat::new("", &[1], false).validate(),
        Err(create_error("Chat must be at least 2 members"))
    );
    assert_eq!(
        CreateChat::new("named", &[], true).validate(),
        Err(create_error("Chat must be at least 2 members"))
    );
    assert_eq!(CreateChat::new("", &[1, 2], false).validate(), Ok(()));
}

#[test]
fn a_large_chat_needs_a_name() {
    let nine = [1, 2, 3, 4, 5, 6, 7, 8, 9];
    assert_eq!(
        CreateChat::new("", &nine, false).validate(),
        Err(create_error("Group chat with more than 8 members must have a name"))
    );
    assert_eq!(CreateChat::new("", &nine[..8], false).validate(), Ok(()));
    assert_eq!(CreateChat::new("all hands", &nine, false).validate(), Ok(()));
}

#[test]
fn the_kind_of_chat_goes_by_name_and_size() {
    assert_eq!(CreateChat::new("", &[1, 2], false).chat_type(), ChatType::Single);
    assert_eq!(CreateChat::new("", &[1, 2], true).chat_type(), ChatType::Single);
    assert_eq!(CreateChat::new("", &[1, 2, 3], false).chat_type(), ChatType::Group);
    assert_eq!(CreateChat::new("general", &[1, 2, 3], true).chat_type(), ChatType::PublicChannel);
    assert_eq!(CreateChat::new("core", &[1, 2], false).chat_type(), ChatType::PrivateChannel);
}

#[test]
fn create_single_chat_is_planned() {
    let input = CreateChat::new("", &[1, 2], false);
    assert_eq!(input.resolve(2), Ok(ChatType::Single));
}

#[test]
fn create_public_named_chat_is_planned() {
    let input = CreateChat::new("general", &[1, 2, 3], true);
    assert_eq!(input.resolve(3), Ok(ChatType::PublicChannel));
}

#[test]
fn unknown_members_stop_the_creation() {
    let input = CreateChat::new("general", &[1, 2, 3], true);
    assert_eq!(input.resolve(2), Err(create_error("Some members do not exist")));
    assert_eq!(input.resolve(4), Err(create_error("Some members do not exist")));
    assert_eq!(
        CreateChat::new("", &[1], false).resolve(1),
        Err(create_error("Chat must be at least 2 members"))
    );
}

#[test]
fn faults_are_reported_as_create_chat_errors() {
    assert_eq!(
        CreateChatFault::TooFewMembers.to_error(),
        create_error("Chat must be at least 2 members")
    );
    assert_eq!(
        CreateChatFault::NameMissing.to_error(),
        create_error("Group chat with more than 8 members must have a name")
    );
    assert_eq!(
        CreateChatFault::UnknownMembers.to_error(),
        create_error("Some members do not exist")
    );
}

#[test]
fn an_update_replaces_what_it_names() {
    let chat = existing_chat();
    let input = UpdateChat { name: Some("new name".to_string()), members: Some(vec![1, 2, 3]) };
    assert_eq!(
        input.apply(1, Some(&chat)),
        Ok(ChatPatch { name: Some("new name".to_string()), members: vec![1, 2, 3] })
    );
    let input = UpdateChat { name: None, members: None };
    assert_eq!(
        input.apply(1, Some(&chat)),
        Ok(ChatPatch { name: Some("general".to_string()), members: vec![1, 2, 3, 4, 5] })
    );
    let input = UpdateChat { name: None, members: Some(vec![8, 9]) };
    assert_eq!(
        input.apply(1, Some(&chat)),
        Ok(ChatPatch { name: Some("general".to_string()), members: vec![8, 9] })
    );
}

#[test]
fn an_update_keeps_two_members() {
    let chat = existing_chat();
    let input = UpdateChat { name: None, members: Some(vec![1]) };
    assert_eq!(
        input.apply(1, Some(&chat)),
        Err(AppError::UpdateChatError("Chat must be at least 2 members".to_string()))
    );
}

#[test]
fn an_update_of_a_missing_chat_is_not_found() {
    let input = UpdateChat { name: Some("x".to_string()), members: None };
    assert_eq!(
        input.apply(10, None),
        Err(AppError::NotFound("Chat with id 10 not found".to_string()))
    );
}

#[test]
fn missing_chats_are_reported_by_identity() {
    assert_eq!(chat_not_found(0), AppError::NotFound("Chat with id 0 not found".to_string()));
    assert_eq!(
        chat_not_found(u64::MAX),
        AppError::NotFound("Chat with id 18446744073709551615 not found".to_string())
    );
    assert_eq!(require_chat(1, Some(existing_chat())), Ok(existing_chat()));
    assert_eq!(
        require_chat(77, None),
        Err(AppError::NotFound("Chat with id 77 not found".to_string()))
    );
}

#[test]
fn the_reply_to_a_deletion_goes_by_its_success() {
    assert_eq!(deletion_reply(3, true), Ok("Chat deleted successfully"));
    assert_eq!(
        deletion_reply(3, false),
        Err(AppError::AnyError("Failed to delete chat with id 3".to_string()))
    );
}

#[test]
fn numbers_are_written_in_decimal() {
    assert_eq!(decimal(0), "0");
    assert_eq!(decimal(7), "7");
    assert_eq!(decimal(10), "10");
    assert_eq!(decimal(1234567890), "1234567890");
    assert_eq!(decimal(u64::MAX), u64::MAX.to_string());
}

#[test]
fn every_error_has_its_status() {
    let text = || "x".to_string();
    assert_eq!(AppError::EmailAlreadyExists(text()).status_code(), 409);
    assert_eq!(AppError::SqlxError(text()).status_code(), 500);
    assert_eq!(AppError::PasswordHashError(text()).status_code(), 422);
    assert_eq!(AppError::AnyError(text()).status_code(), 500);
    assert_eq!(AppError::CreateChatError(text()).status_code(), 400);
    assert_eq!(AppError::UpdateChatError(text()).status_code(), 400);
    assert_eq!(AppError::NotFound(text()).status_code(), 404);
    assert_eq!(AppError::IoError(text()).status_code(), 500);
    assert_eq!(AppError::MultipartError(text()).status_code(), 400);
    assert_eq!(AppError::CreateMessageError(text()).status_code(), 400);
    assert_eq!(AppError::ChatFileError(text()).status_code(), 400);
    assert_eq!(AppError::HeaderError(text()).status_code(), 400);
}

#[test]
fn every_error_has_its_message() {
    let text = || "x".to_string();
    assert_eq!(AppError::EmailAlreadyExists(text()).message(), "email already exists: x");
    assert_eq!(AppError::SqlxError(text()).message(), "sql error: x");
    assert_eq!(AppError::PasswordHashError(text()).message(), "password hash error: x");
    assert_eq!(AppError::AnyError(text()).message(), "general error: x");
    assert_eq!(AppError::CreateChatError(text()).message(), "create chat error: x");
    assert_eq!(AppError::UpdateChatError(text()).message(), "update chat error: x");
    assert_eq!(AppError::NotFound(text()).message(), "Not found: x");
    assert_eq!(AppError::IoError(text()).message(), "io error: x");
    assert_eq!(AppError::MultipartError(text()).message(), "multipart error: x");
    assert_eq!(AppError::CreateMessageError(text()).message(), "create message error: x");
    assert_eq!(AppError::ChatFileError(text()).message(), "chat file error: x");
    assert_eq!(AppError::HeaderError(text()).message(), "parse header value: x");
}

#[test]
fn the_body_of_an_error_is_its_message() {
    let error = AppError::NotFound("Chat with id 9 not found".to_string());
    assert_eq!(
        error.to_output(),
        ErrorOutput { error: "Not found: Chat with id 9 not found".to_string() }
    );
    assert_eq!(ErrorOutput::new("boom".to_string()).error, "boom");
}

#[test]
fn files_belong_to_a_workspace() {
    assert_eq!(check_file_workspace(1, 1), Ok(()));
    assert_eq!(
        check_file_workspace(1, 2),
        Err(AppError::NotFound(
            "File does not exist or you do not have access to it".to_string()
        ))
    );
}

#[test]
fn a_file_is_served_with_the_type_of_its_extension() {
    assert_eq!(file_content_type("files/1/abc/photo.png", true), Ok("image/png".to_string()));
    assert_eq!(file_content_type("notes.txt", true), Ok("text/plain".to_string()));
    assert_eq!(
        file_content_type("files/1/abc/blob", true),
        Ok("application/octet-stream".to_string())
    );
    assert_eq!(
        file_content_type("files/1/abc/photo.png", false),
        Err(AppError::NotFound("File does not exist".to_string()))
    );
}
