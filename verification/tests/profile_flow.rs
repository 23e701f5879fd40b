use brawler_profiles::domain::{RegisterRequest, UpdateProfileRequest, VerifiedIdentity};
use brawler_profiles::encoding::{decode, encode};
use brawler_profiles::handlers::{register, update_profile, upload_avatar_multipart, ApiResponse};
use brawler_profiles::multipart::MultipartPart;
use brawler_profiles::repository::MemoryBrawlerRepository;
use brawler_profiles::use_cases::BrawlersUseCase;

fn service() -> BrawlersUseCase<MemoryBrawlerRepository> {
    BrawlersUseCase::new(MemoryBrawlerRepository::new())
}

fn register_handle(
    use_case: &mut BrawlersUseCase<MemoryBrawlerRepository>,
    handle: &str,
) -> ApiResponse {
    register(use_case, RegisterRequest { handle: handle.to_string() })
}

fn part(name: Option<&str>, body: Result<Vec<u8>, &str>) -> MultipartPart {
    MultipartPart {
        name: name.map(|n| n.to_string()),
        body: body.map_err(|e| e.to_string()),
    }
}

#[test]
fn register_creates_brawler() {
    let mut use_case = service();
    let response = register_handle(&mut use_case, "nova");
    assert_eq!(response.status_code(), 201);
    let created = match response {
        ApiResponse::Created(b) => b,
        other => panic!("expected a created brawler, got status {}", other.status_code()),
    };
    assert_eq!(created.handle, "nova");
    assert_eq!(created.display_name, "nova");
    assert_eq!(created.avatar, None);

    let repository = use_case.into_repository();
    let stored = repository.find_by_id(created.id).expect("the new brawler is stored");
    assert_eq!(stored.handle, "nova");
    assert_eq!(stored.display_name, "nova");
    assert_eq!(stored.avatar, None);
}

#[test]
fn register_conflict_leaves_existing_brawler_unchanged() {
    let mut use_case = service();
    let first = match register_handle(&mut use_case, "nova") {
        ApiResponse::Created(b) => b,
        _ => panic!("first registration must succeed"),
    };
    assert_eq!(
        update_profile(
            &mut use_case,
            VerifiedIdentity { brawler_id: first.id },
            UpdateProfileRequest { display_name: "Nova Prime".to_string() },
        )
        .status_code(),
        200,
    );

    let response = register_handle(&mut use_case, "nova");
    assert_eq!(response.status_code(), 500);
    assert!(matches!(response, ApiResponse::ServerError(_)));

    let repository = use_case.into_repository();
    let stored = repository.find_by_id(first.id).expect("the first brawler is kept");
    assert_eq!(stored.handle, "nova");
    assert_eq!(stored.display_name, "Nova Prime");
}

#[test]
fn distinct_handles_get_distinct_ids() {
    let mut use_case = service();
    let a = match register_handle(&mut use_case, "nova") {
        ApiResponse::Created(b) => b,
        _ => panic!("registration must succeed"),
    };
    let b = match register_handle(&mut use_case, "vega") {
        ApiResponse::Created(b) => b,
        _ => panic!("registration must succeed"),
    };
    assert_ne!(a.id, b.id);
}

#[test]
fn update_profile_retry_is_observably_idempotent() {
    let mut use_case = service();
    let created = match register_handle(&mut use_case, "nova") {
        ApiResponse::Created(b) => b,
        _ => panic!("registration must succeed"),
    };
    let identity = VerifiedIdentity { brawler_id: created.id };

    let first = update_profile(
        &mut use_case,
        identity,
        UpdateProfileRequest { display_name: "Nova".to_string() },
    );
    assert_eq!(first.status_code(), 200);
    assert!(matches!(first, ApiResponse::Updated));

    let second = update_profile(
        &mut use_case,
        identity,
        UpdateProfileRequest { display_name: "Nova".to_string() },
    );
    assert_eq!(second.status_code(), 200);
    assert!(matches!(second, ApiResponse::Updated));

    let repository = use_case.into_repository();
    let stored = repository.find_by_id(created.id).expect("the brawler is kept");
    assert_eq!(stored.display_name, "Nova");
    assert_eq!(stored.handle, "nova");
}

#[test]
fn update_profile_for_unknown_identity_fails() {
    let mut use_case = service();
    let response = update_profile(
        &mut use_case,
        VerifiedIdentity { brawler_id: 41 },
        UpdateProfileRequest { display_name: "ghost".to_string() },
    );
    assert_eq!(response.status_code(), 500);
}

#[test]
fn upload_avatar_first_matching_part_wins() {
    let mut use_case = service();
    let created = match register_handle(&mut use_case, "nova") {
        ApiResponse::Created(b) => b,
        _ => panic!("registration must succeed"),
    };
    let parts = vec![
        part(Some("x"), Ok(vec![9, 9, 9])),
        part(Some("avatar"), Ok(vec![1, 2, 3])),
        part(Some("avatar"), Ok(vec![4, 5, 6])),
    ];
    let response = upload_avatar_multipart(
        &mut use_case,
        VerifiedIdentity { brawler_id: created.id },
        &parts,
    );
    assert_eq!(response.status_code(), 200);
    let uploaded = match response {
        ApiResponse::Uploaded(u) => u,
        _ => panic!("expected an uploaded avatar"),
    };
    assert_eq!(uploaded.brawler_id, created.id);
    assert_eq!(uploaded.encoded, encode(&vec![1, 2, 3]));
    assert_eq!(decode(&uploaded.encoded), Ok(vec![1, 2, 3]));
}

#[test]
fn upload_without_avatar_part_mutates_nothing() {
    let mut use_case = service();
    let created = match register_handle(&mut use_case, "nova") {
        ApiResponse::Created(b) => b,
        _ => panic!("registration must succeed"),
    };
    let parts = vec![part(Some("x"), Ok(vec![1, 2, 3])), part(None, Ok(vec![4]))];
    let response = upload_avatar_multipart(
        &mut use_case,
        VerifiedIdentity { brawler_id: created.id },
        &parts,
    );
    assert_eq!(response.status_code(), 400);
    assert!(matches!(response, ApiResponse::BadRequest(_)));

    let repository = use_case.into_repository();
    let stored = repository.find_by_id(created.id).expect("the brawler is kept");
    assert_eq!(stored.avatar, None);
}

#[test]
fn upload_with_empty_body_is_a_bad_request() {
    let mut use_case = service();
    let response = upload_avatar_multipart(
        &mut use_case,
        VerifiedIdentity { brawler_id: 1 },
        &Vec::new(),
    );
    assert_eq!(response.status_code(), 400);
}

#[test]
fn upload_with_unreadable_avatar_part_reports_the_failure() {
    let mut use_case = service();
    let created = match register_handle(&mut use_case, "nova") {
        ApiResponse::Created(b) => b,
        _ => panic!("registration must succeed"),
    };
    let parts = vec![
        part(Some("avatar"), Err("stream ended early")),
        part(Some("avatar"), Ok(vec![1, 2, 3])),
    ];
    let response = upload_avatar_multipart(
        &mut use_case,
        VerifiedIdentity { brawler_id: created.id },
        &parts,
    );
    assert_eq!(response.status_code(), 400);
    match response {
        ApiResponse::BadRequest(msg) => assert_eq!(msg, "stream ended early"),
        _ => panic!("expected a bad request"),
    }

    let repository = use_case.into_repository();
    let stored = repository.find_by_id(created.id).expect("the brawler is kept");
    assert_eq!(stored.avatar, None);
}

#[test]
fn register_update_and_upload_end_to_end() {
    let mut use_case = service();

    let response = register_handle(&mut use_case, "nova");
    assert_eq!(response.status_code(), 201);
    let created = match response {
        ApiResponse::Created(b) => b,
        _ => panic!("registration must succeed"),
    };
    let identity = VerifiedIdentity { brawler_id: created.id };

    let response = update_profile(
        &mut use_case,
        identity,
        UpdateProfileRequest { display_name: "Nova".to_string() },
    );
    assert_eq!(response.status_code(), 200);
    assert!(matches!(response, ApiResponse::Updated));

    let parts = vec![part(Some("avatar"), Ok(vec![1, 2, 3]))];
    let response = upload_avatar_multipart(&mut use_case, identity, &parts);
    assert_eq!(response.status_code(), 200);
    let uploaded = match response {
        ApiResponse::Uploaded(u) => u,
        _ => panic!("expected an uploaded avatar"),
    };
    assert_eq!(decode(&uploaded.encoded), Ok(vec![1, 2, 3]));

    let repository = use_case.into_repository();
    let stored = repository.find_by_id(created.id).expect("the brawler is kept");
    assert_eq!(stored.handle, "nova");
    assert_eq!(stored.display_name, "Nova");
    assert_eq!(stored.avatar, Some(uploaded.encoded));
}
