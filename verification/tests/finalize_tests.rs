use k256::pkcs8::EncodePublicKey;
use k256::SecretKey;
use video_upload_core::delegation::{AuthError, DelegatedIdentityWire};
use video_upload_core::error::AppError;
use video_upload_core::finalize::{
    begin_finalization, trace_finalization, AfterRegistry, AfterStorage, Answers, Call,
    FinalizeStart, RegistryOutcome, StorageCommit, UpdateMetadataRequest,
};
use video_upload_core::metadata::Metadata;
use video_upload_core::notification::NotificationType;
use video_upload_core::post::{PostDetails, PostStatus};
use video_upload_core::principal::Principal;

/// What each collaborator answers, and what was asked of them.
struct Collaborators {
    storage: Result<(), String>,
    registry: RegistryOutcome,
    calls: Vec<&'static str>,
    committed: Option<StorageCommit>,
    registered: Option<PostDetails>,
    notified: Option<(NotificationType, Principal)>,
    reported_post: Option<String>,
}

impl Collaborators {
    fn answering(storage: Result<(), String>, registry: RegistryOutcome) -> Self {
        Collaborators {
            storage,
            registry,
            calls: vec![],
            committed: None,
            registered: None,
            notified: None,
            reported_post: None,
        }
    }
}

const POST_JSON: &str = r#"{"video_uid":"vid-1","id":"post-1"}"#;

fn finalize(
    request: UpdateMetadataRequest,
    now: u64,
    collaborators: &mut Collaborators,
) -> Result<(), AppError> {
    let service = Principal::from_slice(&[]).unwrap();
    let (commit, awaiting_storage) =
        match begin_finalization(request, Ok(POST_JSON.to_string()), service, now) {
            FinalizeStart::Rejected(e) => return Err(e),
            FinalizeStart::Commit(commit, next) => (commit, next),
        };
    collaborators.calls.push("storage");
    collaborators.committed = Some(commit);
    let (post, awaiting_registry) =
        match awaiting_storage.storage_outcome(collaborators.storage.clone()) {
            AfterStorage::Failed(e) => return Err(e),
            AfterStorage::Register(post, next) => (post, next),
        };
    collaborators.calls.push("registry");
    collaborators.registered = Some(post);
    match awaiting_registry.registry_outcome(collaborators.registry.clone()) {
        AfterRegistry::Failed(e) => Err(e),
        AfterRegistry::Complete => Ok(()),
        AfterRegistry::Announce(announcement) => {
            collaborators.calls.push("event");
            collaborators.reported_post = Some(announcement.event.post_id.clone());
            collaborators.calls.push("notification");
            collaborators.notified = Some((announcement.notification, announcement.recipient));
            Ok(())
        }
    }
}

fn secret(seed: u8) -> SecretKey {
    SecretKey::from_slice(&[seed; 32]).unwrap()
}

fn public_der(seed: u8) -> Vec<u8> {
    secret(seed)
        .public_key()
        .to_public_key_der()
        .unwrap()
        .as_bytes()
        .to_vec()
}

fn principal_of(seed: u8) -> Principal {
    Principal::self_authenticating(&public_der(seed))
}

/// A credential with an empty chain whose terminal key is its root key.
fn root_credential(seed: u8) -> DelegatedIdentityWire {
    DelegatedIdentityWire {
        from_key: public_der(seed),
        to_secret: secret(seed).to_jwk().to_string(),
        delegation_chain: vec![],
    }
}

fn request(credential: DelegatedIdentityWire, owner: Principal, status: PostStatus) -> UpdateMetadataRequest {
    UpdateMetadataRequest {
        video_uid: "vid-1".to_string(),
        delegated_identity_wire: credential,
        meta: Metadata::from_pairs(vec![("title".to_string(), "hello".to_string())]),
        post_details: PostDetails {
            id: "post-1".to_string(),
            video_uid: "vid-1".to_string(),
            description: "a video".to_string(),
            hashtags: vec!["a".to_string(), "b".to_string()],
            creator_principal: owner,
            status,
        },
    }
}

#[test]
fn scenario_owner_publishes() {
    let mut collaborators = Collaborators::answering(Ok(()), RegistryOutcome::Registered);
    let result = finalize(
        request(root_credential(1), principal_of(1), PostStatus::Published),
        10,
        &mut collaborators,
    );
    assert_eq!(result, Ok(()));
    assert_eq!(collaborators.calls, vec!["storage", "registry", "event", "notification"]);

    let commit = collaborators.committed.unwrap();
    assert_eq!(commit.video_uid, "vid-1");
    assert_eq!(commit.publisher_user_id, principal_of(1).to_text());
    assert!(!commit.is_nsfw);
    assert_eq!(commit.metadata.len(), 2);
    assert_eq!(commit.metadata.get(&"title".to_string()), Some(&"hello".to_string()));
    assert_eq!(
        commit.metadata.get(&"post_details".to_string()),
        Some(&POST_JSON.to_string())
    );

    let registered = collaborators.registered.unwrap();
    assert_eq!(registered.creator_principal, principal_of(1));
    assert_eq!(registered.id, "post-1");
    assert_eq!(registered.status, PostStatus::Published);

    assert_eq!(collaborators.reported_post, Some("post-1".to_string()));
    assert_eq!(
        collaborators.notified,
        Some((
            NotificationType::VideoPublished {
                user_principal: principal_of(1),
                post_id: "post-1".to_string(),
            },
            principal_of(1),
        ))
    );
}

#[test]
fn scenario_another_owner_is_unauthorized() {
    let mut collaborators = Collaborators::answering(Ok(()), RegistryOutcome::Registered);
    let result = finalize(
        request(root_credential(1), principal_of(2), PostStatus::Published),
        10,
        &mut collaborators,
    );
    assert_eq!(
        result,
        Err(AppError::Unauthorized(
            "Publisher user id does not match creator principal in post details".to_string()
        ))
    );
    assert_eq!(result.unwrap_err().status_code(), 403);
    assert!(collaborators.calls.is_empty());
}

#[test]
fn scenario_registry_fails_after_commit() {
    let mut collaborators = Collaborators::answering(
        Ok(()),
        RegistryOutcome::Refused("DuplicatePost".to_string()),
    );
    let result = finalize(
        request(root_credential(1), principal_of(1), PostStatus::Published),
        10,
        &mut collaborators,
    );
    assert_eq!(result, Err(AppError::CanisterError("DuplicatePost".to_string())));
    assert_eq!(result.unwrap_err().status_code(), 502);
    assert_eq!(collaborators.calls, vec!["storage", "registry"]);
    assert_eq!(collaborators.calls.iter().filter(|c| **c == "storage").count(), 1);
}

#[test]
fn scenario_registry_unreachable_after_commit() {
    let mut collaborators = Collaborators::answering(
        Ok(()),
        RegistryOutcome::Unreachable("timed out".to_string()),
    );
    let result = finalize(
        request(root_credential(1), principal_of(1), PostStatus::Published),
        10,
        &mut collaborators,
    );
    assert_eq!(result, Err(AppError::AgentError("timed out".to_string())));
    assert_eq!(result.unwrap_err().status_code(), 502);
    assert_eq!(collaborators.calls, vec!["storage", "registry"]);
}

#[test]
fn scenario_draft_is_not_announced() {
    let mut collaborators = Collaborators::answering(Ok(()), RegistryOutcome::Registered);
    let result = finalize(
        request(root_credential(1), principal_of(1), PostStatus::Draft),
        10,
        &mut collaborators,
    );
    assert_eq!(result, Ok(()));
    assert_eq!(collaborators.calls, vec!["storage", "registry"]);
    assert_eq!(collaborators.notified, None);
}

#[test]
fn storage_failure_stops_before_the_registry() {
    let mut collaborators = Collaborators::answering(
        Err("Failed to finalize video upload to Storj: 500 - no".to_string()),
        RegistryOutcome::Registered,
    );
    let result = finalize(
        request(root_credential(1), principal_of(1), PostStatus::Published),
        10,
        &mut collaborators,
    );
    assert_eq!(
        result,
        Err(AppError::StorageError(
            "Failed to finalize video upload to Storj: 500 - no".to_string()
        ))
    );
    assert_eq!(result.unwrap_err().status_code(), 503);
    assert_eq!(collaborators.calls, vec!["storage"]);
}

#[test]
fn refused_credential_is_reported_before_ownership() {
    let mut collaborators = Collaborators::answering(Ok(()), RegistryOutcome::Registered);
    let mut credential = root_credential(1);
    credential.to_secret = secret(3).to_jwk().to_string();
    // The owner does not match either: the credential's refusal is what is reported.
    let result = finalize(
        request(credential, principal_of(2), PostStatus::Published),
        10,
        &mut collaborators,
    );
    assert_eq!(
        result,
        Err(AppError::InvalidDelegatedIdentity(AuthError::EmptyChainKeyMismatch))
    );
    assert_eq!(result.unwrap_err().status_code(), 400);
    assert!(collaborators.calls.is_empty());
}

#[test]
fn unserialisable_post_ends_an_authorized_request() {
    let service = Principal::from_slice(&[]).unwrap();
    let start = begin_finalization(
        request(root_credential(1), principal_of(1), PostStatus::Published),
        Err("key must be a string".to_string()),
        service.clone(),
        10,
    );
    match start {
        FinalizeStart::Rejected(e) => {
            assert_eq!(e, AppError::SerializationError("key must be a string".to_string()));
            assert_eq!(e.status_code(), 500);
        }
        FinalizeStart::Commit(..) => panic!("nothing may be committed"),
    }
    // Ownership is decided before serialisation.
    let start = begin_finalization(
        request(root_credential(1), principal_of(2), PostStatus::Published),
        Err("key must be a string".to_string()),
        service,
        10,
    );
    assert!(matches!(start, FinalizeStart::Rejected(AppError::Unauthorized(_))));
}

#[test]
fn post_details_replace_what_the_client_sent_under_that_name() {
    let mut collaborators = Collaborators::answering(Ok(()), RegistryOutcome::Registered);
    let mut request = request(root_credential(1), principal_of(1), PostStatus::Draft);
    request.meta.insert("post_details".to_string(), "forged".to_string());
    assert_eq!(finalize(request, 10, &mut collaborators), Ok(()));
    let commit = collaborators.committed.unwrap();
    assert_eq!(commit.metadata.len(), 2);
    assert_eq!(
        commit.metadata.get(&"post_details".to_string()),
        Some(&POST_JSON.to_string())
    );
}

fn trace(
    request: UpdateMetadataRequest,
    json: Result<String, String>,
    storage: Result<(), String>,
    registry: RegistryOutcome,
) -> (Vec<Call>, Result<(), AppError>) {
    trace_finalization(
        request,
        json,
        Principal::from_slice(&[]).unwrap(),
        10,
        Answers { storage, registry },
    )
}

#[test]
fn trace_of_each_way_a_finalization_can_go() {
    let owner = || request(root_credential(1), principal_of(1), PostStatus::Published);
    let json = || Ok(POST_JSON.to_string());

    assert_eq!(
        trace(owner(), json(), Ok(()), RegistryOutcome::Registered),
        (
            vec![Call::StorageCommit, Call::RegistryUpdate, Call::Event, Call::Notification],
            Ok(())
        )
    );
    assert_eq!(
        trace(
            request(root_credential(1), principal_of(1), PostStatus::Draft),
            json(),
            Ok(()),
            RegistryOutcome::Registered
        ),
        (vec![Call::StorageCommit, Call::RegistryUpdate], Ok(()))
    );
    assert_eq!(
        trace(owner(), json(), Ok(()), RegistryOutcome::Refused("no".to_string())),
        (
            vec![Call::StorageCommit, Call::RegistryUpdate],
            Err(AppError::CanisterError("no".to_string()))
        )
    );
    assert_eq!(
        trace(owner(), json(), Ok(()), RegistryOutcome::Unreachable("down".to_string())),
        (
            vec![Call::StorageCommit, Call::RegistryUpdate],
            Err(AppError::AgentError("down".to_string()))
        )
    );
    assert_eq!(
        trace(owner(), json(), Err("full".to_string()), RegistryOutcome::Registered),
        (vec![Call::StorageCommit], Err(AppError::StorageError("full".to_string())))
    );
    assert_eq!(
        trace(owner(), Err("bad".to_string()), Ok(()), RegistryOutcome::Registered),
        (vec![], Err(AppError::SerializationError("bad".to_string())))
    );
    assert_eq!(
        trace(
            request(root_credential(1), principal_of(2), PostStatus::Published),
            json(),
            Ok(()),
            RegistryOutcome::Registered
        ),
        (
            vec![],
            Err(AppError::Unauthorized(
                "Publisher user id does not match creator principal in post details".to_string()
            ))
        )
    );
    let mut refused = root_credential(1);
    refused.to_secret = "[]".to_string();
    assert_eq!(
        trace(
            request(refused, principal_of(1), PostStatus::Published),
            json(),
            Ok(()),
            RegistryOutcome::Registered
        ),
        (vec![], Err(AppError::InvalidDelegatedIdentity(AuthError::KeyFormatError)))
    );
}
