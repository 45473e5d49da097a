//! Finalizing an upload: the credential is verified, the acting principal is
//! held against the post's owner, the metadata is committed to storage, the
//! post is registered, and a published post is announced.
//!
//! The collaborators are called by the caller. Each function here takes what
//! a collaborator answered and says what is to be done next.

use vstd::prelude::*;
use vstd::string::StringExecFns;
use crate::authorization::authorize;
use crate::delegation::{derivation, derive_principal, DelegatedIdentityWire};
use crate::error::{AppError, AppErrorView};
use crate::events::{EventService, VideoUploadSuccessful};
use crate::metadata::Metadata;
use crate::notification::NotificationType;
use crate::post::{PostDetails, PostStatus, PostView};
use crate::principal::{text_of_principal, Principal};

verus! {

/// A client asks to finalize the upload of `video_uid` for `post_details`,
/// with `meta` as the metadata to commit.
#[derive(Debug, Clone, PartialEq, Eq)]
pub struct UpdateMetadataRequest {
    pub video_uid: String,
    pub delegated_identity_wire: DelegatedIdentityWire,
    pub meta: Metadata,
    pub post_details: PostDetails,
}

/// What the storage service is asked to commit.
#[derive(Debug, Clone, PartialEq, Eq)]
pub struct StorageCommit {
    pub video_uid: String,
    pub publisher_user_id: String,
    pub is_nsfw: bool,
    pub metadata: Metadata,
}

/// What the registry answered when it was asked to register a post.
#[derive(Debug, Clone, PartialEq, Eq)]
pub enum RegistryOutcome {
    /// The post is registered.
    Registered,
    /// The registry refused, for the reason given.
    Refused(String),
    /// The registry could not be reached.
    Unreachable(String),
}

/// What is announced of a published post, on a best-effort basis: whether
/// either announcement arrives does not change the result.
#[derive(Debug, Clone, PartialEq, Eq)]
pub struct Announcement {
    pub event: VideoUploadSuccessful,
    pub notification: NotificationType,
    pub recipient: Principal,
}

/// What the registry's answer is awaited with: what an announcement needs
/// to know of the post.
#[derive(Debug)]
pub struct AwaitingRegistry {
    video_uid: String,
    hashtag_count: usize,
    post_id: String,
    creator_principal: Principal,
    status: PostStatus,
    user_info_service: Principal,
}

/// What the storage service's answer is awaited with.
#[derive(Debug)]
pub struct AwaitingStorage {
    post_details: PostDetails,
    user_info_service: Principal,
}

/// How a finalization starts.
#[derive(Debug)]
pub enum FinalizeStart {
    /// The request is refused; no collaborator has been called.
    Rejected(AppError),
    /// The storage service is to commit.
    Commit(StorageCommit, AwaitingStorage),
}

/// How a finalization goes on after the storage service answered.
#[derive(Debug)]
pub enum AfterStorage {
    /// The commit failed; the registry is not asked.
    Failed(AppError),
    /// The registry is to register the post.
    Register(PostDetails, AwaitingRegistry),
}

/// How a finalization ends after the registry answered.
#[derive(Debug)]
pub enum AfterRegistry {
    /// The registration failed; the commit stays as it is and nothing is
    /// announced.
    Failed(AppError),
    /// The post is registered as published: the request has succeeded, and
    /// the announcement is to be made.
    Announce(Announcement),
    /// The post is registered as a draft: the request has succeeded, and
    /// nothing is announced.
    Complete,
}

/// The name under which a post travels in the metadata.
pub const POST_DETAILS_KEY: &'static str = "post_details";

/// The name under which a post travels in the metadata.
pub open spec fn post_details_key() -> Seq<char> {
    POST_DETAILS_KEY@
}

/// The words with which a request by another than the post's creator is
/// refused.
pub open spec fn not_the_creator() -> Seq<char> {
    "Publisher user id does not match creator principal in post details"@
}

/// What an announcement needs to know of a post.
pub struct PostSummary {
    pub video_uid: Seq<char>,
    pub hashtag_count: nat,
    pub post_id: Seq<char>,
    pub creator_principal: Seq<u8>,
    pub status: PostStatus,
    /// The service that announcements name as the user's.
    pub user_info_service: Seq<u8>,
}

/// What an announcement needs to know of `post`.
pub open spec fn summary_of(post: PostView, user_info_service: Seq<u8>) -> PostSummary {
    PostSummary {
        video_uid: post.video_uid,
        hashtag_count: post.hashtags.len(),
        post_id: post.id,
        creator_principal: post.creator_principal,
        status: post.status,
        user_info_service,
    }
}

/// Whether `event` reports the upload of the post that `post` sums up: by
/// its creator, as user and as publisher, under no display name and from no
/// country, fit for all audiences and open to voting.
pub open spec fn reports_upload(event: VideoUploadSuccessful, post: PostSummary) -> bool {
    &&& event.user_id@ == text_of_principal(post.creator_principal)
    &&& event.publisher_user_id@ == text_of_principal(post.creator_principal)
    &&& event.display_name@ == Seq::<char>::empty()
    &&& event.canister_id@ == text_of_principal(post.user_info_service)
    &&& event.creator_category@ == "NA"@
    &&& event.hashtag_count == post.hashtag_count
    &&& !event.is_nsfw
    &&& event.is_hot_or_not
    &&& !event.is_filter_used
    &&& event.video_id@ == post.video_uid
    &&& event.post_id@ == post.post_id
    &&& event.country is None
}

/// Whether `notification` tells `creator` that the post `post_id` is
/// published.
pub open spec fn tells_published(notification: NotificationType, post_id: Seq<char>, creator: Seq<u8>) -> bool {
    notification matches NotificationType::VideoPublished { user_principal, post_id: told }
        && user_principal@ == creator && told@ == post_id
}

/// Whether `announcement` is the announcement of the published post that
/// `post` sums up, addressed to its creator, the notification naming the
/// post as `notified_post_id`.
pub open spec fn announces(announcement: Announcement, post: PostSummary, notified_post_id: Seq<char>) -> bool {
    &&& reports_upload(announcement.event, post)
    &&& tells_published(announcement.notification, notified_post_id, post.creator_principal)
    &&& announcement.recipient@ == post.creator_principal
}

impl AwaitingStorage {
    /// The post that is being finalized.
    pub closed spec fn post(&self) -> PostDetails {
        self.post_details
    }

    /// The service that announcements name as the user's.
    pub closed spec fn service(&self) -> Seq<u8> {
        self.user_info_service@
    }

    /// Takes the storage service's answer. A failed commit ends the
    /// finalization with a storage error that carries the service's words;
    /// after a commit the registry is asked to register the post as the
    /// request gave it, owner included.
    pub fn storage_outcome(self, outcome: Result<(), String>) -> (r: AfterStorage)
        ensures
            match outcome {
                Err(why) => r matches AfterStorage::Failed(e) && e@ == AppErrorView::StorageError(
                    why@,
                ),
                Ok(()) => r matches AfterStorage::Register(post, next) && post == self.post()
                    && next.summary() == summary_of(self.post()@, self.service()),
            },
    {
        match outcome {
            Err(why) => AfterStorage::Failed(AppError::StorageError(why)),
            Ok(()) => {
                let next = AwaitingRegistry {
                    video_uid: self.post_details.video_uid.clone(),
                    hashtag_count: self.post_details.hashtags.len(),
                    post_id: self.post_details.id.clone(),
                    creator_principal: self.post_details.creator_principal.clone(),
                    status: self.post_details.status,
                    user_info_service: self.user_info_service,
                };
                AfterStorage::Register(self.post_details, next)
            },
        }
    }
}

impl AwaitingRegistry {
    /// What is known of the post whose registration is awaited.
    pub closed spec fn summary(&self) -> PostSummary {
        PostSummary {
            video_uid: self.video_uid@,
            hashtag_count: self.hashtag_count as nat,
            post_id: self.post_id@,
            creator_principal: self.creator_principal@,
            status: self.status,
            user_info_service: self.user_info_service@,
        }
    }

    /// Takes the registry's answer. A registry that could not be reached or
    /// that refused ends the finalization with its words, and nothing is
    /// announced. After a registration the request has succeeded: a
    /// published post is announced to its creator, a draft is not.
    pub fn registry_outcome(self, outcome: RegistryOutcome) -> (r: AfterRegistry)
        ensures
            match outcome {
                RegistryOutcome::Unreachable(why) => r matches AfterRegistry::Failed(e) && e@
                    == AppErrorView::AgentError(why@),
                RegistryOutcome::Refused(why) => r matches AfterRegistry::Failed(e) && e@
                    == AppErrorView::CanisterError(why@),
                RegistryOutcome::Registered => match self.summary().status {
                    PostStatus::Draft => r is Complete,
                    PostStatus::Published => r matches AfterRegistry::Announce(a) && announces(
                        a,
                        self.summary(),
                        self.summary().post_id,
                    ),
                },
            },
    {
        match outcome {
            RegistryOutcome::Unreachable(why) => AfterRegistry::Failed(AppError::AgentError(why)),
            RegistryOutcome::Refused(why) => AfterRegistry::Failed(AppError::CanisterError(why)),
            RegistryOutcome::Registered => match self.status {
                PostStatus::Draft => AfterRegistry::Complete,
                PostStatus::Published => {
                    let event = EventService::video_upload_successful_params(
                        self.video_uid,
                        self.hashtag_count,
                        false,
                        true,
                        self.post_id.clone(),
                        &self.creator_principal,
                        &self.user_info_service,
                        String::new(),
                        None,
                    );
                    let notification = NotificationType::VideoPublished {
                        user_principal: self.creator_principal.clone(),
                        post_id: self.post_id,
                    };
                    AfterRegistry::Announce(
                        Announcement { event, notification, recipient: self.creator_principal },
                    )
                },
            },
        }
    }
}

/// Whether `commit` asks the storage service to commit the upload of
/// `request` for `publisher`, with the post under its name in the metadata.
pub open spec fn commits(
    commit: StorageCommit,
    request: UpdateMetadataRequest,
    publisher: Seq<u8>,
    post_details_json: Seq<char>,
) -> bool {
    &&& commit.video_uid@ == request.video_uid@
    &&& commit.publisher_user_id@ == text_of_principal(publisher)
    &&& !commit.is_nsfw
    &&& commit.metadata@ == request.meta@.insert(post_details_key(), post_details_json)
}

/// Starts a finalization at time `now`.
///
/// `post_details_json` is the post of the request as it is to travel in the
/// metadata, or the reason why it could not be serialised;
/// `user_info_service` is the service that announcements name.
///
/// The credential is verified first, and its refusal is reported as such
/// whoever owns the post. Only a verified principal is held against the
/// post's creator. Then a post that could not be serialised ends the
/// request. Otherwise the storage service is to commit the request's
/// metadata, with the post added under its name, for the derived principal.
pub fn begin_finalization(
    request: UpdateMetadataRequest,
    post_details_json: Result<String, String>,
    user_info_service: Principal,
    now: u64,
) -> (r: FinalizeStart)
    ensures
        match derivation(request.delegated_identity_wire@, now) {
            Err(refusal) => r matches FinalizeStart::Rejected(e) && e@
                == AppErrorView::InvalidDelegatedIdentity(refusal),
            Ok(principal) => if principal != request.post_details.creator_principal@ {
                r matches FinalizeStart::Rejected(e) && e@ == AppErrorView::Unauthorized(
                    not_the_creator(),
                )
            } else {
                match post_details_json {
                    Err(why) => r matches FinalizeStart::Rejected(e) && e@
                        == AppErrorView::SerializationError(why@),
                    Ok(json) => r matches FinalizeStart::Commit(commit, next) && commits(
                        commit,
                        request,
                        principal,
                        json@,
                    ) && next.post() == request.post_details && next.service()
                        == user_info_service@,
                }
            },
        },
{
    let principal = match derive_principal(&request.delegated_identity_wire, now) {
        Ok(principal) => principal,
        Err(refusal) => {
            return FinalizeStart::Rejected(AppError::InvalidDelegatedIdentity(refusal));
        },
    };
    if authorize(&principal, &request.post_details.creator_principal).is_err() {
        return FinalizeStart::Rejected(
            AppError::Unauthorized(
                String::from_str(
                    "Publisher user id does not match creator principal in post details",
                ),
            ),
        );
    }
    let json = match post_details_json {
        Ok(json) => json,
        Err(why) => {
            return FinalizeStart::Rejected(AppError::SerializationError(why));
        },
    };
    let mut metadata = request.meta;
    metadata.insert(String::from_str(POST_DETAILS_KEY), json);
    let commit = StorageCommit {
        video_uid: request.video_uid,
        publisher_user_id: principal.to_text(),
        is_nsfw: false,
        metadata,
    };
    FinalizeStart::Commit(
        commit,
        AwaitingStorage { post_details: request.post_details, user_info_service },
    )
}

/// A call to a collaborator.
#[derive(Debug, Clone, Copy, PartialEq, Eq, Structural)]
pub enum Call {
    /// The storage service is asked to commit.
    StorageCommit,
    /// The registry is asked to register the post.
    RegistryUpdate,
    /// The analytics service is sent an event.
    Event,
    /// The creator is sent a notification.
    Notification,
}

/// What the collaborators answer when they are called.
#[derive(Debug, PartialEq, Eq)]
pub struct Answers {
    pub storage: Result<(), String>,
    pub registry: RegistryOutcome,
}

/// The content of a result.
pub open spec fn result_view(r: Result<(), AppError>) -> Result<(), AppErrorView> {
    match r {
        Ok(()) => Ok(()),
        Err(e) => Err(e@),
    }
}

/// The calls that a finalization makes, in their order, and the result it
/// ends in, where the collaborators answer as given.
///
/// A refused credential, another owner and a post that cannot be serialised
/// end the request before any call. A failed commit is the only call. A
/// failed registration follows the commit and is the last call. Only a post
/// that is registered as published is announced, and the request succeeds
/// whenever the post is registered.
pub open spec fn finalization_run(
    request: UpdateMetadataRequest,
    post_details_json: Result<String, String>,
    now: u64,
    answers: Answers,
) -> (Seq<Call>, Result<(), AppErrorView>) {
    match derivation(request.delegated_identity_wire@, now) {
        Err(refusal) => (seq![], Err(AppErrorView::InvalidDelegatedIdentity(refusal))),
        Ok(principal) => if principal != request.post_details.creator_principal@ {
            (seq![], Err(AppErrorView::Unauthorized(not_the_creator())))
        } else {
            match (post_details_json, answers.storage, answers.registry) {
                (Err(why), _, _) => (seq![], Err(AppErrorView::SerializationError(why@))),
                (Ok(_), Err(why), _) => (
                    seq![Call::StorageCommit],
                    Err(AppErrorView::StorageError(why@)),
                ),
                (Ok(_), Ok(()), RegistryOutcome::Unreachable(why)) => (
                    seq![Call::StorageCommit, Call::RegistryUpdate],
                    Err(AppErrorView::AgentError(why@)),
                ),
                (Ok(_), Ok(()), RegistryOutcome::Refused(why)) => (
                    seq![Call::StorageCommit, Call::RegistryUpdate],
                    Err(AppErrorView::CanisterError(why@)),
                ),
                (Ok(_), Ok(()), RegistryOutcome::Registered) => match request.post_details.status {
                    PostStatus::Draft => (seq![Call::StorageCommit, Call::RegistryUpdate], Ok(())),
                    PostStatus::Published => (
                        seq![
                            Call::StorageCommit,
                            Call::RegistryUpdate,
                            Call::Event,
                            Call::Notification,
                        ],
                        Ok(()),
                    ),
                },
            }
        },
    }
}

/// Goes through a finalization with collaborators that answer as given, and
/// tells which calls it makes, in their order, and how it ends.
pub fn trace_finalization(
    request: UpdateMetadataRequest,
    post_details_json: Result<String, String>,
    user_info_service: Principal,
    now: u64,
    answers: Answers,
) -> (r: (Vec<Call>, Result<(), AppError>))
    ensures
        (r.0@, result_view(r.1)) == finalization_run(request, post_details_json, now, answers),
{
    let mut calls: Vec<Call> = Vec::new();
    let awaiting_storage = match begin_finalization(
        request,
        post_details_json,
        user_info_service,
        now,
    ) {
        FinalizeStart::Rejected(e) => {
            assert(calls@ =~= seq![]);
            return (calls, Err(e));
        },
        FinalizeStart::Commit(_, next) => next,
    };
    calls.push(Call::StorageCommit);
    let awaiting_registry = match awaiting_storage.storage_outcome(answers.storage) {
        AfterStorage::Failed(e) => {
            assert(calls@ =~= seq![Call::StorageCommit]);
            return (calls, Err(e));
        },
        AfterStorage::Register(_, next) => next,
    };
    calls.push(Call::RegistryUpdate);
    assert(calls@ =~= seq![Call::StorageCommit, Call::RegistryUpdate]);
    match awaiting_registry.registry_outcome(answers.registry) {
        AfterRegistry::Failed(e) => (calls, Err(e)),
        AfterRegistry::Complete => (calls, Ok(())),
        AfterRegistry::Announce(_) => {
            calls.push(Call::Event);
            calls.push(Call::Notification);
            assert(calls@ =~= seq![
                Call::StorageCommit,
                Call::RegistryUpdate,
                Call::Event,
                Call::Notification,
            ]);
            (calls, Ok(()))
        },
    }
}

/// A request by another than the post's owner is refused as unauthorized
/// and calls no collaborator.
pub proof fn law_stranger_calls_nobody(
    request: UpdateMetadataRequest,
    post_details_json: Result<String, String>,
    now: u64,
    answers: Answers,
)
    requires
        derivation(request.delegated_identity_wire@, now) matches Ok(principal) && principal
            != request.post_details.creator_principal@,
    ensures
        finalization_run(request, post_details_json, now, answers) == (
            Seq::<Call>::empty(),
            Err::<(), AppErrorView>(AppErrorView::Unauthorized(not_the_creator())),
        ),
{
}

/// A credential that is refused is reported as such, whoever owns the post,
/// and no collaborator is called.
pub proof fn law_refusal_comes_first(
    request: UpdateMetadataRequest,
    post_details_json: Result<String, String>,
    now: u64,
    answers: Answers,
)
    requires
        derivation(request.delegated_identity_wire@, now) is Err,
    ensures
        finalization_run(request, post_details_json, now, answers) == (
            Seq::<Call>::empty(),
            Err::<(), AppErrorView>(
                AppErrorView::InvalidDelegatedIdentity(
                    derivation(request.delegated_identity_wire@, now)->Err_0,
                ),
            ),
        ),
{
}

/// The registry is called only after a commit, and an announcement is made
/// only after a registration: every run is a prefix of commit, registration,
/// event, notification, and a run that ends in an error announces nothing.
pub proof fn law_calls_are_ordered(
    request: UpdateMetadataRequest,
    post_details_json: Result<String, String>,
    now: u64,
    answers: Answers,
)
    ensures
        ({
            let (calls, result) = finalization_run(request, post_details_json, now, answers);
            let all = seq![
                Call::StorageCommit,
                Call::RegistryUpdate,
                Call::Event,
                Call::Notification,
            ];
            &&& calls.len() <= 4
            &&& calls == all.subrange(0, calls.len() as int)
            &&& result is Err ==> calls.len() <= 2
            &&& result is Ok ==> calls.len() >= 2
            &&& calls.len() == 4 <==> result is Ok && request.post_details.status
                == PostStatus::Published
        }),
{
    let (calls, result) = finalization_run(request, post_details_json, now, answers);
    let all = seq![Call::StorageCommit, Call::RegistryUpdate, Call::Event, Call::Notification];
    assert(calls =~= all.subrange(0, calls.len() as int));
}

} // verus!
