//! Marking a post as published: the credential is verified, the post is
//! fetched from the registry, the acting principal is held against the
//! post's creator, the registry is told the new status, and the post is
//! announced.
//!
//! The collaborators are called by the caller. Each function here takes what
//! a collaborator answered and says what is to be done next.

use vstd::prelude::*;
use vstd::string::StringExecFns;
use crate::authorization::authorize;
use crate::delegation::{derivation, derive_principal, DelegatedIdentityWire};
use crate::error::{AppError, AppErrorView};
use crate::events::EventService;
use crate::finalize::{announces, summary_of, Announcement, PostSummary};
use crate::notification::NotificationType;
use crate::post::{PostDetails, PostStatus};
use crate::principal::{text_of_principal, Principal};

verus! {

/// A client asks to mark the post `post_id` as published.
#[derive(Debug, Clone, PartialEq, Eq)]
pub struct MarkPostAsPublishedRequest {
    pub post_id: String,
    pub delegated_identity_wire: DelegatedIdentityWire,
}

/// What the registry answered when it was asked for a post.
#[derive(Debug, Clone, PartialEq, Eq)]
pub enum PostLookup {
    /// The post.
    Found(PostDetails),
    /// The registry has no such post, in its own words.
    Missing(String),
    /// The registry could not be reached.
    Unreachable(String),
}

/// What the registry's post is awaited with.
#[derive(Debug)]
pub struct AwaitingPost {
    sender: Principal,
    post_id: String,
    user_info_service: Principal,
}

/// What the registry's answer to the new status is awaited with.
#[derive(Debug)]
pub struct AwaitingStatus {
    video_uid: String,
    hashtag_count: usize,
    post_id: String,
    requested_post_id: String,
    creator_principal: Principal,
    status: PostStatus,
    user_info_service: Principal,
}

/// How a publication starts.
#[derive(Debug)]
pub enum PublishStart {
    /// The credential is refused; no collaborator has been called.
    Rejected(AppError),
    /// The registry is to hand out the post with this id.
    Fetch(String, AwaitingPost),
}

/// How a publication goes on after the registry answered for the post.
#[derive(Debug)]
pub enum AfterLookup {
    /// The request ends here; the post's status stays as it is.
    Failed(AppError),
    /// The registry is to mark the post with this id as uploaded.
    MarkUploaded(String, AwaitingStatus),
}

/// How a publication ends after the registry answered for the status.
#[derive(Debug)]
pub enum AfterStatus {
    /// The status was not set; nothing is announced.
    Failed(AppError),
    /// The request has succeeded, and the announcement is to be made.
    Announce(Announcement),
}

/// The words with which a missing post is reported.
pub open spec fn post_missing(post_id: Seq<char>, why: Seq<char>) -> Seq<char> {
    "Error from user post service while fetching post details for post id "@ + post_id + ": "@
        + why
}

/// The words with which a request by another than the post's creator is
/// refused.
pub open spec fn sender_is_not_creator(sender: Seq<u8>, creator: Seq<u8>) -> Seq<char> {
    "The sender of the delegated identity is not the creator of the post. Sender: "@
        + text_of_principal(sender) + ", Post Creator: "@ + text_of_principal(creator)
}

/// Starts a publication at time `now`, with `user_info_service` as the
/// service that announcements name. A credential that is refused ends the
/// request; otherwise the registry is asked for the post.
pub fn begin_publication(request: MarkPostAsPublishedRequest, user_info_service: Principal, now: u64) -> (r:
    PublishStart)
    ensures
        match derivation(request.delegated_identity_wire@, now) {
            Err(refusal) => r matches PublishStart::Rejected(e) && e@
                == AppErrorView::InvalidDelegatedIdentity(refusal),
            Ok(principal) => r matches PublishStart::Fetch(post_id, next) && post_id@
                == request.post_id@ && next.sender() == principal && next.post_id()
                == request.post_id@ && next.service() == user_info_service@,
        },
{
    match derive_principal(&request.delegated_identity_wire, now) {
        Err(refusal) => PublishStart::Rejected(AppError::InvalidDelegatedIdentity(refusal)),
        Ok(sender) => PublishStart::Fetch(
            request.post_id.clone(),
            AwaitingPost { sender, post_id: request.post_id, user_info_service },
        ),
    }
}

impl AwaitingPost {
    /// The principal that the credential was derived to.
    pub closed spec fn sender(&self) -> Seq<u8> {
        self.sender@
    }

    /// The id of the post that was asked for.
    pub closed spec fn post_id(&self) -> Seq<char> {
        self.post_id@
    }

    /// The service that announcements name as the user's.
    pub closed spec fn service(&self) -> Seq<u8> {
        self.user_info_service@
    }

    /// Takes the registry's answer for the post. A registry that could not
    /// be reached and a post that is missing end the request. A post that
    /// was found is held against the sender: only its creator may go on, and
    /// the registry is then to mark the post as uploaded.
    pub fn lookup_outcome(self, lookup: PostLookup) -> (r: AfterLookup)
        ensures
            match lookup {
                PostLookup::Unreachable(why) => r matches AfterLookup::Failed(e) && e@
                    == AppErrorView::AgentError(why@),
                PostLookup::Missing(why) => r matches AfterLookup::Failed(e) && e@
                    == AppErrorView::PostNotFound(post_missing(self.post_id(), why@)),
                PostLookup::Found(post) => if self.sender() != post.creator_principal@ {
                    r matches AfterLookup::Failed(e) && e@ == AppErrorView::Unauthorized(
                        sender_is_not_creator(self.sender(), post.creator_principal@),
                    )
                } else {
                    r matches AfterLookup::MarkUploaded(post_id, next) && post_id@
                        == self.post_id() && next.summary() == summary_of(post@, self.service())
                        && next.requested_post_id() == self.post_id()
                },
            },
    {
        match lookup {
            PostLookup::Unreachable(why) => AfterLookup::Failed(AppError::AgentError(why)),
            PostLookup::Missing(why) => {
                let message = String::from_str(
                    "Error from user post service while fetching post details for post id ",
                ).concat(self.post_id.as_str()).concat(": ").concat(why.as_str());
                AfterLookup::Failed(AppError::PostNotFound(message))
            },
            PostLookup::Found(post) => {
                if authorize(&self.sender, &post.creator_principal).is_err() {
                    let message = String::from_str(
                        "The sender of the delegated identity is not the creator of the post. Sender: ",
                    ).concat(self.sender.to_text().as_str()).concat(", Post Creator: ").concat(
                        post.creator_principal.to_text().as_str(),
                    );
                    return AfterLookup::Failed(AppError::Unauthorized(message));
                }
                let next = AwaitingStatus {
                    video_uid: post.video_uid,
                    hashtag_count: post.hashtags.len(),
                    post_id: post.id,
                    requested_post_id: self.post_id.clone(),
                    creator_principal: post.creator_principal,
                    status: post.status,
                    user_info_service: self.user_info_service,
                };
                AfterLookup::MarkUploaded(self.post_id, next)
            },
        }
    }
}

impl AwaitingStatus {
    /// What is known of the post whose new status is awaited.
    pub closed spec fn summary(&self) -> PostSummary {
        PostSummary {
            video_uid: self.video_uid@,
            hashtag_count: self.hashtag_count as nat,
            post_id: self.post_id@,
            creator_principal: self.creator_principal@,
            status: self.status,
            user_info_service: self.user_info_service@,
        }
    }

    /// The id under which the post was asked for.
    pub closed spec fn requested_post_id(&self) -> Seq<char> {
        self.requested_post_id@
    }

    /// Takes the registry's answer for the status. A registry that could not
    /// be reached ends the request. Otherwise the request has succeeded and
    /// the post is announced to its creator.
    pub fn status_outcome(self, outcome: Result<(), String>) -> (r: AfterStatus)
        ensures
            match outcome {
                Err(why) => r matches AfterStatus::Failed(e) && e@ == AppErrorView::AgentError(
                    why@,
                ),
                Ok(()) => r matches AfterStatus::Announce(a) && announces(
                    a,
                    self.summary(),
                    self.requested_post_id(),
                ),
            },
    {
        match outcome {
            Err(why) => AfterStatus::Failed(AppError::AgentError(why)),
            Ok(()) => {
                let event = EventService::video_upload_successful_params(
                    self.video_uid,
                    self.hashtag_count,
                    false,
                    true,
                    self.post_id,
                    &self.creator_principal,
                    &self.user_info_service,
                    String::new(),
                    None,
                );
                let notification = NotificationType::VideoPublished {
                    user_principal: self.creator_principal.clone(),
                    post_id: self.requested_post_id,
                };
                AfterStatus::Announce(
                    Announcement { event, notification, recipient: self.creator_principal },
                )
            },
        }
    }
}

} // verus!
