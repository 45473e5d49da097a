//! Notifications to a user about one of their posts.

use vstd::prelude::*;
use vstd::string::StringExecFns;
use crate::principal::{text_of_principal, Principal};

verus! {

/// What a user is told about a post.
#[derive(Debug, Clone, PartialEq, Eq)]
pub enum NotificationType {
    VideoUploadedToDraft { user_principal: Principal, post_id: String },
    VideoPublished { user_principal: Principal, post_id: String },
}

/// The words of a notification.
pub open spec fn notification_text(data: NotificationType) -> Seq<char> {
    match data {
        NotificationType::VideoUploadedToDraft { .. } => "Your video was generated and added to Drafts in Profile section!"@,
        NotificationType::VideoPublished { .. } => "Your video has been published successfully"@,
    }
}

impl NotificationType {
    /// The words of the notification.
    pub fn message(&self) -> (r: String)
        ensures
            r@ == notification_text(*self),
    {
        match self {
            NotificationType::VideoUploadedToDraft { .. } => String::from_str(
                "Your video was generated and added to Drafts in Profile section!",
            ),
            NotificationType::VideoPublished { .. } => String::from_str(
                "Your video has been published successfully",
            ),
        }
    }
}

/// A request to the notification service, ready to be sent: a `POST` to
/// `url` with `bearer_token` as the bearer and a body that holds `title`
/// and `body`.
#[derive(Debug, Clone, PartialEq, Eq)]
pub struct NotificationRequest {
    pub url: String,
    pub bearer_token: String,
    pub title: String,
    pub body: String,
}

/// The address at which a user's notifications are posted.
pub open spec fn notification_url(user: Seq<u8>) -> Seq<char> {
    "https://yral-metadata.fly.dev/notifications/"@ + text_of_principal(user) + "/send"@
}

/// What is needed to reach the notification service.
#[derive(Debug, Clone)]
pub struct NotificationClient {
    api_key: String,
}

impl NotificationClient {
    /// The key that the client was made with.
    pub closed spec fn key(&self) -> Seq<char> {
        self.api_key@
    }

    /// A client that presents `api_key`.
    pub fn new(api_key: String) -> (r: Self)
        ensures
            r.key() == api_key@,
    {
        Self { api_key }
    }

    /// The request that tells `user_principal` of `data`: posted to the
    /// user's address with the client's key, the words of the notification
    /// as both title and body.
    pub fn notification_request(&self, data: &NotificationType, user_principal: &Principal) -> (r:
        NotificationRequest)
        ensures
            r.url@ == notification_url(user_principal@),
            r.bearer_token@ == self.key(),
            r.title@ == notification_text(*data),
            r.body@ == notification_text(*data),
    {
        let url = String::from_str("https://yral-metadata.fly.dev/notifications/").concat(
            user_principal.to_text().as_str(),
        ).concat("/send");
        NotificationRequest {
            url,
            bearer_token: self.api_key.clone(),
            title: data.message(),
            body: data.message(),
        }
    }
}

} // verus!
