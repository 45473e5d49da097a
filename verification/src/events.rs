//! Events for the analytics service: what each one reports.

use vstd::prelude::*;
use vstd::string::StringExecFns;
use crate::principal::{text_of_principal, Principal};
use crate::storj::{failure_text, judge_reply, reply_outcome, HttpReply};

verus! {

/// What is reported when a video has been uploaded.
#[derive(Debug, Clone, PartialEq, Eq)]
pub struct VideoUploadSuccessful {
    pub user_id: String,
    pub publisher_user_id: String,
    pub display_name: String,
    pub canister_id: String,
    pub creator_category: String,
    pub hashtag_count: usize,
    pub is_nsfw: bool,
    pub is_hot_or_not: bool,
    pub is_filter_used: bool,
    pub video_id: String,
    pub post_id: String,
    pub country: Option<String>,
}

/// What is reported when an upload has failed.
#[derive(Debug, Clone, PartialEq, Eq)]
pub struct VideoUploadUnsuccessful {
    pub user_id: String,
    pub display_name: String,
    pub canister_id: String,
    pub creator_category: String,
    pub hashtag_count: usize,
    pub is_nsfw: bool,
    pub is_hot_or_not: bool,
    pub fail_reason: String,
}

/// The content of an optional text.
pub open spec fn optional_text(text: Option<String>) -> Option<Seq<char>> {
    match text {
        Some(t) => Some(t@),
        None => None,
    }
}

/// What is needed to reach the analytics service.
#[derive(Debug, Clone)]
pub struct EventService {
    auth_token: String,
}

impl EventService {
    /// The token that the service was made with.
    pub closed spec fn token(&self) -> Seq<char> {
        self.auth_token@
    }

    /// A service that presents `auth_token`.
    pub fn with_auth_token(auth_token: String) -> (r: Self)
        ensures
            r.token() == auth_token@,
    {
        Self { auth_token }
    }

    /// The value of the authorization header that every request carries.
    pub fn authorization(&self) -> (r: String)
        ensures
            r@ == "Bearer "@ + self.token(),
    {
        String::from_str("Bearer ").concat(self.auth_token.as_str())
    }

    /// The address to which events are posted.
    pub fn events_url() -> (r: String)
        ensures
            r@ == "https://offchain.yral.com/api/v2/events"@,
    {
        String::from_str("https://offchain.yral.com/api/v2/events")
    }

    /// The name under which a successful upload is reported.
    pub fn successful_event_name() -> (r: String)
        ensures
            r@ == "video_upload_successful"@,
    {
        String::from_str("video_upload_successful")
    }

    /// The name under which a failed upload is reported.
    pub fn unsuccessful_event_name() -> (r: String)
        ensures
            r@ == "video_upload_unsuccessful"@,
    {
        String::from_str("video_upload_unsuccessful")
    }

    /// The report of a successful upload. The user is named twice, as user
    /// and as publisher; the creator's category is not known and no filter
    /// was used.
    pub fn video_upload_successful_params(
        video_uid: String,
        hashtags_len: usize,
        is_nsfw: bool,
        enable_hot_or_not: bool,
        post_id: String,
        user_principal: &Principal,
        canister_id: &Principal,
        user_name: String,
        country: Option<String>,
    ) -> (r: VideoUploadSuccessful)
        ensures
            r.user_id@ == text_of_principal(user_principal@),
            r.publisher_user_id@ == text_of_principal(user_principal@),
            r.display_name@ == user_name@,
            r.canister_id@ == text_of_principal(canister_id@),
            r.creator_category@ == "NA"@,
            r.hashtag_count == hashtags_len,
            r.is_nsfw == is_nsfw,
            r.is_hot_or_not == enable_hot_or_not,
            !r.is_filter_used,
            r.video_id@ == video_uid@,
            r.post_id@ == post_id@,
            optional_text(r.country) == optional_text(country),
    {
        VideoUploadSuccessful {
            user_id: user_principal.to_text(),
            publisher_user_id: user_principal.to_text(),
            display_name: user_name,
            canister_id: canister_id.to_text(),
            creator_category: String::from_str("NA"),
            hashtag_count: hashtags_len,
            is_nsfw,
            is_hot_or_not: enable_hot_or_not,
            is_filter_used: false,
            video_id: video_uid,
            post_id,
            country,
        }
    }

    /// The report of a failed upload, with the reason of the failure.
    pub fn video_upload_unsuccessful_params(
        error: String,
        hashtags_len: usize,
        is_nsfw: bool,
        enable_hot_or_not: bool,
        user_principal: &Principal,
        user_name: String,
        user_canister: &Principal,
    ) -> (r: VideoUploadUnsuccessful)
        ensures
            r.user_id@ == text_of_principal(user_principal@),
            r.display_name@ == user_name@,
            r.canister_id@ == text_of_principal(user_canister@),
            r.creator_category@ == "NA"@,
            r.hashtag_count == hashtags_len,
            r.is_nsfw == is_nsfw,
            r.is_hot_or_not == enable_hot_or_not,
            r.fail_reason@ == error@,
    {
        VideoUploadUnsuccessful {
            user_id: user_principal.to_text(),
            display_name: user_name,
            canister_id: user_canister.to_text(),
            creator_category: String::from_str("NA"),
            hashtag_count: hashtags_len,
            is_nsfw,
            is_hot_or_not: enable_hot_or_not,
            fail_reason: error,
        }
    }

    /// What the analytics service's reply means for an event that was sent.
    pub fn event_outcome(reply: &HttpReply) -> (r: Result<(), String>)
        ensures
            failure_text(r) == reply_outcome(
                "error sending video_upload_successful event. Error "@,
                Some(" "@),
                *reply,
            ),
    {
        judge_reply("error sending video_upload_successful event. Error ", Some(" "), reply)
    }
}

} // verus!
