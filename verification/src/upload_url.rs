//! Handing out the address to which a publisher uploads a video: the
//! publisher is named, its profile is looked up, and the address is made
//! for a video id that is drawn afresh.

use vstd::prelude::*;
use crate::error::{AppError, AppErrorView};
use crate::principal::{principal_of_text, Principal};
use crate::storj::{upload_url, StorjInterface};

verus! {

/// A publisher asks where to upload a video.
#[derive(Debug, Clone, PartialEq, Eq)]
pub struct GetUploadUrlReq {
    pub video_id: String,
    pub publisher_user_id: String,
}

/// The address to upload to.
#[derive(Debug, Clone, PartialEq, Eq)]
pub struct GetUploadUrlResp {
    pub upload_url: String,
}

/// What the user service answered when it was asked for a profile.
#[derive(Debug, Clone, PartialEq, Eq)]
pub enum ProfileLookup {
    /// The user has a profile.
    Found,
    /// The service refused, in its own words.
    Refused(String),
    /// The service could not be reached.
    Unreachable(String),
}

/// What the user service's answer is awaited with.
#[derive(Debug)]
pub struct AwaitingProfile {
    publisher_user_id: String,
    video_id: String,
}

/// How a request for an upload address starts.
#[derive(Debug)]
pub enum UploadUrlStart {
    /// The request is refused; no collaborator has been called.
    Rejected(AppError),
    /// The user service is to look up the profile of this principal.
    FetchProfile(Principal, AwaitingProfile),
}

/// Draws a video id with `uuid::Uuid::new_v4` and prints it. The id is
/// random: nothing is promised of it.
#[verifier::external_body]
fn fresh_video_id() -> String {
    uuid::Uuid::new_v4().to_string()
}

/// Starts a request for an upload address, for the video id `new_video_id`.
/// A publisher whose id is not the text of a principal is refused in the
/// words of the parser; otherwise the user service is asked for the
/// publisher's profile. The video id that the request itself names plays no
/// part.
pub fn begin_upload_url_for(request: GetUploadUrlReq, new_video_id: String) -> (r: UploadUrlStart)
    ensures
        match principal_of_text(request.publisher_user_id@) {
            Err(why) => r matches UploadUrlStart::Rejected(e) && e@
                == AppErrorView::InvalidPrincipal(why),
            Ok(principal) => r matches UploadUrlStart::FetchProfile(user, next) && user@
                == principal && next.publisher() == request.publisher_user_id@ && next.video()
                == new_video_id@,
        },
{
    match Principal::from_text(request.publisher_user_id.as_str()) {
        Err(why) => UploadUrlStart::Rejected(AppError::InvalidPrincipal(why)),
        Ok(user) => UploadUrlStart::FetchProfile(
            user,
            AwaitingProfile { publisher_user_id: request.publisher_user_id, video_id: new_video_id },
        ),
    }
}

/// Starts a request for an upload address, for a video id that is drawn
/// afresh.
pub fn begin_upload_url(request: GetUploadUrlReq) -> (r: UploadUrlStart)
    ensures
        match principal_of_text(request.publisher_user_id@) {
            Err(why) => r matches UploadUrlStart::Rejected(e) && e@
                == AppErrorView::InvalidPrincipal(why),
            Ok(principal) => r matches UploadUrlStart::FetchProfile(user, next) && user@
                == principal && next.publisher() == request.publisher_user_id@,
        },
{
    let new_video_id = fresh_video_id();
    begin_upload_url_for(request, new_video_id)
}

/// The address, or the error, as contracts state the outcome.
pub open spec fn address_view(r: Result<GetUploadUrlResp, AppError>) -> Result<
    Seq<char>,
    AppErrorView,
> {
    match r {
        Ok(response) => Ok(response.upload_url@),
        Err(e) => Err(e@),
    }
}

impl AwaitingProfile {
    /// The publisher as the request named it.
    pub closed spec fn publisher(&self) -> Seq<char> {
        self.publisher_user_id@
    }

    /// The id under which the video will be uploaded.
    pub closed spec fn video(&self) -> Seq<char> {
        self.video_id@
    }

    /// Takes the user service's answer. A service that could not be reached
    /// or that refused ends the request with its words. For a user with a
    /// profile the answer is the address at `storage` to which the video is
    /// uploaded, as fit for all audiences.
    pub fn profile_outcome(self, lookup: ProfileLookup, storage: &StorjInterface) -> (r: Result<
        GetUploadUrlResp,
        AppError,
    >)
        ensures
            address_view(r) == match lookup {
                ProfileLookup::Unreachable(why) => Err::<Seq<char>, AppErrorView>(
                    AppErrorView::AgentError(why@),
                ),
                ProfileLookup::Refused(why) => Err(AppErrorView::UserProfileFetchError(why@)),
                ProfileLookup::Found => Ok(
                    upload_url(storage.base(), self.publisher(), self.video(), false),
                ),
            },
    {
        match lookup {
            ProfileLookup::Unreachable(why) => Err(AppError::AgentError(why)),
            ProfileLookup::Refused(why) => Err(AppError::UserProfileFetchError(why)),
            ProfileLookup::Found => Ok(
                GetUploadUrlResp {
                    upload_url: storage.get_upload_url(
                        self.video_id.as_str(),
                        self.publisher_user_id.as_str(),
                        false,
                    ),
                },
            ),
        }
    }
}

} // verus!
