//! The storage service: where its requests go and what its replies mean.

use vstd::prelude::*;
use vstd::string::StringExecFns;
use crate::error::AppError;
use crate::metadata::Metadata;

verus! {

/// The body of the request that commits an upload.
#[derive(Debug, Clone, PartialEq, Eq)]
pub struct FinalizeRequest {
    pub metadata: Metadata,
}

/// A reply of a service over HTTP: the status code, the status as the
/// transport prints it, and the body.
#[derive(Debug, Clone, PartialEq, Eq)]
pub struct HttpReply {
    pub code: u16,
    pub status: String,
    pub body: String,
}

/// Whether a status code reports success.
pub open spec fn is_success(code: u16) -> bool {
    200 <= code <= 299
}

/// How a truth value is printed.
pub open spec fn bool_text(b: bool) -> Seq<char> {
    if b {
        "true"@
    } else {
        "false"@
    }
}

/// The query that names a publisher's video.
pub open spec fn video_query(publisher_user_id: Seq<char>, video_id: Seq<char>, is_nsfw: bool) -> Seq<
    char,
> {
    "?publisher_user_id="@ + publisher_user_id + "&video_id="@ + video_id + "&is_nsfw="@
        + bool_text(is_nsfw)
}

/// The address to which a video is uploaded.
pub open spec fn upload_url(
    base_url: Seq<char>,
    publisher_user_id: Seq<char>,
    video_id: Seq<char>,
    is_nsfw: bool,
) -> Seq<char> {
    base_url + "/duplicate_raw/upload"@ + video_query(publisher_user_id, video_id, is_nsfw)
}

/// The address at which an upload is committed.
pub open spec fn finalize_url(
    base_url: Seq<char>,
    publisher_user_id: Seq<char>,
    video_id: Seq<char>,
    is_nsfw: bool,
) -> Seq<char> {
    base_url + "/duplicate_raw/finalize"@ + video_query(publisher_user_id, video_id, is_nsfw)
}

/// The address from which the stream service hands out a video.
pub open spec fn download_url(video_id: Seq<char>) -> Seq<char> {
    "https://customer-2p3jflss4r4hmpnz.cloudflarestream.com/"@ + video_id
        + "/downloads/default.mp4"@
}

/// What a reply means for the request it answers: success, or a message
/// made of `failure`, the status and, where a separator is given, the
/// separator and the body.
pub open spec fn reply_outcome(failure: Seq<char>, separator: Option<Seq<char>>, reply: HttpReply) -> Result<
    (),
    Seq<char>,
> {
    if is_success(reply.code) {
        Ok(())
    } else {
        match separator {
            Some(separator) => Err(failure + reply.status@ + separator + reply.body@),
            None => Err(failure + reply.status@),
        }
    }
}

/// The message of a failure, if there is one.
pub open spec fn failure_text(r: Result<(), String>) -> Result<(), Seq<char>> {
    match r {
        Ok(()) => Ok(()),
        Err(m) => Err(m@),
    }
}

fn print_bool(b: bool) -> (r: &'static str)
    ensures
        r@ == bool_text(b),
{
    if b {
        "true"
    } else {
        "false"
    }
}

/// Judges a reply as [`reply_outcome`] states.
pub fn judge_reply(failure: &str, separator: Option<&str>, reply: &HttpReply) -> (r: Result<
    (),
    String,
>)
    ensures
        failure_text(r) == reply_outcome(
            failure@,
            match separator {
                Some(s) => Some(s@),
                None => None,
            },
            *reply,
        ),
{
    if 200 <= reply.code && reply.code <= 299 {
        Ok(())
    } else {
        let head = String::from_str(failure).concat(reply.status.as_str());
        match separator {
            Some(separator) => Err(head.concat(separator).concat(reply.body.as_str())),
            None => Err(head),
        }
    }
}

/// Where the storage service is.
#[derive(Debug, Clone, PartialEq, Eq)]
pub struct StorjInterface {
    base_url: String,
}

impl StorjInterface {
    /// The address that requests start with.
    pub closed spec fn base(&self) -> Seq<char> {
        self.base_url@
    }

    /// The storage service at `base_url`. This never fails.
    pub fn new(base_url: String) -> (r: Result<Self, AppError>)
        ensures
            r matches Ok(s) && s.base() == base_url@,
    {
        Ok(Self { base_url })
    }

    fn address(&self, path: &str, video_id: &str, publisher_user_id: &str, is_nsfw: bool) -> (r:
        String)
        ensures
            r@ == self.base() + path@ + video_query(publisher_user_id@, video_id@, is_nsfw),
    {
        let r = self.base_url.clone().concat(path).concat("?publisher_user_id=").concat(
            publisher_user_id,
        ).concat("&video_id=").concat(video_id).concat("&is_nsfw=").concat(print_bool(is_nsfw));
        assert(r@ =~= self.base() + path@ + video_query(publisher_user_id@, video_id@, is_nsfw));
        r
    }

    /// The address to which the video is uploaded.
    pub fn get_upload_url(&self, video_id: &str, publisher_user_id: &str, is_nsfw: bool) -> (r:
        String)
        ensures
            r@ == upload_url(self.base(), publisher_user_id@, video_id@, is_nsfw),
    {
        self.address("/duplicate_raw/upload", video_id, publisher_user_id, is_nsfw)
    }

    /// The request that commits the upload: the address to post to, and the
    /// body, which carries the metadata as it was given.
    pub fn finalize_upload_request(
        &self,
        video_id: &str,
        publisher_user_id: &str,
        is_nsfw: bool,
        metadata: Metadata,
    ) -> (r: (String, FinalizeRequest))
        ensures
            r.0@ == finalize_url(self.base(), publisher_user_id@, video_id@, is_nsfw),
            r.1.metadata == metadata,
    {
        (
            self.address("/duplicate_raw/finalize", video_id, publisher_user_id, is_nsfw),
            FinalizeRequest { metadata },
        )
    }

    /// The address from which the stream service hands out the video.
    pub fn get_download_url(video_id: &str) -> (r: String)
        ensures
            r@ == download_url(video_id@),
    {
        String::from_str("https://customer-2p3jflss4r4hmpnz.cloudflarestream.com/").concat(
            video_id,
        ).concat("/downloads/default.mp4")
    }

    /// What the stream service's reply means for a download.
    pub fn download_outcome(reply: &HttpReply) -> (r: Result<(), String>)
        ensures
            failure_text(r) == reply_outcome(
                "Failed to download video from Cloudflare: "@,
                None,
                *reply,
            ),
    {
        judge_reply("Failed to download video from Cloudflare: ", None, reply)
    }

    /// What the storage service's reply means for an upload.
    pub fn upload_outcome(reply: &HttpReply) -> (r: Result<(), String>)
        ensures
            failure_text(r) == reply_outcome(
                "Failed to upload pending video to Storj: "@,
                Some(" - "@),
                *reply,
            ),
    {
        judge_reply("Failed to upload pending video to Storj: ", Some(" - "), reply)
    }

    /// What the storage service's reply means for a commit.
    pub fn finalize_outcome(reply: &HttpReply) -> (r: Result<(), String>)
        ensures
            failure_text(r) == reply_outcome(
                "Failed to finalize video upload to Storj: "@,
                Some(" - "@),
                *reply,
            ),
    {
        judge_reply("Failed to finalize video upload to Storj: ", Some(" - "), reply)
    }
}

} // verus!
