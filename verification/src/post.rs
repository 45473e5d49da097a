//! Posts as the registry and the storage service know them.

use vstd::prelude::*;
use crate::principal::Principal;

verus! {

/// The status that a client declares for a post.
#[derive(Debug, Clone, Copy, PartialEq, Eq, Structural)]
pub enum PostStatus {
    Draft,
    Published,
}

/// A post as the registry records it.
#[derive(Debug, Clone, PartialEq, Eq)]
pub struct PostDetails {
    pub id: String,
    pub video_uid: String,
    pub description: String,
    pub hashtags: Vec<String>,
    pub creator_principal: Principal,
    pub status: PostStatus,
}

/// A post as it travels in the metadata of an upload: without a status.
#[derive(Debug, Clone, PartialEq, Eq)]
pub struct RequestPostDetails {
    pub video_uid: String,
    pub description: String,
    pub hashtags: Vec<String>,
    pub creator_principal: Principal,
    pub id: String,
}

/// The mathematical content of a post.
pub struct PostView {
    pub id: Seq<char>,
    pub video_uid: Seq<char>,
    pub description: Seq<char>,
    pub hashtags: Seq<Seq<char>>,
    pub creator_principal: Seq<u8>,
    pub status: PostStatus,
}

impl View for PostDetails {
    type V = PostView;

    open spec fn view(&self) -> PostView {
        PostView {
            id: self.id@,
            video_uid: self.video_uid@,
            description: self.description@,
            hashtags: self.hashtags@.map_values(|tag: String| tag@),
            creator_principal: self.creator_principal@,
            status: self.status,
        }
    }
}

impl RequestPostDetails {
    /// The post that this would be in the registry with the given status.
    pub open spec fn with_status(self, status: PostStatus) -> PostView {
        PostView {
            id: self.id@,
            video_uid: self.video_uid@,
            description: self.description@,
            hashtags: self.hashtags@.map_values(|tag: String| tag@),
            creator_principal: self.creator_principal@,
            status,
        }
    }
}

/// What `from` returns is stated by its own contract.
impl vstd::std_specs::convert::FromSpecImpl<PostDetails> for RequestPostDetails {
    open spec fn obeys_from_spec() -> bool {
        false
    }

    open spec fn from_spec(value: PostDetails) -> Self {
        arbitrary()
    }
}

impl From<PostDetails> for RequestPostDetails {
    /// The post without its status.
    fn from(value: PostDetails) -> (r: Self)
        ensures
            r.with_status(value.status) == value@,
    {
        Self {
            video_uid: value.video_uid,
            description: value.description,
            hashtags: value.hashtags,
            id: value.id,
            creator_principal: value.creator_principal,
        }
    }
}

/// What `from` returns is stated by its own contract.
impl vstd::std_specs::convert::FromSpecImpl<RequestPostDetails> for PostDetails {
    open spec fn obeys_from_spec() -> bool {
        false
    }

    open spec fn from_spec(value: RequestPostDetails) -> Self {
        arbitrary()
    }
}

impl From<RequestPostDetails> for PostDetails {
    /// The post as a draft.
    fn from(value: RequestPostDetails) -> (r: Self)
        ensures
            r@ == value.with_status(PostStatus::Draft),
    {
        Self {
            video_uid: value.video_uid,
            description: value.description,
            hashtags: value.hashtags,
            id: value.id,
            creator_principal: value.creator_principal,
            status: PostStatus::Draft,
        }
    }
}

} // verus!
