//! Request and response shapes of the `SubscribeFeed` mutation.
use vstd::prelude::*;

verus! {

pub const OPERATION_NAME: &'static str = "SubscribeFeed";

/// Outcome code of a mutation as the API reports it.
#[allow(non_camel_case_types)]
#[derive(Debug)]
pub enum ResponseCode {
    OK,
    UNAUTHORIZED,
    INTERNAL_ERROR,
    Other(String),
}

/// The code that the wire text `s` stands for.
pub open spec fn code_of(s: Seq<char>) -> ResponseCode {
    if s == "OK"@ {
        ResponseCode::OK
    } else if s == "UNAUTHORIZED"@ {
        ResponseCode::UNAUTHORIZED
    } else if s == "INTERNAL_ERROR"@ {
        ResponseCode::INTERNAL_ERROR
    } else {
        ResponseCode::Other(arbitrary())
    }
}

/// The wire text of a code.
pub open spec fn code_text(c: ResponseCode) -> Seq<char> {
    match c {
        ResponseCode::OK => "OK"@,
        ResponseCode::UNAUTHORIZED => "UNAUTHORIZED"@,
        ResponseCode::INTERNAL_ERROR => "INTERNAL_ERROR"@,
        ResponseCode::Other(t) => t@,
    }
}

impl ResponseCode {
    /// The code written as `s` on the wire; unknown text is kept in `Other`.
    pub fn from_code(s: String) -> (r: ResponseCode)
        ensures
            r matches ResponseCode::Other(t) ==> t@ == s@ && code_of(s@) is Other,
            !(r is Other) ==> r == code_of(s@),
    {
        proof {
            reveal_strlit("OK");
            reveal_strlit("UNAUTHORIZED");
            reveal_strlit("INTERNAL_ERROR");
        }
        let ok = "OK".to_string();
        let unauthorized = "UNAUTHORIZED".to_string();
        let internal = "INTERNAL_ERROR".to_string();
        if s == ok {
            ResponseCode::OK
        } else if s == unauthorized {
            ResponseCode::UNAUTHORIZED
        } else if s == internal {
            ResponseCode::INTERNAL_ERROR
        } else {
            ResponseCode::Other(s)
        }
    }

    /// The wire text of the code.
    pub fn as_code(&self) -> (r: &str)
        ensures
            r@ == code_text(*self),
    {
        proof {
            reveal_strlit("OK");
            reveal_strlit("UNAUTHORIZED");
            reveal_strlit("INTERNAL_ERROR");
        }
        match self {
            ResponseCode::OK => "OK",
            ResponseCode::UNAUTHORIZED => "UNAUTHORIZED",
            ResponseCode::INTERNAL_ERROR => "INTERNAL_ERROR",
            ResponseCode::Other(s) => s.as_str(),
        }
    }
}

#[derive(Debug)]
pub struct SubscribeFeedInput {
    pub url: String,
}

#[derive(Debug)]
pub struct Variables {
    pub input: SubscribeFeedInput,
}

/// A feed as the mutation returns it; times are RFC 3339 text.
#[derive(Debug)]
pub struct Feed {
    pub id: String,
    pub title: Option<String>,
    pub url: String,
    pub updated: Option<String>,
    pub website_url: Option<String>,
    pub description: Option<String>,
    pub entries: FeedEntries,
    pub links: FeedLinks,
}

#[derive(Debug)]
pub struct FeedEntries {
    pub nodes: Vec<EntryMeta>,
}

#[derive(Debug)]
pub struct FeedLinks {
    pub nodes: Vec<Link>,
}

#[derive(Debug)]
pub struct EntryMeta {
    pub title: Option<String>,
    pub published: Option<String>,
    pub summary: Option<String>,
}

#[derive(Debug)]
pub struct Link {
    pub href: String,
    pub rel: Option<String>,
    pub media_type: Option<String>,
    pub title: Option<String>,
}

#[derive(Debug)]
pub struct ResponseData {
    pub subscribe_feed: SubscribeFeedSubscribeFeed,
}

#[derive(Debug)]
pub enum SubscribeFeedSubscribeFeed {
    SubscribeFeedSuccess(SubscribeFeedSubscribeFeedOnSubscribeFeedSuccess),
    SubscribeFeedError(SubscribeFeedSubscribeFeedOnSubscribeFeedError),
}

#[derive(Debug)]
pub struct SubscribeFeedSubscribeFeedOnSubscribeFeedSuccess {
    pub feed: Feed,
    pub status: SubscribeFeedSubscribeFeedOnSubscribeFeedSuccessStatus,
}

#[derive(Debug)]
pub struct SubscribeFeedSubscribeFeedOnSubscribeFeedSuccessStatus {
    pub code: ResponseCode,
}

#[derive(Debug)]
pub struct SubscribeFeedSubscribeFeedOnSubscribeFeedError {
    pub status: SubscribeFeedSubscribeFeedOnSubscribeFeedErrorStatus,
}

#[derive(Debug)]
pub struct SubscribeFeedSubscribeFeedOnSubscribeFeedErrorStatus {
    pub code: ResponseCode,
}

} // verus!
