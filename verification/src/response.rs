//! What a site answers for a URL.
use vstd::prelude::*;

verus! {

/// The type of HTTP response possible for a URL.
#[allow(non_camel_case_types)]
#[derive(PartialEq, Debug)]
pub enum PageResponse {
    /// The page: its HTTP headers, if any are stored, and its contents.
    http200(Option<Vec<(String, String)>>, Box<[u8]>),
    /// A permanent redirect to this URL.
    http3xx(String),
    /// No such page.
    http4xx,
}

impl PageResponse {
    /// The contents of a found page, `None` for any other response.
    pub fn into_200_contents(self) -> (res: Option<Box<[u8]>>)
        ensures
            match self {
                PageResponse::http200(_, bytes) => res == Some(bytes),
                _ => res is None,
            },
    {
        if let PageResponse::http200(_headers, bytes) = self {
            Some(bytes)
        } else {
            None
        }
    }
}

} // verus!
