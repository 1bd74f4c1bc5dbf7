use vstd::prelude::*;
use vstd::string::*;
use crate::JOYENT_IMGAPI_URL;
use crate::errors::ImgapiError;
use crate::filter::{ImageFilter, encoded_filter};
use crate::ids::{ImageId, uuid_grammar};
use crate::urls::{url_parse_of, url_join_of, parse_url, join_url, url_to_string};

verus! {

/// A handle on one catalog endpoint. Both operations are stateless; the only
/// configuration is the base URL.
#[derive(Debug, Clone)]
pub struct CatalogClient {
    /// The base catalog endpoint.
    pub base_url: String,
}

/// The request text of a listing: the base endpoint, and `?` plus the encoded
/// filter when one is given.
pub open spec fn list_request_text(base: Seq<char>, filter: Option<ImageFilter>) -> Seq<char> {
    match filter {
        Some(f) => base + "?"@ + encoded_filter(f),
        None => base,
    }
}

impl CatalogClient {
    /// A client for the given endpoint.
    pub fn new(base_url: String) -> (r: CatalogClient)
        ensures
            r.base_url == base_url,
    {
        CatalogClient { base_url }
    }

    /// A client for the public catalog endpoint.
    pub fn public_endpoint() -> (r: CatalogClient)
        ensures
            r.base_url@ == JOYENT_IMGAPI_URL@,
    {
        CatalogClient { base_url: String::from_str(JOYENT_IMGAPI_URL) }
    }

    /// The URL a listing request goes to: the base endpoint with the
    /// filter's query string appended after `?`, validated as a URL.
    /// Fails only when the composed text is not a well-formed URL, which
    /// points at a misconfigured base endpoint.
    pub fn list_url(&self, filter: Option<&ImageFilter>) -> (r: Result<String, ImgapiError>)
        ensures
            match r {
                Ok(u) => url_parse_of(
                    list_request_text(
                        self.base_url@,
                        match filter {
                            Some(f) => Some(*f),
                            None => None,
                        },
                    ),
                ) == Some(u@),
                Err(e) => e is UrlConstructionError && url_parse_of(
                    list_request_text(
                        self.base_url@,
                        match filter {
                            Some(f) => Some(*f),
                            None => None,
                        },
                    ),
                ) is None,
            },
    {
        let req: String = match filter {
            Some(f) => {
                let mut s = self.base_url.clone();
                s.append("?");
                let qs = f.to_string();
                s.append(qs.as_str());
                s
            },
            None => self.base_url.clone(),
        };
        match parse_url(req.as_str()) {
            Some(u) => Ok(url_to_string(&u)),
            None => Err(
                ImgapiError::UrlConstructionError(
                    String::from_str("the composed listing request is not a valid URL"),
                ),
            ),
        }
    }

    /// The URL one image is fetched from: the identifier joined onto the
    /// base endpoint as a path segment. A malformed identifier is rejected
    /// before anything else happens, so no request can be issued for it.
    pub fn get_url(&self, image_uuid: &str) -> (r: Result<String, ImgapiError>)
        ensures
            !uuid_grammar(image_uuid@) ==> (r matches Err(e) && e is ValidationError),
            uuid_grammar(image_uuid@) ==> match r {
                Ok(u) => (url_parse_of(self.base_url@) matches Some(b) && url_join_of(
                    b,
                    image_uuid@,
                ) == Some(u@)),
                Err(e) => e is UrlConstructionError && (url_parse_of(self.base_url@) is None || (
                url_parse_of(self.base_url@) matches Some(b) && url_join_of(b, image_uuid@)
                    is None)),
            },
    {
        match ImageId::parse(image_uuid) {
            Ok(_) => (),
            Err(e) => {
                return Err(e);
            },
        };
        let base = match parse_url(self.base_url.as_str()) {
            Some(u) => u,
            None => {
                return Err(
                    ImgapiError::UrlConstructionError(
                        String::from_str("the base endpoint is not a valid URL"),
                    ),
                );
            },
        };
        match join_url(&base, image_uuid) {
            Some(u) => Ok(url_to_string(&u)),
            None => Err(
                ImgapiError::UrlConstructionError(
                    String::from_str("the image identifier does not join onto the base endpoint"),
                ),
            ),
        }
    }
}

} // verus!
