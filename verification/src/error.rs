//! The errors this crate reports.

use vstd::prelude::*;
use crate::limit::RateLimit;
use crate::query::{resource_route, CrossrefRoute, ResourceComponent};
use crate::text::{decimal, owned, u64_text};
use vstd::string::StringExecFns;

verus! {

/// All different error types the library reports.
#[derive(Debug)]
pub enum Error {
    /// an invalid type was requested
    InvalidTypeName {
        /// the type name that was invalid
        name: String,
    },
    /// a filter value crossref has no way to read back
    ///
    /// Crossref splits the `filter` value on `,` after percent-decoding it, so
    /// a value carrying one arrives as two filters. There is no form that
    /// survives the split, so the request is refused rather than sent.
    UnsendableFilterValue {
        /// the filter whose value cannot be sent, e.g. `container-title`
        filter: String,
        /// the value that carries the `,`
        value: String,
    },
    /// a configuration error
    Config {
        /// the notification
        msg: String,
    },
    /// crossref kept answering `429` until the retry budget ran out
    ///
    /// The client paces itself against the limit crossref reports, so this
    /// normally means requests are also being made outside it.
    RateLimited {
        /// how many times the request was sent
        attempts: u32,
        /// the budget crossref last reported
        limit: RateLimit,
    },
    /// crossref could not find anything for the resource
    ResourceNotFound {
        /// the resource that could not be resolved
        resource: Box<ResourceComponent>,
    },
}


/// How an error reads.
pub open spec fn error_text(e: Error) -> Seq<char> {
    match e {
        Error::InvalidTypeName { name } => "invalid type name: "@ + name@,
        Error::UnsendableFilterValue { filter, value } => "`"@ + value@
            + "` cannot be sent as a `"@ + filter@
            + "` filter: crossref reads the `,` in it as the start of another filter"@,
        Error::Config { msg } => msg@,
        Error::RateLimited { attempts, .. } => "crossref rate limited the request; gave up after "@
            + decimal(attempts as nat) + " attempts"@,
        Error::ResourceNotFound { resource } => "Nothing was found for resource `"@
            + resource_route(*resource) + "`"@,
    }
}

impl Error {
    /// How the error reads. A resource that was not found is named by its
    /// route, so it has to be one that renders.
    pub fn message(&self) -> (r: String)
        requires
            *self matches Error::ResourceNotFound { resource } ==> (*resource).route_spec() is Ok,
        ensures
            r@ == error_text(*self),
    {
        match self {
            Error::InvalidTypeName { name } => {
                let mut r = owned("invalid type name: ");
                r.append(name.as_str());
                r
            },
            Error::UnsendableFilterValue { filter, value } => {
                let mut r = owned("`");
                r.append(value.as_str());
                r.append("` cannot be sent as a `");
                r.append(filter.as_str());
                r.append("` filter: crossref reads the `,` in it as the start of another filter");
                r
            },
            Error::Config { msg } => owned(msg.as_str()),
            Error::RateLimited { attempts, .. } => {
                let mut r = owned("crossref rate limited the request; gave up after ");
                let count = u64_text(*attempts as u64);
                r.append(count.as_str());
                r.append(" attempts");
                r
            },
            Error::ResourceNotFound { resource } => {
                let mut r = owned("Nothing was found for resource `");
                match resource.route() {
                    Ok(route) => {
                        r.append(route.as_str());
                    },
                    Err(_) => {},
                }
                r.append("`");
                r
            },
        }
    }
}

/// A type alias for handling errors throughout the library.
pub type Result<T> = core::result::Result<T, Error>;

} // verus!
