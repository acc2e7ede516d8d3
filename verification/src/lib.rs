//! A client library for the Crossref REST API: the queries, the routes they
//! render to and the decisions the client makes between requests.

pub mod text;
pub mod encode;
pub mod words;
pub mod error;
pub mod query;
pub mod date;
pub mod numbers;
pub mod limit;
pub mod paging;
pub mod citekey;
pub mod cn;
pub mod journal;
pub mod builder;
pub mod cli;

pub use error::{Error, Result};
pub use limit::{Duration, Pacer, RateLimit};
pub use paging::DeepPager;
pub use cn::CnFormat;
pub use builder::CrossrefBuilder;
pub use citekey::CiteKey;
pub use query::{
    Component, CrossrefParams, CrossrefQuery, CrossrefRoute, FieldQuery, Funders, FundersFilter, FundersQuery,
    Journals, JournalsQuery, Licenses, LicensesQuery, Members, MembersFilter, MembersQuery, Order,
    Prefixes, ResourceComponent, ResultControl, SearchField, Sort, Type, Types, Visibility,
    WorkElement, WorkListQuery, WorkResultControl, Works, WorksCombiner, WorksFilter,
    WorksIdentQuery, WorksQuery,
};
