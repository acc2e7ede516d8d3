//! The `/prefixes` route.

use vstd::prelude::*;
use crate::error::Result;
use crate::query::works::{combined_route_of, combined_route_spec, WorksCombiner, WorksIdentQuery};
use crate::query::{
    component_route, item_route, Component, CrossrefRoute,
    RouteSpec,
};

verus! {

/// constructs the request payload for the `/prefixes` route
#[derive(Debug, Clone)]
pub enum Prefixes {
    /// target a specific prefix at `/prefixes/{id}`
    Identifier(String),
    /// target a `Work` for a specific prefix at `/prefixes/{id}/works?query..`
    Works(WorksIdentQuery),
}

impl CrossrefRoute for Prefixes {
    open spec fn route_spec(&self) -> RouteSpec {
        match *self {
            Prefixes::Identifier(s) => Ok(component_route(Component::Prefixes) + seq!['/'] + s@),
            Prefixes::Works(ident) => combined_route_spec(Component::Prefixes, ident),
        }
    }

    fn route(&self) -> (r: Result<String>) {
        match self {
            Prefixes::Identifier(s) => Ok(item_route(Component::Prefixes, s.as_str())),
            Prefixes::Works(combined) => Self::combined_route(combined),
        }
    }
}

impl WorksCombiner for Prefixes {
    open spec fn primary() -> Component {
        Component::Prefixes
    }

    open spec fn combined_ident(&self) -> Option<WorksIdentQuery> {
        match *self {
            Prefixes::Works(ident) => Some(ident),
            _ => None,
        }
    }

    fn primary_component() -> (r: Component) {
        Component::Prefixes
    }

    fn ident_query(ident: WorksIdentQuery) -> (r: Self) {
        Prefixes::Works(ident)
    }

    fn combined_route(ident: &WorksIdentQuery) -> (r: Result<String>) {
        combined_route_of(Component::Prefixes, ident)
    }
}

} // verus!
