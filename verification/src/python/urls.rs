//! URL helper functions exposed to the Python layer.

use vstd::prelude::*;

use crate::common::consts::{
    ARCHITECT_HTTP_PRODUCTION_URL, ARCHITECT_HTTP_SANDBOX_URL, ARCHITECT_ORDERS_PRODUCTION_URL,
    ARCHITECT_ORDERS_SANDBOX_URL, ARCHITECT_WS_MD_PRODUCTION_URL, ARCHITECT_WS_MD_SANDBOX_URL,
    ARCHITECT_WS_ORDERS_PRODUCTION_URL, ARCHITECT_WS_ORDERS_SANDBOX_URL,
};
use crate::common::enums::{
    http_url_of, orders_url_of, ws_md_url_of, ws_orders_url_of, ArchitectEnvironment,
};

verus! {

/// Returns the Architect HTTP API base URL for the given environment.
pub fn py_get_architect_http_url(environment: ArchitectEnvironment) -> (u: &'static str)
    ensures
        u@ == http_url_of(environment),
        environment is Sandbox ==> u@ == ARCHITECT_HTTP_SANDBOX_URL@,
        environment is Production ==> u@ == ARCHITECT_HTTP_PRODUCTION_URL@,
{
    environment.http_url()
}

/// Returns the Architect Orders API base URL for the given environment.
pub fn py_get_architect_orders_url(environment: ArchitectEnvironment) -> (u: &'static str)
    ensures
        u@ == orders_url_of(environment),
        environment is Sandbox ==> u@ == ARCHITECT_ORDERS_SANDBOX_URL@,
        environment is Production ==> u@ == ARCHITECT_ORDERS_PRODUCTION_URL@,
{
    environment.orders_url()
}

/// Returns the Architect market data WebSocket URL for the given environment.
pub fn py_get_architect_ws_md_url(environment: ArchitectEnvironment) -> (u: &'static str)
    ensures
        u@ == ws_md_url_of(environment),
        environment is Sandbox ==> u@ == ARCHITECT_WS_MD_SANDBOX_URL@,
        environment is Production ==> u@ == ARCHITECT_WS_MD_PRODUCTION_URL@,
{
    environment.ws_md_url()
}

/// Returns the Architect orders WebSocket URL for the given environment.
pub fn py_get_architect_ws_orders_url(environment: ArchitectEnvironment) -> (u: &'static str)
    ensures
        u@ == ws_orders_url_of(environment),
        environment is Sandbox ==> u@ == ARCHITECT_WS_ORDERS_SANDBOX_URL@,
        environment is Production ==> u@ == ARCHITECT_WS_ORDERS_PRODUCTION_URL@,
{
    environment.ws_orders_url()
}

} // verus!
