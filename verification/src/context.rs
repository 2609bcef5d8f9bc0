use vstd::prelude::*;

use crate::paths::FsPath;

verus! {

/// The data mode of server-side page rendering: plain server-side
/// rendering, or rendering that only exports the page's data.
#[derive(Debug, Clone, Copy, PartialEq, Eq, Structural)]
pub enum PageSsrType {
    Ssr,
    SsrData,
}

/// The server-side build contexts. `pages_dir` is the routing root under
/// which page files live; it is supplied by the caller, already resolved,
/// and never synthesized by this library.
#[derive(Debug, PartialEq, Eq)]
pub enum ServerContextType {
    /// Server-side rendering of files under the pages routing root.
    Pages { pages_dir: FsPath, ssr_type: PageSsrType },
    /// Server-side rendering for the app router.
    AppSSR,
    /// Rendering of app-router server components.
    AppRSC,
}

/// The client-side build contexts.
#[derive(Debug, PartialEq, Eq)]
pub enum ClientContextType {
    /// Client bundles for files under the pages routing root.
    Pages { pages_dir: FsPath },
    /// Client bundles for the app router.
    App,
    /// The fallback client bundle.
    Fallback,
    /// Any other client bundle.
    Other,
}

/// The build context a candidate file belongs to; it decides which
/// transform rules apply.
#[derive(Debug, PartialEq, Eq)]
pub enum SharedContextType {
    Server(ServerContextType),
    Client(ClientContextType),
}

} // verus!
