//! The hosts that requests go to.

use vstd::prelude::*;

verus! {

/// The main REST host.
pub const DEFAULT_HOST: &'static str = "https://www.tokocrypto.com";

/// The host of the Binance-style v3 endpoints (main symbols).
pub const DEFAULT_SITE_HOST: &'static str = "https://www.tokocrypto.site";

/// The host of the v1 market endpoints of Nextme symbols.
pub const CLOUDME_HOST: &'static str = "https://cloudme-toko.2meta.app";

} // verus!
