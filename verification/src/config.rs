//! The configuration shared by all managers.

use vstd::prelude::*;
use crate::discord::DiscordConfig;
use crate::gecko::CoingeckoConfig;
use crate::twitter::TwitterConfig;

verus! {

/// The whole configuration, one section per manager.
#[derive(Debug, PartialEq, Eq)]
pub struct Config {
    pub twitter: TwitterConfig,
    pub discord: DiscordConfig,
    pub coingecko: CoingeckoConfig,
}

} // verus!
