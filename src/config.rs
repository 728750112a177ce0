//! The address of the archive that works are fetched from: a value the caller
//! owns and may switch at run time.

use vstd::prelude::*;

verus! {

/// The archive's primary address.
pub open spec fn default_base_url() -> Seq<char> {
    "https://archiveofourown.org"@
}

/// The archive's alternate address.
pub open spec fn alt_base_url() -> Seq<char> {
    "https://archiveofourown.gay"@
}

/// The address of a proxy for the archive.
pub open spec fn proxy_base_url() -> Seq<char> {
    "https://xn--iao3-lw4b.ws"@
}

/// Where works are fetched from.
#[derive(Clone, Debug)]
pub struct SourceConfig {
    pub base_url: String,
}

impl SourceConfig {
    /// A configuration that points at the primary address.
    pub fn new() -> (r: SourceConfig)
        ensures
            r.base_url@ == default_base_url(),
    {
        SourceConfig { base_url: String::from_str("https://archiveofourown.org") }
    }
}

/// The address works are fetched from now.
pub fn get_ao3_base_url(config: &SourceConfig) -> (r: String)
    ensures
        r@ == config.base_url@,
{
    config.base_url.clone()
}

/// Points the configuration at `url`.
pub fn set_ao3_base_url(config: &mut SourceConfig, url: &str)
    ensures
        final(config).base_url@ == url@,
{
    config.base_url = String::from_str(url);
}

/// Points the configuration back at the primary address.
pub fn reset_ao3_base_url(config: &mut SourceConfig)
    ensures
        final(config).base_url@ == default_base_url(),
{
    set_ao3_base_url(config, "https://archiveofourown.org");
}

/// Points the configuration at the alternate address.
pub fn switch_to_alt_ao3_url(config: &mut SourceConfig)
    ensures
        final(config).base_url@ == alt_base_url(),
{
    set_ao3_base_url(config, "https://archiveofourown.gay");
}

/// Points the configuration at the proxy address.
pub fn switch_to_proxy_ao3_url(config: &mut SourceConfig)
    ensures
        final(config).base_url@ == proxy_base_url(),
{
    set_ao3_base_url(config, "https://xn--iao3-lw4b.ws");
}

} // verus!
