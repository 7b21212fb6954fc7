//! The image APIs the bot calls, and the registry through which the rest of
//! the bot reaches their clients.

use vstd::prelude::*;

verus! {

/// The clients of the image APIs, made once and shared by the whole bot.
pub struct ApiRegistry<N, L> {
    pub nekoslife: N,
    pub lunardev: L,
}

/// The nekos.life client of the registry.
pub fn get_nekoslife_api<N, L>(apis: &ApiRegistry<N, L>) -> (r: &N)
    ensures
        *r == apis.nekoslife,
{
    &apis.nekoslife
}

/// The LunarDev client of the registry.
pub fn get_lunardev_api<N, L>(apis: &ApiRegistry<N, L>) -> (r: &L)
    ensures
        *r == apis.lunardev,
{
    &apis.lunardev
}

/// The root of the LunarDev API.
pub open spec fn lunardev_base_url() -> Seq<char> {
    "https://lunardev.group/api/"@
}

/// The address from which a neko picture is fetched: the API root, then `/neko`.
pub fn lunardev_neko_url() -> (r: String)
    ensures
        r@ == lunardev_base_url() + "/neko"@,
{
    let mut url = String::from_str("https://lunardev.group/api/");
    url.append("/neko");
    url
}

/// The error given when the LunarDev API could not be reached.
pub fn lunardev_neko_failure() -> (r: String)
    ensures
        r@ == "[API-L.D] Failed to get neko image"@,
{
    String::from_str("[API-L.D] Failed to get neko image")
}

} // verus!
