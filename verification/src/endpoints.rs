//! The addresses of the hub's endpoints.

use vstd::prelude::*;
use vstd::string::StringExecFns;

verus! {

/// The decimal notation that the standard library gives a number.
pub uninterp spec fn decimal_text(number: u32) -> Seq<char>;

/// Calls `u32::to_string`. Trusted: the result is a function of the number
/// alone.
#[verifier::external_body]
pub(crate) fn u32_to_string(number: u32) -> (text: String)
    ensures
        text@ == decimal_text(number),
{
    number.to_string()
}

/// The address of the login page of the hub at `ip`.
pub open spec fn login_address(ip: Seq<char>) -> Seq<char> {
    "http://"@ + ip + "/login"@
}

/// The address of the inventory of the hub at `ip`.
pub open spec fn inventory_address(ip: Seq<char>) -> Seq<char> {
    "http://"@ + ip + "/device/list/all/data"@
}

/// The address of the device list of the hub at `ip`.
pub open spec fn device_list_address(ip: Seq<char>, api_id: Seq<char>, token: Seq<char>) -> Seq<
    char,
> {
    "http://"@ + ip + "/apps/api/"@ + api_id + "/devices?access_token="@ + token
}

/// The address of the detail of the device whose number is written
/// `device`.
pub open spec fn device_detail_address(
    ip: Seq<char>,
    api_id: Seq<char>,
    token: Seq<char>,
    device: Seq<char>,
) -> Seq<char> {
    "http://"@ + ip + "/apps/api/"@ + api_id + "/devices/"@ + device + "?access_token="@ + token
}

/// The address of the login page of the hub at `ip`.
pub fn login_url(ip: &str) -> (url: String)
    ensures
        url@ == login_address(ip@),
{
    let mut url = String::new();
    url.append("http://");
    url.append(ip);
    url.append("/login");
    assert(url@ =~= login_address(ip@));
    url
}

/// The address of the inventory of the hub at `ip`.
pub fn inventory_url(ip: &str) -> (url: String)
    ensures
        url@ == inventory_address(ip@),
{
    let mut url = String::new();
    url.append("http://");
    url.append(ip);
    url.append("/device/list/all/data");
    assert(url@ =~= inventory_address(ip@));
    url
}

/// The address of the device list of the hub at `ip`, for the API instance
/// `api_id` and its access token.
pub fn device_list_url(ip: &str, api_id: &str, token: &str) -> (url: String)
    ensures
        url@ == device_list_address(ip@, api_id@, token@),
{
    let mut url = String::new();
    url.append("http://");
    url.append(ip);
    url.append("/apps/api/");
    url.append(api_id);
    url.append("/devices?access_token=");
    url.append(token);
    assert(url@ =~= device_list_address(ip@, api_id@, token@));
    url
}

/// The address of the detail of a device, from the device number as it is
/// written.
pub fn device_detail_url_for(ip: &str, api_id: &str, token: &str, device: &str) -> (url: String)
    ensures
        url@ == device_detail_address(ip@, api_id@, token@, device@),
{
    let mut url = String::new();
    url.append("http://");
    url.append(ip);
    url.append("/apps/api/");
    url.append(api_id);
    url.append("/devices/");
    url.append(device);
    url.append("?access_token=");
    url.append(token);
    assert(url@ =~= device_detail_address(ip@, api_id@, token@, device@));
    url
}

/// The address of the detail of the device `device`.
pub fn device_detail_url(ip: &str, api_id: &str, token: &str, device: u32) -> (url: String)
    ensures
        url@ == device_detail_address(ip@, api_id@, token@, decimal_text(device)),
{
    let written = u32_to_string(device);
    device_detail_url_for(ip, api_id, token, written.as_str())
}

} // verus!
