use vstd::prelude::*;
use vstd::string::StringExecFns;

verus! {

/// `url`, then `?cursor=`, then `cursor`.
pub open spec fn with_cursor(url: Seq<char>, cursor: Seq<char>) -> Seq<char> {
    url + "?cursor="@ + cursor
}

/// `base/app/v1/<collection>/<key>/<listing>`: the shape shared by every listing endpoint.
pub open spec fn listing_url(
    base_url: Seq<char>,
    app_id: Seq<char>,
    collection: Seq<char>,
    key: Seq<char>,
    listing: Seq<char>,
) -> Seq<char> {
    base_url + "/"@ + app_id + "/v1/"@ + collection + "/"@ + key + "/"@ + listing
}

pub fn add_cursor_to_url(url: &str, cursor: &str) -> (r: String)
    ensures
        r@ == with_cursor(url@, cursor@),
{
    let mut r = String::from_str(url);
    r.append("?cursor=");
    r.append(cursor);
    r
}

fn listing_endpoint(base_url: &str, app_id: &str, collection: &str, key: &str, listing: &str) -> (r:
    String)
    ensures
        r@ == listing_url(base_url@, app_id@, collection@, key@, listing@),
{
    let mut r = String::from_str(base_url);
    r.append("/");
    r.append(app_id);
    r.append("/v1/");
    r.append(collection);
    r.append("/");
    r.append(key);
    r.append("/");
    r.append(listing);
    r
}

pub fn generate_get_all_addresses_for_stake_address_endpoint(
    base_url: &str,
    app_id: &str,
    stake_address: &str,
) -> (r: String)
    ensures
        r@ == listing_url(base_url@, app_id@, "wallets"@, stake_address@, "addresses"@),
{
    listing_endpoint(base_url, app_id, "wallets", stake_address, "addresses")
}

pub fn generate_get_all_assets_endpoint(base_url: &str, app_id: &str, address: &str) -> (r: String)
    ensures
        r@ == listing_url(base_url@, app_id@, "addresses"@, address@, "assets"@),
{
    listing_endpoint(base_url, app_id, "addresses", address, "assets")
}

pub fn generate_get_all_addresses_for_asset_endpoint(
    base_url: &str,
    app_id: &str,
    asset_id: &str,
) -> (r: String)
    ensures
        r@ == listing_url(base_url@, app_id@, "assets"@, asset_id@, "addresses"@),
{
    listing_endpoint(base_url, app_id, "assets", asset_id, "addresses")
}

} // verus!
