use vstd::prelude::*;
use vstd::string::StringExecFns;

verus! {

/// A quantity of one native asset seen at an address.
#[derive(Debug, Clone)]
pub struct Asset {
    pub policy_id: String,
    pub asset_name: String,
    pub fingerprint: String,
    pub quantity: i64,
}

/// The identity of a native asset class: its policy id and its hex-encoded name.
#[derive(Debug, Clone)]
pub struct BookId {
    pub policy_id: String,
    pub asset_name_hex: String,
}

/// A book together with the name it is shown under.
#[derive(Debug, Clone)]
pub struct BookListItem {
    pub id: BookId,
    pub token_name: String,
}

/// The canonical asset identifier: the policy id followed by the hex-encoded asset name.
pub open spec fn asset_id_of(policy_id: Seq<char>, asset_name_hex: Seq<char>) -> Seq<char> {
    policy_id + asset_name_hex
}

impl BookId {
    pub fn new(policy_id: String, asset_name_hex: String) -> (r: BookId)
        ensures
            r.policy_id@ == policy_id@,
            r.asset_name_hex@ == asset_name_hex@,
    {
        BookId { policy_id, asset_name_hex }
    }

    pub fn as_asset_id(&self) -> (r: String)
        ensures
            r@ == asset_id_of(self.policy_id@, self.asset_name_hex@),
    {
        let mut r = self.policy_id.clone();
        r.append(self.asset_name_hex.as_str());
        r
    }
}

} // verus!
