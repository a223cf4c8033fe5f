use crate::address::{derived_key, get_address_stake_key, stake_key_matches};
use crate::model::{Asset, BookId, BookListItem};
use vstd::prelude::*;
use vstd::utf8::encode_utf8;

verus! {

/// The lowercase hexadecimal digit of a value below sixteen.
pub open spec fn hex_digit(n: u8) -> char {
    seq!['0', '1', '2', '3', '4', '5', '6', '7', '8', '9', 'a', 'b', 'c', 'd', 'e', 'f'][n as int]
}

/// Two lowercase hexadecimal digits for each byte, high digit first.
pub open spec fn hex_text(bytes: Seq<u8>) -> Seq<char>
    decreases bytes.len(),
{
    if bytes.len() == 0 {
        Seq::empty()
    } else {
        hex_text(bytes.drop_last()) + seq![hex_digit(bytes.last() / 16), hex_digit(bytes.last() % 16)]
    }
}

/// Relies on `hex::encode`: lowercase hexadecimal, two digits per byte, in order.
#[verifier::external_body]
fn hex_encode(bytes: &[u8]) -> (r: String)
    ensures
        r@ == hex_text(bytes@),
{
    hex::encode(bytes)
}

/// What a listed book shows: its policy id, hex-encoded asset name, and display name.
pub struct BookView {
    pub policy_id: Seq<char>,
    pub asset_name_hex: Seq<char>,
    pub token_name: Seq<char>,
}

impl View for BookListItem {
    type V = BookView;

    open spec fn view(&self) -> BookView {
        BookView {
            policy_id: self.id.policy_id@,
            asset_name_hex: self.id.asset_name_hex@,
            token_name: self.token_name@,
        }
    }
}

pub open spec fn book_views(books: Seq<BookListItem>) -> Seq<BookView> {
    books.map_values(|b: BookListItem| b@)
}

/// Whether `policy_id` is one of `policy_ids`.
pub open spec fn policy_listed(policy_ids: Seq<String>, policy_id: Seq<char>) -> bool {
    exists|i: int| 0 <= i < policy_ids.len() && (#[trigger] policy_ids[i])@ == policy_id
}

/// The book an asset stands for: its policy id, the hex of its name's UTF-8 bytes,
/// and its name as it is.
pub open spec fn book_of(asset: Asset) -> BookView {
    BookView {
        policy_id: asset.policy_id@,
        asset_name_hex: hex_text(encode_utf8(asset.asset_name@)),
        token_name: asset.asset_name@,
    }
}

/// The books among the assets of one address, in the assets' order.
pub open spec fn books_at(policy_ids: Seq<String>, assets: Seq<Asset>) -> Seq<BookView>
    decreases assets.len(),
{
    if assets.len() == 0 {
        Seq::empty()
    } else {
        let earlier = books_at(policy_ids, assets.drop_last());
        if policy_listed(policy_ids, assets.last().policy_id@) {
            earlier.push(book_of(assets.last()))
        } else {
            earlier
        }
    }
}

/// The books held at a list of addresses: address by address, each in its assets' order.
pub open spec fn books_of(policy_ids: Seq<String>, holdings: Seq<Vec<Asset>>) -> Seq<BookView>
    decreases holdings.len(),
{
    if holdings.len() == 0 {
        Seq::empty()
    } else {
        books_of(policy_ids, holdings.drop_last()) + books_at(policy_ids, holdings.last()@)
    }
}

/// A shelf of books: the assets held by the addresses of one stake address.
pub struct Bookshelf {
    stake_address: String,
}

impl Bookshelf {
    pub fn new(stake_address: String) -> (r: Bookshelf)
        ensures
            r.spec_stake_address() == stake_address@,
    {
        Bookshelf { stake_address }
    }

    pub closed spec fn spec_stake_address(&self) -> Seq<char> {
        self.stake_address@
    }

    /// The stake address whose addresses make up the shelf.
    pub fn stake_address(&self) -> (r: &String)
        ensures
            r@ == self.spec_stake_address(),
    {
        &self.stake_address
    }

    /// The books among `holdings`, the assets of each address of the stake address
    /// in the order the addresses were listed: each asset whose policy id is one
    /// of `policy_ids`, in order, with no reordering and no deduplication.
    pub fn get_books(&self, policy_ids: &Vec<String>, holdings: &Vec<Vec<Asset>>) -> (r: Vec<BookListItem>)
        ensures
            book_views(r@) == books_of(policy_ids@, holdings@),
    {
        let mut books: Vec<BookListItem> = Vec::new();
        let mut i: usize = 0;
        while i < holdings.len()
            invariant
                i <= holdings.len(),
                book_views(books@) == books_of(policy_ids@, holdings@.subrange(0, i as int)),
            decreases holdings.len() - i,
        {
            let assets = &holdings[i];
            let mut j: usize = 0;
            while j < assets.len()
                invariant
                    i < holdings.len(),
                    assets == holdings@[i as int],
                    j <= assets.len(),
                    book_views(books@) == books_of(policy_ids@, holdings@.subrange(0, i as int))
                        + books_at(policy_ids@, assets@.subrange(0, j as int)),
                decreases assets.len() - j,
            {
                let asset = &assets[j];
                assert(assets@.subrange(0, j + 1).drop_last() == assets@.subrange(0, j as int));
                if is_listed(policy_ids, &asset.policy_id) {
                    let book = book_item(asset);
                    let ghost before = books@;
                    books.push(book);
                    assert(book_views(books@) == book_views(before).push(book@));
                }
                j += 1;
            }
            assert(holdings@.subrange(0, i + 1).drop_last() == holdings@.subrange(0, i as int));
            assert(assets@.subrange(0, assets@.len() as int) == assets@);
            i += 1;
        }
        assert(holdings@.subrange(0, holdings@.len() as int) == holdings@);
        books
    }

    /// Whether the asset held at `holders` (its set of holder addresses) is on this
    /// shelf: only an asset with exactly one holder can be, and only when the stake
    /// address derived from that holder is this shelf's stake address.
    pub fn has_book(&self, holders: &Vec<String>) -> (r: bool)
        requires
            forall|i: int, j: int| 0 <= i < j < holders@.len() ==> holders@[i]@ != holders@[j]@,
        ensures
            r == (holders@.len() == 1 && derived_key(holders@[0]@) == Some(self.spec_stake_address())),
    {
        if holders.len() != 1 {
            return false;
        }
        let key = get_address_stake_key(holders[0].as_str());
        stake_key_matches(&key, self.stake_address.as_str())
    }
}

/// Whether `policy_id` is one of `policy_ids`.
fn is_listed(policy_ids: &Vec<String>, policy_id: &String) -> (r: bool)
    ensures
        r == policy_listed(policy_ids@, policy_id@),
{
    let mut i: usize = 0;
    while i < policy_ids.len()
        invariant
            i <= policy_ids.len(),
            forall|k: int| 0 <= k < i ==> (#[trigger] policy_ids@[k])@ != policy_id@,
        decreases policy_ids.len() - i,
    {
        if policy_ids[i] == *policy_id {
            return true;
        }
        i += 1;
    }
    false
}

/// The list item of a book asset.
fn book_item(asset: &Asset) -> (r: BookListItem)
    ensures
        r@ == book_of(*asset),
{
    let asset_name_hex = hex_encode(asset.asset_name.as_str().as_bytes());
    BookListItem { id: BookId::new(asset.policy_id.clone(), asset_name_hex), token_name: asset.asset_name.clone() }
}

/// No book on the list has a policy id outside `policy_ids`.
pub proof fn lemma_books_within_filter(policy_ids: Seq<String>, holdings: Seq<Vec<Asset>>)
    ensures
        forall|k: int| 0 <= k < books_of(policy_ids, holdings).len()
            ==> policy_listed(policy_ids, (#[trigger] books_of(policy_ids, holdings)[k]).policy_id),
    decreases holdings.len(),
{
    if holdings.len() > 0 {
        lemma_books_within_filter(policy_ids, holdings.drop_last());
        lemma_books_at_within_filter(policy_ids, holdings.last()@);
        let earlier = books_of(policy_ids, holdings.drop_last());
        let last = books_at(policy_ids, holdings.last()@);
        assert forall|k: int| 0 <= k < books_of(policy_ids, holdings).len()
            implies policy_listed(policy_ids, (#[trigger] books_of(policy_ids, holdings)[k]).policy_id) by {
            if k < earlier.len() {
                assert(books_of(policy_ids, holdings)[k] == earlier[k]);
            } else {
                assert(books_of(policy_ids, holdings)[k] == last[k - earlier.len()]);
            }
        }
    }
}

/// No book found at one address has a policy id outside `policy_ids`.
pub proof fn lemma_books_at_within_filter(policy_ids: Seq<String>, assets: Seq<Asset>)
    ensures
        forall|k: int| 0 <= k < books_at(policy_ids, assets).len()
            ==> policy_listed(policy_ids, (#[trigger] books_at(policy_ids, assets)[k]).policy_id),
    decreases assets.len(),
{
    if assets.len() > 0 {
        lemma_books_at_within_filter(policy_ids, assets.drop_last());
        let earlier = books_at(policy_ids, assets.drop_last());
        assert forall|k: int| 0 <= k < books_at(policy_ids, assets).len()
            implies policy_listed(policy_ids, (#[trigger] books_at(policy_ids, assets)[k]).policy_id) by {
            if k < earlier.len() {
                assert(books_at(policy_ids, assets)[k] == earlier[k]);
            }
        }
    }
}

/// With no policy ids to look for, no books are listed, whatever the addresses hold.
pub proof fn lemma_no_policies_no_books(holdings: Seq<Vec<Asset>>)
    ensures
        books_of(Seq::<String>::empty(), holdings) == Seq::<BookView>::empty(),
    decreases holdings.len(),
{
    if holdings.len() > 0 {
        lemma_no_policies_no_books(holdings.drop_last());
        lemma_no_policies_at_address(holdings.last()@);
        assert(books_of(Seq::<String>::empty(), holdings) =~= Seq::<BookView>::empty());
    }
}

/// With no policy ids to look for, no books are found at an address.
pub proof fn lemma_no_policies_at_address(assets: Seq<Asset>)
    ensures
        books_at(Seq::<String>::empty(), assets) == Seq::<BookView>::empty(),
    decreases assets.len(),
{
    if assets.len() > 0 {
        lemma_no_policies_at_address(assets.drop_last());
    }
}

} // verus!
