//! The record of a token and what its owner and the platform may do to
//! it.

use vstd::prelude::*;
use crate::pubkey::Pubkey;

verus! {

/// Largest royalty rate: one hundred percent, in basis points.
pub const MAX_ROYALTY_BASIS_POINTS: u16 = 10000;

/// How rare a token is.
#[derive(Clone, Copy, Debug, PartialEq, Eq, Structural)]
pub enum NFTRarity {
    Common,
    Rare,
    Epic,
    Legendary,
}

/// What `str::to_lowercase` returns for a string.
pub uninterp spec fn lowercase_of(s: Seq<char>) -> Seq<char>;

/// Calls `str::to_lowercase`: the result is the lowercase form of the
/// argument, a function of the argument alone.
#[verifier::external_body]
fn lowercase(s: &str) -> (lower: String)
    ensures
        lower@ == lowercase_of(s@),
{
    s.to_lowercase()
}

/// The four lowercase rarity names are pairwise different.
pub proof fn lemma_rarity_names_distinct()
    ensures
        "common"@ != "rare"@,
        "common"@ != "epic"@,
        "common"@ != "legendary"@,
        "rare"@ != "epic"@,
        "rare"@ != "legendary"@,
        "epic"@ != "legendary"@,
{
    reveal_strlit("common");
    reveal_strlit("rare");
    reveal_strlit("epic");
    reveal_strlit("legendary");
    assert("common"@.len() == 6);
    assert("rare"@.len() == 4);
    assert("epic"@.len() == 4);
    assert("legendary"@.len() == 9);
    assert("rare"@[0] == 'r');
    assert("epic"@[0] == 'e');
}

impl NFTRarity {
    /// The rarity that a lowercase name stands for; an unknown name is
    /// `Common`.
    pub open spec fn of_lowercase(lower: Seq<char>) -> NFTRarity {
        if lower == "rare"@ {
            NFTRarity::Rare
        } else if lower == "epic"@ {
            NFTRarity::Epic
        } else if lower == "legendary"@ {
            NFTRarity::Legendary
        } else {
            NFTRarity::Common
        }
    }

    /// Reads a rarity from a name that is already in lowercase.
    pub fn from_lowercase(lower: &String) -> (rarity: NFTRarity)
        ensures
            rarity == NFTRarity::of_lowercase(lower@),
    {
        proof {
            lemma_rarity_names_distinct();
        }
        if *lower == "common".to_owned() {
            NFTRarity::Common
        } else if *lower == "rare".to_owned() {
            NFTRarity::Rare
        } else if *lower == "epic".to_owned() {
            NFTRarity::Epic
        } else if *lower == "legendary".to_owned() {
            NFTRarity::Legendary
        } else {
            NFTRarity::Common
        }
    }

    /// Reads a rarity from its name, whatever the case of its letters.
    pub fn from_str(s: &str) -> (rarity: NFTRarity)
        ensures
            rarity == NFTRarity::of_lowercase(lowercase_of(s@)),
    {
        let lower = lowercase(s);
        NFTRarity::from_lowercase(&lower)
    }

    /// The name of the rarity as a sequence of characters.
    pub open spec fn name(self) -> Seq<char> {
        match self {
            NFTRarity::Common => "Common"@,
            NFTRarity::Rare => "Rare"@,
            NFTRarity::Epic => "Epic"@,
            NFTRarity::Legendary => "Legendary"@,
        }
    }

    /// The name of the rarity, capitalised.
    pub fn to_string(&self) -> (name: String)
        ensures
            name@ == self.name(),
    {
        match self {
            NFTRarity::Common => "Common".to_owned(),
            NFTRarity::Rare => "Rare".to_owned(),
            NFTRarity::Epic => "Epic".to_owned(),
            NFTRarity::Legendary => "Legendary".to_owned(),
        }
    }
}

/// One trait of a token and its value.
#[derive(Clone, Debug, PartialEq)]
pub struct NFTAttribute {
    pub trait_type: String,
    pub value: String,
}

impl View for NFTAttribute {
    type V = (Seq<char>, Seq<char>);

    open spec fn view(&self) -> (Seq<char>, Seq<char>) {
        (self.trait_type@, self.value@)
    }
}

/// The views of a list of attributes, in order.
pub open spec fn attribute_views(attributes: Seq<NFTAttribute>) -> Seq<(Seq<char>, Seq<char>)> {
    attributes.map_values(|a: NFTAttribute| a@)
}

/// The record of one token.
#[derive(Clone, Debug, PartialEq)]
pub struct NFTData {
    pub mint: Pubkey,
    pub owner: Pubkey,
    pub name: String,
    pub symbol: String,
    pub uri: String,
    pub anime_title: String,
    pub rarity: NFTRarity,
    pub is_for_sale: bool,
    /// Asking price, meaningful while the token is for sale.
    pub price: u64,
    /// When the record was created, in seconds.
    pub created_at: i64,
    pub creator: Pubkey,
    pub description: String,
    /// The collection that the token belongs to, if any.
    pub collection_id: Option<Pubkey>,
    pub attributes: Vec<NFTAttribute>,
    /// Royalty on later sales, in basis points (250 is 2.5%).
    pub royalty_basis_points: u16,
    /// Whether the platform has verified the token.
    pub is_verified: bool,
}

/// What a token record holds, as mathematical values.
pub ghost struct NFTDataView {
    pub mint: Pubkey,
    pub owner: Pubkey,
    pub name: Seq<char>,
    pub symbol: Seq<char>,
    pub uri: Seq<char>,
    pub anime_title: Seq<char>,
    pub rarity: NFTRarity,
    pub is_for_sale: bool,
    pub price: u64,
    pub created_at: i64,
    pub creator: Pubkey,
    pub description: Seq<char>,
    pub collection_id: Option<Pubkey>,
    pub attributes: Seq<(Seq<char>, Seq<char>)>,
    pub royalty_basis_points: u16,
    pub is_verified: bool,
}

impl View for NFTData {
    type V = NFTDataView;

    open spec fn view(&self) -> NFTDataView {
        NFTDataView {
            mint: self.mint,
            owner: self.owner,
            name: self.name@,
            symbol: self.symbol@,
            uri: self.uri@,
            anime_title: self.anime_title@,
            rarity: self.rarity,
            is_for_sale: self.is_for_sale,
            price: self.price,
            created_at: self.created_at,
            creator: self.creator,
            description: self.description@,
            collection_id: self.collection_id,
            attributes: attribute_views(self.attributes@),
            royalty_basis_points: self.royalty_basis_points,
            is_verified: self.is_verified,
        }
    }
}

/// The royalty owed on a sale: the price scaled by the rate in basis
/// points, rounded down.
pub open spec fn royalty_amount(sale_price: nat, basis_points: nat) -> nat {
    sale_price * basis_points / 10000
}

/// A royalty at a rate of at most one hundred percent never exceeds the
/// price, and a rate of zero owes nothing.
pub proof fn lemma_royalty_bounds(sale_price: nat, basis_points: nat)
    requires
        basis_points <= 10000,
    ensures
        royalty_amount(sale_price, basis_points) <= sale_price,
        royalty_amount(sale_price, 0) == 0,
        royalty_amount(sale_price, 10000) == sale_price,
{
    assert(sale_price * basis_points <= sale_price * 10000) by (nonlinear_arith)
        requires
            basis_points <= 10000,
    ;
    assert(sale_price * 0 == 0);
    assert(sale_price * 10000 / 10000 == sale_price);
}

/// A record with the mark of verification set.
pub open spec fn verified(record: NFTDataView) -> NFTDataView {
    NFTDataView { is_verified: true, ..record }
}

/// Setting the mark of verification twice is setting it once: the record
/// is verified and nothing else has changed.
pub proof fn lemma_verified_is_idempotent(record: NFTDataView)
    ensures
        verified(verified(record)) == verified(record),
        verified(record).is_verified,
        record.is_verified ==> verified(record) == record,
{
}

impl NFTData {
    /// The royalty rate is at most one hundred percent.
    pub open spec fn wf(&self) -> bool {
        self.royalty_basis_points <= MAX_ROYALTY_BASIS_POINTS
    }

    /// Puts the token up for sale at a price.
    pub fn set_for_sale(&mut self, price: u64)
        ensures
            final(self)@ == (NFTDataView { is_for_sale: true, price: price, ..old(self)@ }),
    {
        self.is_for_sale = true;
        self.price = price;
    }

    /// Withdraws the token from sale; the last price stays on record.
    pub fn remove_from_sale(&mut self)
        ensures
            final(self)@ == (NFTDataView { is_for_sale: false, ..old(self)@ }),
    {
        self.is_for_sale = false;
    }

    /// Hands the token to a new owner and withdraws it from sale.
    pub fn transfer(&mut self, new_owner: Pubkey)
        ensures
            final(self)@ == (NFTDataView { owner: new_owner, is_for_sale: false, ..old(self)@ }),
    {
        self.owner = new_owner;
        self.is_for_sale = false;
    }

    /// Marks the token as verified. Nothing unsets the mark.
    pub fn verify(&mut self)
        ensures
            final(self)@ == verified(old(self)@),
    {
        self.is_verified = true;
    }

    /// Appends an attribute after those already there.
    pub fn add_attribute(&mut self, trait_type: String, value: String)
        ensures
            final(self)@ == (NFTDataView {
                attributes: old(self)@.attributes.push((trait_type@, value@)),
                ..old(self)@
            }),
    {
        self.attributes.push(NFTAttribute { trait_type, value });
        proof {
            assert(attribute_views(self.attributes@) =~= attribute_views(
                old(self).attributes@,
            ).push((trait_type@, value@)));
        }
    }

    /// Places the token in a collection.
    pub fn set_collection(&mut self, collection_id: Pubkey)
        ensures
            final(self)@ == (NFTDataView { collection_id: Some(collection_id), ..old(self)@ }),
    {
        self.collection_id = Some(collection_id);
    }

    /// Takes the token out of its collection.
    pub fn remove_from_collection(&mut self)
        ensures
            final(self)@ == (NFTDataView { collection_id: None, ..old(self)@ }),
    {
        self.collection_id = None;
    }

    /// Sets the royalty rate. A rate above one hundred percent is ignored
    /// and the record stays as it was.
    pub fn set_royalty(&mut self, royalty_basis_points: u16)
        ensures
            royalty_basis_points <= MAX_ROYALTY_BASIS_POINTS ==> final(self)@ == (NFTDataView {
                royalty_basis_points: royalty_basis_points,
                ..old(self)@
            }),
            royalty_basis_points > MAX_ROYALTY_BASIS_POINTS ==> final(self)@ == old(self)@,
            old(self).wf() ==> final(self).wf(),
    {
        if royalty_basis_points <= MAX_ROYALTY_BASIS_POINTS {
            self.royalty_basis_points = royalty_basis_points;
        }
    }

    /// The royalty owed on a sale at the given price. On a record that is
    /// not well formed the amount may pass the price, and is then cut to
    /// its low sixty-four bits.
    pub fn calculate_royalty(&self, sale_price: u64) -> (royalty: u64)
        ensures
            royalty == royalty_amount(sale_price as nat, self.royalty_basis_points as nat) as u64,
            self.wf() ==> royalty == royalty_amount(
                sale_price as nat,
                self.royalty_basis_points as nat,
            ) && royalty <= sale_price,
    {
        proof {
            if self.wf() {
                lemma_royalty_bounds(sale_price as nat, self.royalty_basis_points as nat);
            }
            assert(sale_price as u128 * self.royalty_basis_points as u128 <= 0xffff_ffff_ffff_ffff
                * 0xffff) by (nonlinear_arith)
                requires
                    sale_price <= 0xffff_ffff_ffff_ffff,
                    self.royalty_basis_points <= 0xffff,
            ;
        }
        let wide: u128 = sale_price as u128 * self.royalty_basis_points as u128 / 10000;
        #[verifier::truncate]
        (wide as u64)
    }

    /// An empty record: zero addresses, empty strings, `Common`, not for
    /// sale, no royalty, not verified.
    pub fn new() -> (record: NFTData)
        ensures
            record@ == (NFTDataView {
                mint: Pubkey::zero(),
                owner: Pubkey::zero(),
                name: Seq::empty(),
                symbol: Seq::empty(),
                uri: Seq::empty(),
                anime_title: Seq::empty(),
                rarity: NFTRarity::Common,
                is_for_sale: false,
                price: 0,
                created_at: 0,
                creator: Pubkey::zero(),
                description: Seq::empty(),
                collection_id: None,
                attributes: Seq::empty(),
                royalty_basis_points: 0,
                is_verified: false,
            }),
            record.wf(),
    {
        let record = NFTData {
            mint: Pubkey::default(),
            owner: Pubkey::default(),
            name: String::new(),
            symbol: String::new(),
            uri: String::new(),
            anime_title: String::new(),
            rarity: NFTRarity::Common,
            is_for_sale: false,
            price: 0,
            created_at: 0,
            creator: Pubkey::default(),
            description: String::new(),
            collection_id: None,
            attributes: Vec::new(),
            royalty_basis_points: 0,
            is_verified: false,
        };
        proof {
            assert(attribute_views(record.attributes@) =~= Seq::empty());
        }
        record
    }

    /// A record with the given details: not for sale, price zero, creation
    /// time zero, not verified. It is well formed where the royalty rate is
    /// at most one hundred percent.
    pub fn new_with_details(
        mint: Pubkey,
        owner: Pubkey,
        name: String,
        symbol: String,
        uri: String,
        anime_title: String,
        rarity: NFTRarity,
        creator: Pubkey,
        description: String,
        collection_id: Option<Pubkey>,
        attributes: Vec<NFTAttribute>,
        royalty_basis_points: u16,
    ) -> (record: NFTData)
        ensures
            record@ == (NFTDataView {
                mint: mint,
                owner: owner,
                name: name@,
                symbol: symbol@,
                uri: uri@,
                anime_title: anime_title@,
                rarity: rarity,
                is_for_sale: false,
                price: 0,
                created_at: 0,
                creator: creator,
                description: description@,
                collection_id: collection_id,
                attributes: attribute_views(attributes@),
                royalty_basis_points: royalty_basis_points,
                is_verified: false,
            }),
            record.wf() <==> royalty_basis_points <= MAX_ROYALTY_BASIS_POINTS,
    {
        NFTData {
            mint,
            owner,
            name,
            symbol,
            uri,
            anime_title,
            rarity,
            is_for_sale: false,
            price: 0,
            created_at: 0,
            creator,
            description,
            collection_id,
            attributes,
            royalty_basis_points,
            is_verified: false,
        }
    }
}

} // verus!
