//! The orders in which listings are retrieved.
//!
//! Each order ranks a listing by one column. Listings of equal rank keep the
//! order of insertion, so the lower identifier comes first. A listing without
//! a price ranks below every price: it comes first by ascending price and last
//! by descending price.
use crate::model::ListingView;
use crate::records::Listing;
use crate::text::same_text;
use vstd::prelude::*;

verus! {

/// The order of retrieval that a client may ask for.
#[derive(Clone, Copy, Debug, PartialEq, Eq, Structural)]
pub enum SortOrder {
    /// Lowest price first.
    PriceAsc,
    /// Highest price first.
    PriceDesc,
    /// Most recently created first.
    DateDesc,
    /// Most viewed first.
    ViewsDesc,
}

/// The rank of a price, with an absent price below every price.
pub open spec fn price_rank(price: Option<i64>) -> int {
    match price {
        Some(p) => p as int,
        None => i64::MIN - 1,
    }
}

impl SortOrder {
    /// The order that `name` stands for: `price_asc`, `price_desc` and
    /// `date_desc` name theirs, and every other text names `ViewsDesc`.
    pub open spec fn named(name: Seq<char>) -> SortOrder {
        if name == "price_asc"@ {
            SortOrder::PriceAsc
        } else if name == "price_desc"@ {
            SortOrder::PriceDesc
        } else if name == "date_desc"@ {
            SortOrder::DateDesc
        } else {
            SortOrder::ViewsDesc
        }
    }

    /// Reads the order that a client asked for by name.
    pub fn parse(name: &str) -> (order: SortOrder)
        ensures
            order == SortOrder::named(name@),
    {
        if same_text(name, "price_asc") {
            SortOrder::PriceAsc
        } else if same_text(name, "price_desc") {
            SortOrder::PriceDesc
        } else if same_text(name, "date_desc") {
            SortOrder::DateDesc
        } else {
            SortOrder::ViewsDesc
        }
    }

    /// The rank of a listing in this order: the lower rank is listed first.
    pub open spec fn rank(self, row: ListingView) -> int {
        match self {
            SortOrder::PriceAsc => price_rank(row.price),
            SortOrder::PriceDesc => -price_rank(row.price),
            SortOrder::DateDesc => -(row.created_at as int),
            SortOrder::ViewsDesc => -(row.views as int),
        }
    }

    /// Whether `a` is listed before `b`: by rank, and among equal ranks by
    /// identifier.
    pub open spec fn precedes(self, a: ListingView, b: ListingView) -> bool {
        self.rank(a) < self.rank(b) || (self.rank(a) == self.rank(b) && a.id < b.id)
    }

    /// Whether `listed` holds the rows of `table`, each once, in this order.
    pub open spec fn arranges(self, table: Seq<ListingView>, listed: Seq<ListingView>) -> bool {
        &&& listed.len() == table.len()
        &&& forall|i: int| 0 <= i < table.len() ==> listed.contains(#[trigger] table[i])
        &&& forall|k: int| 0 <= k < listed.len() ==> table.contains(#[trigger] listed[k])
        &&& forall|j: int, k: int|
            0 <= j < k < listed.len() ==> self.precedes(#[trigger] listed[j], #[trigger] listed[k])
    }

    /// Decides whether `a` is listed before `b`.
    pub fn comes_before(self, a: &Listing, b: &Listing) -> (before: bool)
        ensures
            before == self.precedes(a@, b@),
    {
        match self {
            SortOrder::PriceAsc => match (a.price, b.price) {
                (None, None) => a.id < b.id,
                (None, Some(_)) => true,
                (Some(_), None) => false,
                (Some(x), Some(y)) => x < y || (x == y && a.id < b.id),
            },
            SortOrder::PriceDesc => match (a.price, b.price) {
                (None, None) => a.id < b.id,
                (None, Some(_)) => false,
                (Some(_), None) => true,
                (Some(x), Some(y)) => x > y || (x == y && a.id < b.id),
            },
            SortOrder::DateDesc => a.created_at > b.created_at || (a.created_at == b.created_at
                && a.id < b.id),
            SortOrder::ViewsDesc => a.views > b.views || (a.views == b.views && a.id < b.id),
        }
    }
}

/// The positions of `rows` in the order of retrieval: the row at
/// `positions[0]` is listed first.
pub(crate) fn arrangement(rows: &Vec<Listing>, order: SortOrder) -> (positions: Vec<usize>)
    requires
        forall|i: int, j: int| 0 <= i < j < rows.len() ==> rows[i].id < rows[j].id,
    ensures
        positions.len() == rows.len(),
        forall|k: int| 0 <= k < positions.len() ==> (#[trigger] positions[k]) < rows.len(),
        forall|i: usize| i < rows.len() ==> #[trigger] positions@.contains(i),
        forall|j: int, k: int|
            0 <= j < k < positions.len() ==> order.precedes(
                rows[#[trigger] positions[j] as int]@,
                rows[#[trigger] positions[k] as int]@,
            ),
{
    let mut positions: Vec<usize> = Vec::new();
    let ghost mut place: Seq<int> = Seq::empty();
    let mut i: usize = 0;
    while i < rows.len()
        invariant
            i <= rows.len(),
            forall|a: int, b: int| 0 <= a < b < rows.len() ==> rows[a].id < rows[b].id,
            positions.len() == i,
            place.len() == i,
            forall|k: int| 0 <= k < i ==> (#[trigger] positions[k]) < i,
            forall|m: int| 0 <= m < i ==> 0 <= #[trigger] place[m] < i && positions[place[m]] == m,
            forall|j: int, k: int|
                0 <= j < k < i ==> order.precedes(
                    rows[#[trigger] positions[j] as int]@,
                    rows[#[trigger] positions[k] as int]@,
                ),
        decreases rows.len() - i,
    {
        let mut p: usize = 0;
        while p < positions.len() && order.comes_before(&rows[positions[p]], &rows[i])
            invariant
                p <= positions.len(),
                positions.len() == i,
                i < rows.len(),
                forall|k: int| 0 <= k < i ==> (#[trigger] positions[k]) < i,
                forall|k: int|
                    0 <= k < p ==> order.precedes(rows[#[trigger] positions[k] as int]@, rows[i as int]@),
            decreases positions.len() - p,
        {
            p += 1;
        }
        let ghost before = positions@;
        let ghost old_place = place;
        positions.insert(p, i);
        proof {
            place = Seq::new(
                i as nat,
                |m: int|
                    if old_place[m] >= p {
                        old_place[m] + 1
                    } else {
                        old_place[m]
                    },
            ).push(p as int);
            assert forall|j: int, k: int| 0 <= j < k < i + 1 implies order.precedes(
                rows[#[trigger] positions[j] as int]@,
                rows[#[trigger] positions[k] as int]@,
            ) by {
                if k < p {
                    assert(positions[j] == before[j] && positions[k] == before[k]);
                } else if k == p {
                    assert(positions[j] == before[j]);
                } else if j < p {
                    assert(positions[j] == before[j] && positions[k] == before[k - 1]);
                } else if j == p {
                    assert(positions[k] == before[k - 1]);
                    assert(before[p as int] < i);
                    if p < k - 1 {
                        assert(order.precedes(
                            rows[before[p as int] as int]@,
                            rows[before[k - 1] as int]@,
                        ));
                    }
                } else {
                    assert(positions[j] == before[j - 1] && positions[k] == before[k - 1]);
                }
            }
            assert forall|m: int| 0 <= m < i + 1 implies 0 <= #[trigger] place[m] < i + 1
                && positions[place[m]] == m by {
                if m < i {
                    assert(before[old_place[m]] == m);
                }
            }
        }
        i += 1;
    }
    proof {
        assert forall|m: usize| m < rows.len() implies #[trigger] positions@.contains(m) by {
            assert(positions@[place[m as int]] == m);
        }
    }
    positions
}

} // verus!
