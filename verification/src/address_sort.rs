//! Sorting nodes by socket address, as a socket address orders: IPv4
//! before IPv6, then by address, port and scope. The order key of each
//! node's address is handed in as integers.
use vstd::prelude::*;

use crate::models::hub::{Node, NodeView};

verus! {

/// The order key of a socket address: its family (0 for IPv4, 1 for
/// IPv6), its address as an integer, its port, and its IPv6 scope id (0
/// for IPv4).
pub type AddressKey = (u8, u128, u16, u32);

/// Whether key `a` comes before key `b`: compared field by field, in order.
pub open spec fn key_before(a: AddressKey, b: AddressKey) -> bool {
    a.0 < b.0 || (a.0 == b.0 && (a.1 < b.1 || (a.1 == b.1 && (a.2 < b.2 || (a.2 == b.2 && a.3
        < b.3)))))
}

/// Whether entry `i` comes before entry `j` in the sorted list: a smaller
/// key first, entries with equal keys in their given order, and entries
/// without a key (an address that is none) after all others, in their given
/// order.
pub open spec fn placed_before(keys: Seq<Option<AddressKey>>, i: int, j: int) -> bool {
    match (keys[i], keys[j]) {
        (Some(a), Some(b)) => key_before(a, b) || (a == b && i < j),
        (Some(_), None) => true,
        (None, Some(_)) => false,
        (None, None) => i < j,
    }
}

/// Whether `order` lists the index `j`.
pub open spec fn index_listed(order: Seq<usize>, j: int) -> bool {
    exists|k: int| 0 <= k < order.len() && #[trigger] order[k] == j
}

/// Whether `order` lists every index of `keys` once, in sorted order.
pub open spec fn is_address_order(keys: Seq<Option<AddressKey>>, order: Seq<usize>) -> bool {
    &&& order.len() == keys.len()
    &&& forall|k: int| 0 <= k < order.len() ==> #[trigger] order[k] < keys.len()
    &&& forall|j: int| 0 <= j < keys.len() ==> #[trigger] index_listed(order, j)
    &&& forall|k: int, l: int|
        0 <= k < l < order.len() ==> placed_before(keys, #[trigger] order[k] as int, #[trigger] order[l] as int)
}

proof fn lemma_placed_before_total(keys: Seq<Option<AddressKey>>, i: int, j: int)
    requires
        i != j,
    ensures
        placed_before(keys, i, j) || placed_before(keys, j, i),
        !(placed_before(keys, i, j) && placed_before(keys, j, i)),
{
}

proof fn lemma_placed_before_transitive(keys: Seq<Option<AddressKey>>, i: int, j: int, k: int)
    requires
        placed_before(keys, i, j),
        placed_before(keys, j, k),
    ensures
        placed_before(keys, i, k),
{
}

proof fn lemma_orders_agree_at(
    keys: Seq<Option<AddressKey>>,
    o1: Seq<usize>,
    o2: Seq<usize>,
    k: int,
)
    requires
        is_address_order(keys, o1),
        is_address_order(keys, o2),
        0 <= k < o1.len(),
    ensures
        o1[k] == o2[k],
    decreases k,
{
    if o1[k] != o2[k] {
        let a = o1[k];
        let b = o2[k];
        assert(index_listed(o1, b as int));
        let p = choose|p: int| 0 <= p < o1.len() && #[trigger] o1[p] == b as int;
        assert(index_listed(o2, a as int));
        let q = choose|q: int| 0 <= q < o2.len() && #[trigger] o2[q] == a as int;
        if p < k {
            lemma_orders_agree_at(keys, o1, o2, p);
            assert(placed_before(keys, o2[p] as int, o2[k] as int));
        } else if q < k {
            lemma_orders_agree_at(keys, o1, o2, q);
            assert(placed_before(keys, o1[q] as int, o1[k] as int));
        } else {
            assert(placed_before(keys, o1[k] as int, o1[p] as int));
            assert(placed_before(keys, o2[k] as int, o2[q] as int));
            lemma_placed_before_total(keys, a as int, b as int);
        }
    }
}

/// A list of keys has one sorted order only: two orders that both list
/// every index once in sorted order are the same, so sorting by address
/// gives one result.
pub proof fn lemma_address_order_unique(
    keys: Seq<Option<AddressKey>>,
    o1: Seq<usize>,
    o2: Seq<usize>,
)
    requires
        is_address_order(keys, o1),
        is_address_order(keys, o2),
    ensures
        o1 == o2,
{
    assert forall|k: int| 0 <= k < o1.len() implies o1[k] == o2[k] by {
        lemma_orders_agree_at(keys, o1, o2, k);
    }
    assert(o1 =~= o2);
}

fn key_before_exec(a: AddressKey, b: AddressKey) -> (r: bool)
    ensures
        r == key_before(a, b),
{
    a.0 < b.0 || (a.0 == b.0 && (a.1 < b.1 || (a.1 == b.1 && (a.2 < b.2 || (a.2 == b.2 && a.3
        < b.3)))))
}

fn entry_before(keys: &Vec<Option<AddressKey>>, i: usize, j: usize) -> (r: bool)
    requires
        i < keys@.len(),
        j < keys@.len(),
    ensures
        r == placed_before(keys@, i as int, j as int),
{
    match (keys[i], keys[j]) {
        (Some(a), Some(b)) => key_before_exec(a, b) || (a.0 == b.0 && a.1 == b.1 && a.2 == b.2
            && a.3 == b.3 && i < j),
        (Some(_), None) => true,
        (None, Some(_)) => false,
        (None, None) => i < j,
    }
}

/// Returns the indices of `keys` in sorted order (see
/// [`is_address_order`]).
pub fn address_order(keys: &Vec<Option<AddressKey>>) -> (r: Vec<usize>)
    ensures
        is_address_order(keys@, r@),
{
    let ghost ks = keys@;
    let mut order: Vec<usize> = Vec::new();
    let mut i: usize = 0;
    while i < keys.len()
        invariant
            ks == keys@,
            i <= ks.len(),
            order@.len() == i,
            forall|k: int| 0 <= k < order@.len() ==> #[trigger] order@[k] < i,
            forall|j: int| 0 <= j < i ==> #[trigger] index_listed(order@, j),
            forall|k: int, l: int|
                0 <= k < l < order@.len() ==> placed_before(ks, #[trigger] order@[k] as int, #[trigger] order@[l] as int),
        decreases ks.len() - i,
    {
        let mut pos: usize = 0;
        while pos < order.len() && !entry_before(keys, i, order[pos])
            invariant
                ks == keys@,
                i < ks.len(),
                pos <= order@.len(),
                forall|k: int| 0 <= k < order@.len() ==> #[trigger] order@[k] < i,
                forall|k: int| 0 <= k < pos ==> !placed_before(ks, i as int, #[trigger] order@[k] as int),
            decreases order@.len() - pos,
        {
            pos = pos + 1;
        }
        let ghost old_order = order@;
        order.insert(pos, i);
        proof {
            assert(order@ == old_order.insert(pos as int, i));
            assert forall|k: int| 0 <= k < order@.len() implies #[trigger] order@[k] < i + 1 by {
                if k < pos {
                    assert(order@[k] == old_order[k]);
                } else if k > pos {
                    assert(order@[k] == old_order[k - 1]);
                }
            }
            assert forall|j: int| 0 <= j < i + 1 implies #[trigger] index_listed(order@, j) by {
                if j == i {
                    assert(order@[pos as int] == j);
                } else {
                    assert(index_listed(old_order, j));
                    let k0 = choose|k: int| 0 <= k < old_order.len() && #[trigger] old_order[k] == j;
                    if k0 < pos {
                        assert(order@[k0] == j);
                    } else {
                        assert(order@[k0 + 1] == j);
                    }
                }
            }
            assert forall|k: int, l: int| 0 <= k < l < order@.len() implies placed_before(
                ks,
                #[trigger] order@[k] as int,
                #[trigger] order@[l] as int,
            ) by {
                if k < pos && l < pos {
                    assert(order@[k] == old_order[k] && order@[l] == old_order[l]);
                } else if k < pos && l == pos {
                    assert(order@[k] == old_order[k]);
                    assert(old_order[k] < i);
                    lemma_placed_before_total(ks, i as int, old_order[k] as int);
                } else if k < pos && l > pos {
                    assert(order@[k] == old_order[k] && order@[l] == old_order[l - 1]);
                    if k < l - 1 {
                    }
                } else if k == pos {
                    assert(order@[l] == old_order[l - 1]);
                    assert(pos < old_order.len());
                    assert(placed_before(ks, i as int, old_order[pos as int] as int));
                    if l - 1 > pos {
                        assert(placed_before(ks, old_order[pos as int] as int, old_order[l - 1] as int));
                        lemma_placed_before_transitive(
                            ks,
                            i as int,
                            old_order[pos as int] as int,
                            old_order[l - 1] as int,
                        );
                    }
                } else {
                    assert(order@[k] == old_order[k - 1] && order@[l] == old_order[l - 1]);
                }
            }
        }
        i = i + 1;
    }
    order
}

/// The nodes of a sorted list: `nodes` taken in the order `order`.
pub open spec fn nodes_in_order(nodes: Seq<NodeView>, order: Seq<usize>) -> Seq<NodeView> {
    order.map_values(|k: usize| nodes[k as int])
}

/// Returns `nodes` sorted by address, `keys[i]` being the order key of the
/// address of `nodes[i]` (`None` for an address that is none): by key,
/// nodes with equal keys in their given order, nodes without a key last.
pub fn sort_nodes_by_address(nodes: &Vec<Node>, keys: &Vec<Option<AddressKey>>) -> (r: Vec<Node>)
    requires
        keys@.len() == nodes@.len(),
    ensures
        exists|order: Seq<usize>|
            is_address_order(keys@, order) && crate::models::hub::node_list_view(r@)
                == nodes_in_order(crate::models::hub::node_list_view(nodes@), order),
{
    let order = address_order(keys);
    let ghost nv = crate::models::hub::node_list_view(nodes@);
    let mut r: Vec<Node> = Vec::new();
    let mut k: usize = 0;
    while k < order.len()
        invariant
            k <= order@.len(),
            is_address_order(keys@, order@),
            keys@.len() == nodes@.len(),
            nv == crate::models::hub::node_list_view(nodes@),
            crate::models::hub::node_list_view(r@) == nodes_in_order(nv, order@.take(k as int)),
        decreases order@.len() - k,
    {
        let idx = order[k];
        let n = nodes[idx].clone();
        let ghost before = crate::models::hub::node_list_view(r@);
        r.push(n);
        proof {
            assert(crate::models::hub::node_list_view(r@) =~= before.push(nv[idx as int]));
            assert(order@.take(k + 1) =~= order@.take(k as int).push(idx));
            assert(nodes_in_order(nv, order@.take(k + 1)) =~= nodes_in_order(
                nv,
                order@.take(k as int),
            ).push(nv[idx as int]));
        }
        k = k + 1;
    }
    assert(order@.take(order@.len() as int) =~= order@);
    r
}

} // verus!
