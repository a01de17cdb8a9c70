use secmon::address_sort::{address_order, sort_nodes_by_address};
use secmon::models::hub::Node;
use secmon::models::node::{NodeDataError, Timestamp};

fn node(serial: u32, address: &str) -> Node {
    Node {
        serial,
        address: address.to_string(),
        hostname: format!("n{serial}"),
        sessions: Err(NodeDataError::NotMonitored),
        wg_peers: Err(NodeDataError::NotMonitored),
        last_state_update: Timestamp::epoch(),
        connected: true,
    }
}

#[test]
fn keys_order_by_family_address_port_then_given_order() {
    let keys = vec![
        Some((1, 1, 80, 0)),
        Some((0, 10, 22, 0)),
        None,
        Some((0, 10, 21, 0)),
        Some((0, 2, 9000, 0)),
        Some((0, 10, 21, 0)),
        None,
    ];
    assert_eq!(address_order(&keys), vec![4, 3, 5, 1, 0, 2, 6]);
    assert_eq!(address_order(&vec![]), Vec::<usize>::new());
}

#[test]
fn nodes_are_sorted_by_their_keys() {
    let nodes = vec![node(1, "10.0.0.2:5000"), node(2, "10.0.0.1:6000"), node(3, "[::1]:1")];
    let keys = vec![Some((0, 0x0a000002, 5000, 0)), Some((0, 0x0a000001, 6000, 0)), Some((1, 1, 1, 0))];
    let sorted = sort_nodes_by_address(&nodes, &keys);
    let serials: Vec<u32> = sorted.iter().map(|n| n.serial).collect();
    assert_eq!(serials, vec![2, 1, 3]);
    assert_eq!(sorted[0].address, "10.0.0.1:6000");
}
