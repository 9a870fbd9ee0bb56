use oryxis_app::dash_sort::{dash_card_body, empty_board, sampled_via, CardBody, WaitReason};
use oryxis_app::dash_sort::{dash_dot, dash_row_order, sort_marker, DashLink, DashSortKey, DotTone};
use oryxis_app::grid::chunk_rows;
use oryxis_app::monitor::{dash_hosts, dash_via_prefixed, find_conn};
use oryxis_app::state::{Connection, ConnectionProtocol};

fn conn(id: u128, label: &str, tags: &[&str]) -> Connection {
    Connection {
        id,
        label: label.to_string(),
        hostname: String::new(),
        protocol: ConnectionProtocol::Ssh,
        mac_address: None,
        cloud_ref: None,
        sftp_initial_path: None,
        tags: tags.iter().map(|t| t.to_string()).collect(),
        identity_id: None,
    }
}

#[test]
fn metric_sort_is_stable_with_missing_readings_last() {
    // Rows arrive label-sorted; keys tie between rows 0 and 2.
    let ranks = vec![Some(50), None, Some(50), Some(10), None];
    assert_eq!(dash_row_order(&ranks, DashSortKey::Cpu, true), vec![3, 0, 2, 1, 4]);
    // Descending flips the readings; hosts without a reading stay last.
    assert_eq!(dash_row_order(&ranks, DashSortKey::Cpu, false), vec![2, 0, 3, 4, 1]);
}

#[test]
fn label_sort_keeps_the_incoming_order() {
    let ranks = vec![Some(3), Some(1), None];
    assert_eq!(dash_row_order(&ranks, DashSortKey::Label, true), vec![0, 1, 2]);
    assert_eq!(dash_row_order(&ranks, DashSortKey::Label, false), vec![2, 1, 0]);
    assert!(dash_row_order(&Vec::new(), DashSortKey::Disk, true).is_empty());
    assert_eq!(dash_row_order(&vec![Some(-4), Some(i64::MIN)], DashSortKey::Uptime, true), vec![1, 0]);
}

#[test]
fn sort_marker_and_status_dot() {
    assert_eq!(sort_marker(false, true), "");
    assert_eq!(sort_marker(true, true), " \u{25b4}");
    assert_eq!(sort_marker(true, false), " \u{25be}");
    assert_eq!(dash_dot(true, Some(DashLink::Live)), DotTone::Muted);
    assert_eq!(dash_dot(false, Some(DashLink::Live)), DotTone::Success);
    assert_eq!(dash_dot(false, Some(DashLink::Connecting)), DotTone::Warning);
    assert_eq!(dash_dot(false, None), DotTone::Warning);
    assert_eq!(dash_dot(false, Some(DashLink::Failed)), DotTone::Error);
}

#[test]
fn dashboard_lens_filters_the_fleet() {
    let conns = vec![conn(1, "Web-1", &["prod"]), conn(2, "db", &["prod", "eu"]), conn(3, "web-2", &["lab"])];
    let fleet = vec![3, 1, 2, 99];
    assert_eq!(dash_hosts(&conns, &fleet, "  WEB ", &Vec::new()), vec![3, 1]);
    assert_eq!(dash_hosts(&conns, &fleet, "", &vec!["prod".to_string()]), vec![1, 2]);
    assert_eq!(dash_hosts(&conns, &fleet, "web", &vec!["eu".to_string()]), Vec::<u128>::new());
    // Both lenses empty: every saved host of the fleet, in fleet order.
    assert_eq!(dash_hosts(&conns, &fleet, " \t", &Vec::new()), vec![3, 1, 2]);
    assert_eq!(find_conn(&conns, 2), Some(1));
    assert_eq!(find_conn(&conns, 7), None);
}

#[test]
fn vitals_errors_name_the_host_that_fetched_them() {
    let conns = vec![conn(1, "bastion", &[]), conn(2, "db", &[])];
    assert_eq!(dash_via_prefixed(&conns, 2, 2, "timeout"), "timeout");
    assert_eq!(dash_via_prefixed(&conns, 1, 2, "timeout"), "bastion: timeout");
    assert_eq!(dash_via_prefixed(&conns, 9, 2, "timeout"), "timeout");
}

#[test]
fn card_grid_rows_partition_the_items() {
    let items = vec![1, 2, 3, 4, 5];
    let rows = chunk_rows(&items, 2);
    assert_eq!(rows, vec![vec![1, 2], vec![3, 4], vec![5]]);
    assert_eq!(rows.concat(), items);
    assert_eq!(chunk_rows(&items, 0), vec![vec![1], vec![2], vec![3], vec![4], vec![5]]);
    assert_eq!(chunk_rows(&items, 9), vec![items.clone()]);
    assert!(chunk_rows(&Vec::<u8>::new(), 3).is_empty());
}

#[test]
fn dashboard_cards_and_empty_board() {
    assert_eq!(dash_card_body(true, Some(DashLink::Failed), true), CardBody::LinkError);
    assert_eq!(dash_card_body(true, Some(DashLink::Live), true), CardBody::Vitals);
    assert_eq!(dash_card_body(true, Some(DashLink::Live), false), CardBody::Waiting(WaitReason::Paused));
    assert_eq!(dash_card_body(false, Some(DashLink::Live), false), CardBody::Waiting(WaitReason::Sampling));
    assert_eq!(dash_card_body(false, None, false), CardBody::Waiting(WaitReason::Connecting));
    assert_eq!(empty_board(true, true), ("monitor_dash_empty_live", "monitor_dash_empty_live_hint"));
    assert_eq!(empty_board(true, false), ("monitor_dash_empty", "monitor_dash_empty_hint"));
    let conns = vec![conn(1, "bastion", &[]), conn(2, "db", &[])];
    assert_eq!(sampled_via(&conns, Some(1), 2), Some("bastion".to_string()));
    assert_eq!(sampled_via(&conns, Some(2), 2), None);
    assert_eq!(sampled_via(&conns, Some(5), 2), Some(String::new()));
    assert_eq!(sampled_via(&conns, None, 2), None);
}
