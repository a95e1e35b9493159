use optima_ops::inventory::{get_container_status_class, parse_container_status, record_from_line};

#[test]
fn test_parse_container_status() {
    let output = "abc123\tmy-container\tUp 5 hours\t80/tcp";
    let containers = parse_container_status(output);
    assert_eq!(containers.len(), 1);
    assert_eq!(containers[0].name, "my-container");
}

#[test]
fn parse_single_record_with_newline() {
    let containers = parse_container_status("abc123\tmy-container\tUp 5 hours\t80/tcp\n");
    assert_eq!(containers.len(), 1);
    assert_eq!(containers[0].id, "abc123");
    assert_eq!(containers[0].name, "my-container");
    assert_eq!(containers[0].status, "Up 5 hours");
    assert_eq!(containers[0].ports, "80/tcp");
}

#[test]
fn parse_drops_short_lines() {
    let containers = parse_container_status("abc123\tmy-container\n");
    assert!(containers.is_empty());
}

#[test]
fn parse_blank_input_is_empty() {
    assert!(parse_container_status("").is_empty());
    assert!(parse_container_status("   \n\t\n\n").is_empty());
}

#[test]
fn parse_missing_ports_defaults_empty() {
    let containers = parse_container_status("id1\tweb\tExited (0) 2 days ago\n");
    assert_eq!(containers.len(), 1);
    assert_eq!(containers[0].status, "Exited (0) 2 days ago");
    assert_eq!(containers[0].ports, "");
}

#[test]
fn parse_keeps_order_and_skips_bad_rows() {
    let text = "a\tone\tUp\t80/tcp\r\nbad\trow\n\nb\ttwo\tUp 1 hour\t\textra\n";
    let containers = parse_container_status(text);
    assert_eq!(containers.len(), 2);
    assert_eq!(containers[0].id, "a");
    assert_eq!(containers[0].ports, "80/tcp");
    assert_eq!(containers[1].id, "b");
    assert_eq!(containers[1].name, "two");
    assert_eq!(containers[1].ports, "");
}

#[test]
fn container_status_classes() {
    assert_eq!(get_container_status_class("Up 5 hours"), "bg-green-100 text-green-800");
    assert_eq!(get_container_status_class("UP 1 minute"), "bg-green-100 text-green-800");
    assert_eq!(get_container_status_class("Exited (1) 3 hours ago"), "bg-red-100 text-red-800");
    assert_eq!(get_container_status_class("Dead"), "bg-red-100 text-red-800");
    assert_eq!(get_container_status_class("Restarting (1)"), "bg-yellow-100 text-yellow-800");
    assert_eq!(get_container_status_class("Created"), "bg-gray-100 text-gray-800");
}

#[test]
fn record_from_line_respects_blank_flag() {
    let r = record_from_line("abc123\tmy-container\tUp 5 hours\t80/tcp", false).unwrap();
    assert_eq!(r.id, "abc123");
    assert_eq!(r.ports, "80/tcp");
    assert!(record_from_line("abc123\tmy-container\tUp 5 hours", true).is_none());
    assert!(record_from_line("only\ttwo", false).is_none());
}
