use proc_sys_parser::net_dev::{InterfaceStats, ProcNetDev};
use proc_sys_parser::ProcSysParserError;

#[test]
fn parse_proc_netdev_valid_line() {
    let netdev_line = "  eth0: 151012532   16720    0    0    0     0          0         0   816228   12257    0    0    0     0       0          0";
    let result = ProcNetDev::parse_proc_net_dev_line(&netdev_line).unwrap();
    assert_eq!(result, InterfaceStats {
        name: "eth0".to_string(), receive_bytes: 151012532, receive_packets: 16720, receive_errors: 0, receive_drop: 0, receive_fifo: 0, receive_frame: 0, receive_compressed: 0, receive_multicast: 0, transmit_bytes: 816228, transmit_packets: 12257, transmit_errors: 0, transmit_drop: 0, transmit_fifo: 0, transmit_collisions: 0, transmit_carrier: 0, transmit_compressed: 0 }
    );
}

#[test]
fn parse_proc_netdev_invalid_line() {
    let netdev_line = "Inter-|   Receive                                                |  Transmit";
    let result = ProcNetDev::parse_proc_net_dev(&netdev_line, "").unwrap();
    assert_eq!(result, ProcNetDev { interface: vec![] });
}

#[test]
fn parse_full_proc_net_dev_file() {
    let proc_netdev = "Inter-|   Receive                                                |  Transmit
 face |bytes    packets errs drop fifo frame compressed multicast|bytes    packets errs drop fifo colls carrier compressed
lo:       0       0    0    0    0     0          0         0        0       0    0    0    0     0       0          0
  eth0: 151013652   16736    0    0    0     0          0         0   816228   12257    0    0    0     0       0          0";
    let result = ProcNetDev::parse_proc_net_dev(proc_netdev, "").unwrap();
    assert_eq!(result, ProcNetDev { interface:
    vec![InterfaceStats { name: "lo".to_string(), receive_bytes: 0, receive_packets: 0, receive_errors: 0, receive_drop: 0, receive_fifo: 0, receive_frame: 0, receive_compressed: 0, receive_multicast: 0, transmit_bytes: 0, transmit_packets: 0, transmit_errors: 0, transmit_drop: 0, transmit_fifo: 0, transmit_collisions: 0, transmit_carrier: 0, transmit_compressed: 0 },
         InterfaceStats { name: "eth0".to_string(), receive_bytes: 151013652, receive_packets: 16736, receive_errors: 0, receive_drop: 0, receive_fifo: 0, receive_frame: 0, receive_compressed: 0, receive_multicast: 0, transmit_bytes: 816228, transmit_packets: 12257, transmit_errors: 0, transmit_drop: 0, transmit_fifo: 0, transmit_collisions: 0, transmit_carrier: 0, transmit_compressed: 0 }
    ] } );
}

#[test]
fn filter_leaves_out_matching_interfaces() {
    let proc_netdev = "    lo:       0       0    0    0    0     0          0         0        0       0    0    0    0     0       0          0
  eth0: 1   2    0    0    0     0          0         0   3   4    0    0    0     0       0          0";
    let result = ProcNetDev::parse_proc_net_dev(proc_netdev, "^lo").unwrap();
    assert_eq!(result.interface.len(), 1);
    assert_eq!(result.interface[0].name, "eth0");
}

#[test]
fn invalid_filter_is_a_regex_error() {
    let result = ProcNetDev::parse_proc_net_dev("  eth0: 1 2 0 0 0 0 0 0 3 4 0 0 0 0 0 0", "((");
    assert!(matches!(result, Err(ProcSysParserError::RegexCompileError { .. })));
}

#[test]
fn short_interface_line_is_a_missing_item_error() {
    let result = ProcNetDev::parse_proc_net_dev_line("  eth0: 1 2 3");
    assert!(matches!(result, Err(ProcSysParserError::IteratorItemError { .. })));
}
