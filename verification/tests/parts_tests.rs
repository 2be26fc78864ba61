use proc_sys_parser::block::{BlockDevice, SysBlock};
use proc_sys_parser::loadavg::LoadavgFields;
use proc_sys_parser::pressure::PressureLine;
use proc_sys_parser::ProcSysParserError;

#[test]
fn parse_loadavg_fields() {
    let fields = LoadavgFields::parse_proc_loadavg_fields("0.05 0.19 0.13 1/161 7\n").unwrap();
    assert_eq!(fields.load_1, "0.05");
    assert_eq!(fields.load_5, "0.19");
    assert_eq!(fields.load_15, "0.13");
    assert_eq!(fields.current_runnable, 1);
    assert_eq!(fields.total, 161);
    assert_eq!(fields.last_pid, 7);
}

#[test]
fn short_loadavg_is_a_missing_item_error() {
    let result = LoadavgFields::parse_proc_loadavg_fields("0.05 0.19\n");
    assert!(matches!(result, Err(ProcSysParserError::IteratorItemError { .. })));
}

#[test]
fn bad_loadavg_pair_is_an_integer_error() {
    let result = LoadavgFields::parse_proc_loadavg_fields("0.05 0.19 0.13 x/161 7\n");
    assert!(matches!(result, Err(ProcSysParserError::ParseToIntegerError { .. })));
}

#[test]
fn parse_pressure_some_line() {
    let line = PressureLine::parse_pressure_line("some avg10=0.00 avg60=1.50 avg300=2.75 total=373300065").unwrap();
    assert_eq!(line.kind, "some");
    assert_eq!(line.avg10, "0.00");
    assert_eq!(line.avg60, "1.50");
    assert_eq!(line.avg300, "2.75");
    assert_eq!(line.total, 373300065);
}

#[test]
fn short_pressure_line_is_a_missing_item_error() {
    let result = PressureLine::parse_pressure_line("some avg10=0.00");
    assert!(matches!(result, Err(ProcSysParserError::IteratorItemError { .. })));
}

#[test]
fn non_numeric_pressure_total_is_an_integer_error() {
    let result = PressureLine::parse_pressure_line("some avg10=0.00 avg60=0.00 avg300=0.00 total=x");
    assert!(matches!(result, Err(ProcSysParserError::ParseToIntegerError { .. })));
}

#[test]
fn parse_block_dev_file() {
    let mut bd = BlockDevice::new();
    SysBlock::parse_dev(&mut bd, "253:0\n").unwrap();
    assert_eq!(bd.dev_block_major, 253);
    assert_eq!(bd.dev_block_minor, 0);
}

#[test]
fn parse_block_inflight_file() {
    let mut bd = BlockDevice::new();
    SysBlock::parse_inflight(&mut bd, "       1        2\n").unwrap();
    assert_eq!(bd.inflight_reads, 1);
    assert_eq!(bd.inflight_writes, 2);
}

#[test]
fn parse_block_scheduler_file() {
    let mut bd = BlockDevice::new();
    SysBlock::parse_queue_scheduler(&mut bd, "[none] mq-deadline\n").unwrap();
    assert_eq!(bd.queue_scheduler, "none");
    SysBlock::parse_queue_scheduler(&mut bd, "none\n").unwrap();
    assert_eq!(bd.queue_scheduler, "?");
}

#[test]
fn parse_block_stat_file() {
    let mut bd = BlockDevice::new();
    SysBlock::parse_stat(&mut bd, "9718 3826 1052371 3026 2856 2331 312397 1947 0 6004 5554 7141 0 88014755 276 591 304\n")
        .unwrap();
    assert_eq!(bd.stat_reads_completed_success, 9718);
    assert_eq!(bd.stat_reads_merged, 3826);
    assert_eq!(bd.stat_reads_sectors, 1052371);
    assert_eq!(bd.stat_ios_weighted_time_spent_ms, 5554);
    assert_eq!(bd.stat_discards_completed_success, Some(7141));
    assert_eq!(bd.stat_flush_requests_time_spent_ms, Some(304));
}

#[test]
fn parse_block_short_stat_file_has_absent_trailing_counters() {
    let mut bd = BlockDevice::new();
    SysBlock::parse_stat(&mut bd, "9718 3826 1052371 3026 2856 2331 312397 1947 0 6004 5554\n").unwrap();
    assert_eq!(bd.stat_discards_completed_success, None);
    assert_eq!(bd.stat_flush_requests_time_spent_ms, None);
}

#[test]
fn parse_block_value_files() {
    assert_eq!(SysBlock::parse_contents_file_u64("512\n").unwrap(), 512);
    assert_eq!(SysBlock::parse_contents_file_i64("-1\n").unwrap(), -1);
    assert_eq!(SysBlock::parse_contents_file_option_u64(Some("9\n")).unwrap(), Some(9));
    assert_eq!(SysBlock::parse_contents_file_option_u64(None).unwrap(), None);
    assert_eq!(SysBlock::parse_contents_file_string("write back\n").unwrap(), "write back");
    assert_eq!(
        SysBlock::parse_contents_file_option_string(Some("none\n")).unwrap(),
        Some("none".to_string())
    );
}

#[test]
fn error_message_carries_its_item() {
    let e = ProcSysParserError::IteratorItemError { item: "loadavg total".to_string() };
    assert_eq!(e.message(), "loadavg total");
}
