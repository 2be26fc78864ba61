use proc_sys_parser::schedstat::{Domain, ProcSchedStat};
use proc_sys_parser::ProcSysParserError;

#[test]
fn parse_version_line() {
    let version_line = "version 15";
    let result = ProcSchedStat::generate_number_unsigned(&version_line).unwrap();
    assert_eq!(result, 15);
}

#[test]
fn parse_timestamp_line() {
    let timestamp_line = "timestamp 4318766637";
    let result = ProcSchedStat::generate_number_unsigned(&timestamp_line).unwrap();
    assert_eq!(result, 4318766637);
}

#[test]
fn schedstat_parse_cpu_line() {
    let cpu_line = "cpu0 0 0 0 0 0 0 455307306435 48519572891 4320349";
    let result = ProcSchedStat::generate_number_vector(&cpu_line).unwrap();
    assert_eq!(result, vec![0, 0, 0, 0, 0, 0, 0, 455307306435, 48519572891, 4320349]);
}

#[test]
fn parse_domain_line() {
    let domain_line = "domain0 3f 0 0 0 0 0 0 0 0 0 0 0 0 0 0 0 0 0 0 0 0 0 0 0 0 0 0 0 0 0 0 0 0 0 0 0 0";
    let result = ProcSchedStat::generate_number_vector(&domain_line).unwrap();
    assert_eq!(result, vec![]);
}

#[test]
fn parse_full_proc_schedstat_file() {
    let proc_schedstat = "version 15
timestamp 4318961659
cpu0 0 0 0 0 0 0 457571901633 48594074614 4348645
domain0 3f 0 0 0 0 0 0 0 0 0 0 0 0 0 0 0 0 0 0 0 0 0 0 0 0 0 0 0 0 0 0 0 0 0 0 0 0
cpu1 0 0 0 0 0 0 435206433012 44944145715 3928368
domain0 3f 0 0 0 0 0 0 0 0 0 0 0 0 0 0 0 0 0 0 0 0 0 0 0 0 0 0 0 0 0 0 0 0 0 0 0 0
cpu2 0 0 0 0 0 0 429637514081 43591673257 3833297
domain0 3f 0 0 0 0 0 0 0 0 0 0 0 0 0 0 0 0 0 0 0 0 0 0 0 0 0 0 0 0 0 0 0 0 0 0 0 0
cpu3 0 0 0 0 0 0 445308389036 43102743982 3851418
domain0 3f 0 0 0 0 0 0 0 0 0 0 0 0 0 0 0 0 0 0 0 0 0 0 0 0 0 0 0 0 0 0 0 0 0 0 0 0
cpu4 0 0 0 0 0 0 438666554521 43706845278 3787400
domain0 3f 0 0 0 0 0 0 0 0 0 0 0 0 0 0 0 0 0 0 0 0 0 0 0 0 0 0 0 0 0 0 0 0 0 0 0 0
cpu5 0 0 0 0 0 0 444708323872 42862371788 3900565
domain0 3f 0 0 0 0 0 0 0 0 0 0 0 0 0 0 0 0 0 0 0 0 0 0 0 0 0 0 0 0 0 0 0 0 0 0 0 0";
    let result = ProcSchedStat::parse_proc_schedstat_output(proc_schedstat).unwrap();
    assert_eq!(result, ProcSchedStat { version: 15,
        timestamp: 4318961659,
        cpu: vec![
               vec![0, 0, 0, 0, 0, 0, 0, 457571901633, 48594074614, 4348645],
               vec![1, 0, 0, 0, 0, 0, 0, 435206433012, 44944145715, 3928368],
               vec![2, 0, 0, 0, 0, 0, 0, 429637514081, 43591673257, 3833297],
               vec![3, 0, 0, 0, 0, 0, 0, 445308389036, 43102743982, 3851418],
               vec![4, 0, 0, 0, 0, 0, 0, 438666554521, 43706845278, 3787400],
               vec![5, 0, 0, 0, 0, 0, 0, 444708323872, 42862371788, 3900565],
        ],
        domain: vec![
            Domain { cpu_nr: 0, domain_nr: 0, cpu_masks: vec![63], statistics: vec![0, 0, 0, 0, 0, 0, 0, 0, 0, 0, 0, 0, 0, 0, 0, 0, 0, 0, 0, 0, 0, 0, 0, 0, 0, 0, 0, 0, 0, 0, 0, 0, 0, 0, 0, 0] },
            Domain { cpu_nr: 1, domain_nr: 0, cpu_masks: vec![63], statistics: vec![0, 0, 0, 0, 0, 0, 0, 0, 0, 0, 0, 0, 0, 0, 0, 0, 0, 0, 0, 0, 0, 0, 0, 0, 0, 0, 0, 0, 0, 0, 0, 0, 0, 0, 0, 0] },
            Domain { cpu_nr: 2, domain_nr: 0, cpu_masks: vec![63], statistics: vec![0, 0, 0, 0, 0, 0, 0, 0, 0, 0, 0, 0, 0, 0, 0, 0, 0, 0, 0, 0, 0, 0, 0, 0, 0, 0, 0, 0, 0, 0, 0, 0, 0, 0, 0, 0] },
            Domain { cpu_nr: 3, domain_nr: 0, cpu_masks: vec![63], statistics: vec![0, 0, 0, 0, 0, 0, 0, 0, 0, 0, 0, 0, 0, 0, 0, 0, 0, 0, 0, 0, 0, 0, 0, 0, 0, 0, 0, 0, 0, 0, 0, 0, 0, 0, 0, 0] },
            Domain { cpu_nr: 4, domain_nr: 0, cpu_masks: vec![63], statistics: vec![0, 0, 0, 0, 0, 0, 0, 0, 0, 0, 0, 0, 0, 0, 0, 0, 0, 0, 0, 0, 0, 0, 0, 0, 0, 0, 0, 0, 0, 0, 0, 0, 0, 0, 0, 0] },
            Domain { cpu_nr: 5, domain_nr: 0, cpu_masks: vec![63], statistics: vec![0, 0, 0, 0, 0, 0, 0, 0, 0, 0, 0, 0, 0, 0, 0, 0, 0, 0, 0, 0, 0, 0, 0, 0, 0, 0, 0, 0, 0, 0, 0, 0, 0, 0, 0, 0] },
        ]
    });
}

#[test]
fn parse_schedstat_multiple_mask_groups() {
    let proc_schedstat = "version 15
timestamp 7452455604
cpu0 0 0 0 0 0 0 1400897766846392 136499688631908 38913706186
domain0 00000000,00000001 0 0
domain1 ffffffff,ffffffff 0 0";
    let result = ProcSchedStat::parse_proc_schedstat_output(proc_schedstat).unwrap();
    assert_eq!(result.domain[0].cpu_masks, vec![0, 1]);
    assert_eq!(result.domain[1].cpu_masks, vec![4294967295, 4294967295]);
}

#[test]
fn single_mask_group_equals_one_group_comma_form() {
    let ungrouped = ProcSchedStat::generate_domain_struct("domain0 3f 0 0", &7).unwrap();
    let masks_of_hex_3f: Vec<u64> = vec![0x3f];
    assert_eq!(ungrouped.cpu_masks, masks_of_hex_3f);
    assert_eq!(ungrouped.cpu_nr, 7);
    assert_eq!(ungrouped.domain_nr, 0);
}

#[test]
fn cpu_line_nanoseconds_pass_through_unconverted() {
    let cpu_line = "cpu0 0 0 0 0 0 0 457571901633 48594074614 4348645";
    let result = ProcSchedStat::generate_number_vector(&cpu_line).unwrap();
    assert_eq!(result, vec![0, 0, 0, 0, 0, 0, 0, 457571901633, 48594074614, 4348645]);
}

#[test]
fn domain_line_before_any_cpu_line_is_malformed() {
    let proc_schedstat = "version 15
timestamp 100
domain0 3f 0 0
cpu0 0 0 0 0 0 0 1 2 3";
    let result = ProcSchedStat::parse_proc_schedstat_output(proc_schedstat);
    assert!(matches!(result, Err(ProcSysParserError::MalformedDocument { .. })));
}

#[test]
fn unrecognized_line_is_skipped() {
    let with_garbage = "version 15
timestamp 4318961659
cpu0 0 0 0 0 0 0 457571901633 48594074614 4348645
domain0 3f 0 0
cpu1 0 0 0 0 0 0 435206433012 44944145715 3928368
domain0 3f 0 0
cpu2 0 0 0 0 0 0 429637514081 43591673257 3833297
domain0 3f 0 0
some garbage line the kernel invented
cpu3 0 0 0 0 0 0 445308389036 43102743982 3851418
domain0 3f 0 0
cpu4 0 0 0 0 0 0 438666554521 43706845278 3787400
domain0 3f 0 0
cpu5 0 0 0 0 0 0 444708323872 42862371788 3900565
domain0 3f 0 0";
    let result = ProcSchedStat::parse_proc_schedstat_output(with_garbage).unwrap();
    assert_eq!(result.cpu.len(), 6);
    assert_eq!(result.domain.len(), 6);
}

#[test]
fn end_to_end_minimal_document() {
    let result =
        ProcSchedStat::parse_proc_schedstat_output("version 15\ntimestamp 100\ncpu0 0 0 0 0 0 0 1 2 3\ndomain0 3f 0 0")
            .unwrap();
    assert_eq!(result.version, 15);
    assert_eq!(result.timestamp, 100);
    assert_eq!(result.cpu, vec![vec![0, 0, 0, 0, 0, 0, 0, 1, 2, 3]]);
    assert_eq!(
        result.domain,
        vec![Domain { cpu_nr: 0, domain_nr: 0, cpu_masks: vec![63], statistics: vec![0, 0] }]
    );
}

#[test]
fn bad_version_value_is_an_integer_error() {
    let result = ProcSchedStat::parse_proc_schedstat_output("version abc");
    assert!(matches!(result, Err(ProcSysParserError::ParseToIntegerError { .. })));
}

#[test]
fn missing_version_value_is_a_missing_item_error() {
    let result = ProcSchedStat::parse_proc_schedstat_output("version");
    assert!(matches!(result, Err(ProcSysParserError::IteratorItemError { .. })));
}

#[test]
fn builder_joins_path_and_file() {
    let b = proc_sys_parser::schedstat::Builder::new().path("/myproc");
    assert_eq!(b.target(), "/myproc/schedstat");
}

#[test]
fn per_cpu_is_empty_exactly_without_cpu_lines() {
    let without = ProcSchedStat::parse_proc_schedstat_output("version 15\ntimestamp 100").unwrap();
    assert!(without.cpu.is_empty());
    let with_cpu =
        ProcSchedStat::parse_proc_schedstat_output("version 15\ntimestamp 100\ncpu0 0 0 0 0 0 0 1 2 3").unwrap();
    assert!(!with_cpu.cpu.is_empty());
}

#[test]
fn domain_records_belong_to_the_most_recent_cpu() {
    let doc = "version 15
timestamp 100
cpu3 0 0 0 0 0 0 1 2 3
domain0 3f 0 0
domain1 ff 0 0
cpu7 0 0 0 0 0 0 4 5 6
domain0 0f 0 0";
    let result = ProcSchedStat::parse_proc_schedstat_output(doc).unwrap();
    let owners: Vec<u64> = result.domain.iter().map(|d| d.cpu_nr).collect();
    assert_eq!(owners, vec![3, 3, 7]);
    let numbers: Vec<u64> = result.domain.iter().map(|d| d.domain_nr).collect();
    assert_eq!(numbers, vec![0, 1, 0]);
}
