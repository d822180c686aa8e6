use host_telemetry::processes::{
    collect_process_table, show_processes, show_task_manager, ProcessRow, ProcessSample,
};
use host_telemetry::units::{bytes_to_readable, ByteQuantity, ByteUnit};

fn sample(pid: u32, name: &str, cpu_hundredths: u32, memory_bytes: u64) -> ProcessSample {
    ProcessSample { pid, name: name.to_string(), cpu_hundredths, memory_bytes }
}

fn row(pid: i32, name: &str, cpu_hundredths: u32, memory_bytes: u64) -> ProcessRow {
    ProcessRow {
        pid,
        name: name.to_string(),
        cpu_hundredths,
        memory: bytes_to_readable(memory_bytes),
    }
}

#[test]
fn each_sample_becomes_a_row() {
    let samples = vec![
        sample(1, "init", 0, 4096),
        sample(4321, "browser", 1234, 3 << 30),
        sample(77, "", 10000, 0),
    ];
    let rows = collect_process_table(&samples);
    assert_eq!(rows.len(), 3);
    assert_eq!(rows[0].pid, 1);
    assert_eq!(rows[0].name, "init");
    assert_eq!(rows[0].cpu_hundredths, 0);
    assert_eq!(rows[0].memory, ByteQuantity { magnitude: 4, unit: ByteUnit::KB });
    assert_eq!(rows[1].pid, 4321);
    assert_eq!(rows[1].name, "browser");
    assert_eq!(rows[1].cpu_hundredths, 1234);
    assert_eq!(rows[1].memory, ByteQuantity { magnitude: 3, unit: ByteUnit::GB });
    assert_eq!(rows[2].pid, 77);
    assert_eq!(rows[2].name, "");
    assert_eq!(rows[2].cpu_hundredths, 10000);
    assert_eq!(rows[2].memory, ByteQuantity { magnitude: 0, unit: ByteUnit::B });
}

#[test]
fn no_samples_give_no_rows() {
    assert!(collect_process_table(&vec![]).is_empty());
}

#[test]
fn a_process_id_keeps_its_bits() {
    let samples = vec![
        sample(0, "a", 0, 0),
        sample(i32::MAX as u32, "b", 0, 0),
        sample(i32::MAX as u32 + 1, "c", 0, 0),
        sample(u32::MAX, "d", 0, 0),
    ];
    let pids: Vec<i32> = collect_process_table(&samples).iter().map(|row| row.pid).collect();
    assert_eq!(pids, vec![0, i32::MAX, i32::MIN, -1]);
    for sample in &samples {
        let rows = collect_process_table(&vec![sample.clone()]);
        assert_eq!(rows[0].pid, sample.pid as i32);
    }
}

#[test]
fn rows_keep_the_order_sampled() {
    let samples: Vec<ProcessSample> =
        [9u32, 3, 7, 1, 8].iter().map(|&pid| sample(pid, "p", pid, pid as u64)).collect();
    let pids: Vec<i32> = collect_process_table(&samples).iter().map(|row| row.pid).collect();
    assert_eq!(pids, vec![9, 3, 7, 1, 8]);
}

#[test]
fn the_table_has_a_header_and_a_separator() {
    let lines = show_processes(&vec![]);
    assert_eq!(
        lines,
        vec![
            "PID      NAME                      CPU %      MEM            ".to_string(),
            "--- Refreshing ---".to_string(),
        ]
    );
    assert_eq!(lines[0], format!("{:<8} {:<25} {:<10} {:<15}", "PID", "NAME", "CPU %", "MEM"));
}

#[test]
fn rows_are_laid_out_in_columns() {
    let rows = vec![row(4321, "browser", 1234, 3 << 30), row(-1, "kernel", 5, 1023)];
    let lines = show_processes(&rows);
    assert_eq!(lines.len(), 4);
    assert_eq!(lines[1], "4321     browser                   12.34      3 GB           ");
    assert_eq!(lines[2], "-1       kernel                    0.05       1023 B         ");
    assert_eq!(
        lines[1],
        format!("{:<8} {:<25} {:<10.2} {:<15}", 4321, "browser", 12.34_f32, "3 GB")
    );
    assert_eq!(
        lines[2],
        format!("{:<8} {:<25} {:<10.2} {:<15}", -1, "kernel", 0.05_f32, "1023 B")
    );
    assert_eq!(lines[3], "--- Refreshing ---");
}

#[test]
fn a_cell_wider_than_its_column_is_kept_whole() {
    let name = "a-process-with-a-very-long-name.exe";
    let rows = vec![row(i32::MIN, name, u32::MAX, u64::MAX)];
    let lines = show_processes(&rows);
    assert_eq!(
        lines[1],
        format!(
            "{:<8} {:<25} {:<10} {:<15}",
            i32::MIN,
            name,
            "42949672.95",
            "16777216 TB"
        )
    );
    assert_eq!(
        lines[1],
        "-2147483648 a-process-with-a-very-long-name.exe 42949672.95 16777216 TB    "
    );
}

#[test]
fn a_column_is_measured_in_characters() {
    let rows = vec![row(5, "caf\u{e9} \u{1f600}", 100, 2048)];
    let lines = show_processes(&rows);
    assert_eq!(
        lines[1],
        format!("{:<8} {:<25} {:<10.2} {:<15}", 5, "caf\u{e9} \u{1f600}", 1.0_f32, "2 KB")
    );
}

#[test]
fn cpu_usage_is_shown_with_two_decimal_places() {
    for (hundredths, shown) in
        [(0u32, "0.00"), (1, "0.01"), (10, "0.10"), (99, "0.99"), (100, "1.00"), (12345, "123.45")]
    {
        let lines = show_processes(&vec![row(1, "p", hundredths, 0)]);
        assert_eq!(lines[1], format!("{:<8} {:<25} {:<10} {:<15}", 1, "p", shown, "0 B"));
    }
}

#[test]
fn one_refresh_of_the_task_manager() {
    let samples = vec![sample(12, "shell", 250, 5 << 20), sample(u32::MAX, "ghost", 0, 1536)];
    assert_eq!(
        show_task_manager(&samples),
        vec![
            "PID      NAME                      CPU %      MEM            ".to_string(),
            "12       shell                     2.50       5 MB           ".to_string(),
            "-1       ghost                     0.00       2 KB           ".to_string(),
            "--- Refreshing ---".to_string(),
        ]
    );
    assert_eq!(show_task_manager(&samples), show_processes(&collect_process_table(&samples)));
}
