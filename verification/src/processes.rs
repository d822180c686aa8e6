//! One snapshot of the process table: a row for each live process, and the
//! rows as a table of fixed-width columns.

use crate::text::{
    hundredths_text, left_aligned, push_hundredths, push_left_aligned, push_signed_decimal,
    signed_decimal_text,
};
use crate::units::{bytes_to_readable, push_quantity, quantity_text, readable, ByteQuantity};
use vstd::prelude::*;

verus! {

/// Width of the column that shows the process id.
pub const PID_WIDTH: usize = 8;

/// Width of the column that shows the process name.
pub const NAME_WIDTH: usize = 25;

/// Width of the column that shows the CPU usage.
pub const CPU_WIDTH: usize = 10;

/// Width of the column that shows the memory in use.
pub const MEMORY_WIDTH: usize = 15;

/// What the process table reports of one live process.
#[derive(Clone, Debug)]
pub struct ProcessSample {
    pub pid: u32,
    pub name: String,
    /// CPU usage since the previous refresh, in hundredths of a percent.
    pub cpu_hundredths: u32,
    /// Resident memory in bytes.
    pub memory_bytes: u64,
}

/// A `ProcessSample` as a mathematical value.
pub struct ProcessSampleView {
    pub pid: u32,
    pub name: Seq<char>,
    pub cpu_hundredths: u32,
    pub memory_bytes: u64,
}

impl View for ProcessSample {
    type V = ProcessSampleView;

    open spec fn view(&self) -> ProcessSampleView {
        ProcessSampleView {
            pid: self.pid,
            name: self.name@,
            cpu_hundredths: self.cpu_hundredths,
            memory_bytes: self.memory_bytes,
        }
    }
}

impl DeepView for ProcessSample {
    type V = ProcessSampleView;

    open spec fn deep_view(&self) -> ProcessSampleView {
        self@
    }
}

/// One process as the table shows it.
#[derive(Clone, Debug)]
pub struct ProcessRow {
    pub pid: i32,
    pub name: String,
    /// CPU usage in hundredths of a percent.
    pub cpu_hundredths: u32,
    pub memory: ByteQuantity,
}

/// A `ProcessRow` as a mathematical value.
pub struct ProcessRowView {
    pub pid: i32,
    pub name: Seq<char>,
    pub cpu_hundredths: u32,
    pub memory: ByteQuantity,
}

impl View for ProcessRow {
    type V = ProcessRowView;

    open spec fn view(&self) -> ProcessRowView {
        ProcessRowView {
            pid: self.pid,
            name: self.name@,
            cpu_hundredths: self.cpu_hundredths,
            memory: self.memory,
        }
    }
}

impl DeepView for ProcessRow {
    type V = ProcessRowView;

    open spec fn deep_view(&self) -> ProcessRowView {
        self@
    }
}

/// A process id as the signed number of the same 32 bits.
pub open spec fn pid_as_signed(pid: u32) -> int {
    if pid <= i32::MAX {
        pid as int
    } else {
        pid - 0x1_0000_0000
    }
}

/// The row that stands for one sampled process: its id as a signed number,
/// its name and CPU usage as sampled, its memory in the largest sensible
/// unit.
pub open spec fn projected(sample: ProcessSampleView) -> ProcessRowView {
    ProcessRowView {
        pid: pid_as_signed(sample.pid) as i32,
        name: sample.name,
        cpu_hundredths: sample.cpu_hundredths,
        memory: readable(sample.memory_bytes as nat),
    }
}

/// The rows of a snapshot: one for each sample, in the order sampled.
pub open spec fn projected_rows(samples: Seq<ProcessSampleView>) -> Seq<ProcessRowView> {
    samples.map_values(|sample: ProcessSampleView| projected(sample))
}

/// The line above the rows of the table.
pub open spec fn header_line() -> Seq<char> {
    left_aligned("PID"@, PID_WIDTH as nat) + " "@ + left_aligned("NAME"@, NAME_WIDTH as nat) + " "@
        + left_aligned("CPU %"@, CPU_WIDTH as nat) + " "@ + left_aligned(
        "MEM"@,
        MEMORY_WIDTH as nat,
    )
}

/// The line that shows one row: id, name, CPU usage with two decimal
/// places and memory, each aligned to the left in its column, with one
/// space between columns.
pub open spec fn row_line(row: ProcessRowView) -> Seq<char> {
    left_aligned(signed_decimal_text(row.pid as int), PID_WIDTH as nat) + " "@ + left_aligned(
        row.name,
        NAME_WIDTH as nat,
    ) + " "@ + left_aligned(hundredths_text(row.cpu_hundredths as nat), CPU_WIDTH as nat) + " "@
        + left_aligned(
        quantity_text(row.memory.magnitude as nat, row.memory.unit),
        MEMORY_WIDTH as nat,
    )
}

/// The line below the rows of the table.
pub open spec fn separator_line() -> Seq<char> {
    "--- Refreshing ---"@
}

/// One refresh of the table: the header, a line for each row, the
/// separator.
pub open spec fn table_lines(rows: Seq<ProcessRowView>) -> Seq<Seq<char>> {
    seq![header_line()] + rows.map_values(|row: ProcessRowView| row_line(row)) + seq![
        separator_line(),
    ]
}

/// A process id as the signed number of the same 32 bits.
fn signed_pid(pid: u32) -> (signed: i32)
    ensures
        signed == pid_as_signed(pid),
{
    if pid <= 0x7fff_ffff {
        pid as i32
    } else {
        (pid as i64 - 0x1_0000_0000) as i32
    }
}

/// Projects each sampled process into a row of the table, in the order
/// sampled: the id as a signed number, the name and CPU usage unchanged,
/// the memory in its largest sensible unit.
pub fn collect_process_table(samples: &Vec<ProcessSample>) -> (rows: Vec<ProcessRow>)
    ensures
        rows.deep_view() == projected_rows(samples.deep_view()),
        rows.len() == samples.len(),
{
    let mut rows: Vec<ProcessRow> = Vec::new();
    let mut i: usize = 0;
    while i < samples.len()
        invariant
            i <= samples.len(),
            rows.len() == i,
            forall|k: int| 0 <= k < i ==> (#[trigger] rows[k])@ == projected(samples[k]@),
        decreases samples.len() - i,
    {
        let sample = &samples[i];
        let row = ProcessRow {
            pid: signed_pid(sample.pid),
            name: sample.name.clone(),
            cpu_hundredths: sample.cpu_hundredths,
            memory: bytes_to_readable(sample.memory_bytes),
        };
        assert(row@ == projected(sample@));
        rows.push(row);
        i = i + 1;
    }
    assert(rows.deep_view() =~= projected_rows(samples.deep_view()));
    rows
}

/// The line above the rows of the table.
fn render_header() -> (line: String)
    ensures
        line@ == header_line(),
{
    let mut line = String::new();
    push_left_aligned(&mut line, "PID", PID_WIDTH);
    line.append(" ");
    push_left_aligned(&mut line, "NAME", NAME_WIDTH);
    line.append(" ");
    push_left_aligned(&mut line, "CPU %", CPU_WIDTH);
    line.append(" ");
    push_left_aligned(&mut line, "MEM", MEMORY_WIDTH);
    line
}

/// The line that shows one row.
fn render_row(row: &ProcessRow) -> (line: String)
    ensures
        line@ == row_line(row@),
{
    let mut pid = String::new();
    push_signed_decimal(&mut pid, row.pid);
    let mut cpu = String::new();
    push_hundredths(&mut cpu, row.cpu_hundredths);
    let mut memory = String::new();
    push_quantity(&mut memory, row.memory);

    let mut line = String::new();
    push_left_aligned(&mut line, pid.as_str(), PID_WIDTH);
    line.append(" ");
    push_left_aligned(&mut line, row.name.as_str(), NAME_WIDTH);
    line.append(" ");
    push_left_aligned(&mut line, cpu.as_str(), CPU_WIDTH);
    line.append(" ");
    push_left_aligned(&mut line, memory.as_str(), MEMORY_WIDTH);
    line
}

/// Renders one refresh of the table: the header, a line for each row in the
/// order given, and the separator that parts it from the next refresh.
pub fn show_processes(rows: &Vec<ProcessRow>) -> (lines: Vec<String>)
    ensures
        lines.deep_view() == table_lines(rows.deep_view()),
{
    let mut lines: Vec<String> = Vec::new();
    lines.push(render_header());
    let mut i: usize = 0;
    while i < rows.len()
        invariant
            i <= rows.len(),
            lines.len() == i + 1,
            lines[0]@ == header_line(),
            forall|k: int| 1 <= k <= i ==> (#[trigger] lines[k])@ == row_line(rows[k - 1]@),
        decreases rows.len() - i,
    {
        lines.push(render_row(&rows[i]));
        i = i + 1;
    }
    lines.push(String::from_str("--- Refreshing ---"));
    proof {
        let expected = table_lines(rows.deep_view());
        assert(expected.len() == lines.len());
        assert forall|k: int| 0 <= k < lines.len() implies lines.deep_view()[k] == expected[k] by {
            if 1 <= k <= rows.len() {
                assert(lines[k]@ == row_line(rows[k - 1]@));
            }
        }
        assert(lines.deep_view() =~= expected);
    }
    lines
}

/// Renders one refresh of the process table from what was sampled.
pub fn show_task_manager(samples: &Vec<ProcessSample>) -> (lines: Vec<String>)
    ensures
        lines.deep_view() == table_lines(projected_rows(samples.deep_view())),
{
    let rows = collect_process_table(samples);
    show_processes(&rows)
}

} // verus!
