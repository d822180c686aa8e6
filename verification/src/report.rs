//! The specification report: operating system, processor, memory, storage,
//! graphics interface and graphics adapters, one labelled line per fact.
//!
//! A fact that the host could not supply is shown as a fixed placeholder,
//! so the report always has the same shape.

use crate::graphics::{
    get_graphics_info, graphics_lines, AdapterDescription, AdapterDescriptionView,
};
use crate::scheduler::{IterationLimit, RefreshSession};
use crate::storage::{aggregate, aggregated, VolumeStat};
use crate::units::{push_readable, readable_text};
use vstd::prelude::*;

verus! {

/// Which stages run, and at what cadence the process table is refreshed.
#[derive(Clone, Copy, Debug, PartialEq, Eq, Structural)]
pub struct PipelineConfig {
    pub include_graphics: bool,
    pub include_process_table: bool,
    pub refresh_interval_millis: u64,
    pub iterations: IterationLimit,
}

impl PipelineConfig {
    /// The refresh session that the configuration asks for: one that ends
    /// before its first sample where the process table is left out.
    pub open spec fn session(self) -> RefreshSession {
        if self.include_process_table {
            RefreshSession::created(self.refresh_interval_millis, self.iterations)
        } else {
            RefreshSession::created(self.refresh_interval_millis, IterationLimit::Count(0))
        }
    }

    /// Starts the refresh session that the configuration asks for.
    pub fn start_session(&self) -> (session: RefreshSession)
        ensures
            session == self.session(),
    {
        if self.include_process_table {
            RefreshSession::new(self.refresh_interval_millis, self.iterations)
        } else {
            RefreshSession::new(self.refresh_interval_millis, IterationLimit::Count(0))
        }
    }
}

impl Default for PipelineConfig {
    /// Every stage, and one sample of the process table followed by a wait
    /// of two seconds.
    fn default() -> (config: Self)
        ensures
            config == (PipelineConfig {
                include_graphics: true,
                include_process_table: true,
                refresh_interval_millis: 2000,
                iterations: IterationLimit::Count(1),
            }),
    {
        PipelineConfig {
            include_graphics: true,
            include_process_table: true,
            refresh_interval_millis: 2000,
            iterations: IterationLimit::Count(1),
        }
    }
}

/// The facts that the report is made of, as the host supplied them.
#[derive(Clone, Debug)]
pub struct HostFacts {
    /// Name and version of the operating system, where known.
    pub os_version: Option<String>,
    /// The brand of each logical processor.
    pub cpu_brands: Vec<String>,
    pub total_memory_bytes: u64,
    pub volumes: Vec<VolumeStat>,
    /// The version that the graphics interface has recorded, where it has.
    pub directx_version: Option<String>,
    /// The platform's list of adapters, where the graphics subsystem could
    /// be reached.
    pub adapters: Option<Vec<AdapterDescription>>,
}

/// `HostFacts` as a mathematical value.
pub struct HostFactsView {
    pub os_version: Option<Seq<char>>,
    pub cpu_brands: Seq<Seq<char>>,
    pub total_memory_bytes: u64,
    pub volumes: Seq<VolumeStat>,
    pub directx_version: Option<Seq<char>>,
    pub adapters: Option<Seq<AdapterDescriptionView>>,
}

impl View for HostFacts {
    type V = HostFactsView;

    open spec fn view(&self) -> HostFactsView {
        HostFactsView {
            os_version: self.os_version.deep_view(),
            cpu_brands: self.cpu_brands.deep_view(),
            total_memory_bytes: self.total_memory_bytes,
            volumes: self.volumes@,
            directx_version: self.directx_version.deep_view(),
            adapters: self.adapters.deep_view(),
        }
    }
}

/// The line that names the operating system.
pub open spec fn os_line(os_version: Option<Seq<char>>) -> Seq<char> {
    "OS: "@ + match os_version {
        Some(version) => version,
        None => "Unknown OS"@,
    }
}

/// The processor as it is displayed: the brand of the first logical
/// processor, or a placeholder where there is none or it has no brand.
pub open spec fn processor_text(cpu_brands: Seq<Seq<char>>) -> Seq<char> {
    if cpu_brands.len() == 0 || cpu_brands[0].len() == 0 {
        "Unknown CPU"@
    } else {
        cpu_brands[0]
    }
}

/// The line that names the processor.
pub open spec fn processor_line(cpu_brands: Seq<Seq<char>>) -> Seq<char> {
    "CPU: "@ + processor_text(cpu_brands)
}

/// The line that shows the installed memory.
pub open spec fn memory_line(total_memory_bytes: u64) -> Seq<char> {
    "Total RAM: "@ + readable_text(total_memory_bytes as nat)
}

/// The two lines that show storage: the space in use, then the capacity.
/// Figures that were rejected give placeholders in place of numbers.
pub open spec fn storage_lines(volumes: Seq<VolumeStat>) -> Seq<Seq<char>> {
    match aggregated(volumes) {
        Ok(summary) => seq![
            "Used Storage: "@ + readable_text(summary.used_bytes as nat),
            "Total Storage: "@ + readable_text(summary.total_bytes as nat),
        ],
        Err(_) => seq!["Used Storage: "@ + "Unknown"@, "Total Storage: "@ + "Unknown"@],
    }
}

/// The marketing name of the graphics interface whose recorded version is
/// `raw`.
pub open spec fn directx_name(raw: Seq<char>) -> Seq<char> {
    if raw == "4.09.00.0904"@ {
        "DirectX 9.0c"@
    } else if raw == "4.10.0000.0904"@ {
        "DirectX 10"@
    } else if raw == "4.11.0000.0904"@ {
        "DirectX 11"@
    } else if raw == "4.12.0000.0904"@ {
        "DirectX 12"@
    } else {
        "Unknown / Newer DirectX"@
    }
}

/// The graphics interface as it is displayed: its marketing name followed
/// by the recorded version in brackets, or a placeholder where no version
/// is recorded.
pub open spec fn directx_label(raw: Option<Seq<char>>) -> Seq<char> {
    match raw {
        Some(version) => directx_name(version) + " ("@ + version + ")"@,
        None => "Unknown"@,
    }
}

/// The line that shows the graphics interface.
pub open spec fn directx_line(raw: Option<Seq<char>>) -> Seq<char> {
    "DirectX Version: "@ + directx_label(raw)
}

/// The lines of the whole report, in order.
pub open spec fn specification_lines(facts: HostFactsView, config: PipelineConfig) -> Seq<
    Seq<char>,
> {
    let graphics = if config.include_graphics {
        graphics_lines(facts.adapters)
    } else {
        Seq::empty()
    };
    seq![
        os_line(facts.os_version),
        processor_line(facts.cpu_brands),
        memory_line(facts.total_memory_bytes),
    ] + storage_lines(facts.volumes) + seq![directx_line(facts.directx_version)] + graphics
}

/// The report always has the same shape: whatever the host supplied, it
/// starts with the same six labelled lines in the same order, and where
/// graphics are left out it has no other line.
pub proof fn lemma_report_is_complete(facts: HostFactsView, config: PipelineConfig)
    ensures
        ({
            let lines = specification_lines(facts, config);
            &&& lines.len() >= 6
            &&& !config.include_graphics ==> lines.len() == 6
            &&& "OS: "@.is_prefix_of(lines[0])
            &&& "CPU: "@.is_prefix_of(lines[1])
            &&& "Total RAM: "@.is_prefix_of(lines[2])
            &&& "Used Storage: "@.is_prefix_of(lines[3])
            &&& "Total Storage: "@.is_prefix_of(lines[4])
            &&& "DirectX Version: "@.is_prefix_of(lines[5])
        }),
{
    let lines = specification_lines(facts, config);
    let storage = storage_lines(facts.volumes);
    assert(storage.len() == 2);
    assert(lines[0] == os_line(facts.os_version));
    assert(lines[1] == processor_line(facts.cpu_brands));
    assert(lines[2] == memory_line(facts.total_memory_bytes));
    assert(lines[3] == storage[0]);
    assert(lines[4] == storage[1]);
    assert(lines[5] == directx_line(facts.directx_version));
    assert forall|label: Seq<char>, rest: Seq<char>| #[trigger]
        label.is_prefix_of(label + rest) by {
        assert((label + rest).subrange(0, label.len() as int) =~= label);
    }
}

/// The line that names the operating system, with a placeholder where the
/// host did not name it.
pub fn get_os_info(os_version: Option<&str>) -> (line: String)
    ensures
        line@ == os_line(os_version.deep_view()),
{
    let mut line = String::from_str("OS: ");
    match os_version {
        Some(version) => line.append(version),
        None => line.append("Unknown OS"),
    }
    line
}

/// The processor as it is displayed: the brand of the first logical
/// processor, or "Unknown CPU" where there is none or its brand is empty.
pub fn get_processor_info(cpu_brands: &Vec<String>) -> (display: String)
    ensures
        display@ == processor_text(cpu_brands.deep_view()),
{
    if cpu_brands.len() == 0 || cpu_brands[0].as_str().is_empty() {
        String::from_str("Unknown CPU")
    } else {
        cpu_brands[0].clone()
    }
}

/// The line that shows the installed memory in its largest sensible unit.
pub fn get_memory_info(total_memory_bytes: u64) -> (line: String)
    ensures
        line@ == memory_line(total_memory_bytes),
{
    let mut line = String::from_str("Total RAM: ");
    push_readable(&mut line, total_memory_bytes);
    line
}

/// The two lines that show storage, the space in use and the capacity over
/// all volumes, each in its largest sensible unit. Where the volumes'
/// figures are rejected, both lines show "Unknown".
pub fn get_storage_info(volumes: &Vec<VolumeStat>) -> (lines: Vec<String>)
    ensures
        lines.deep_view() == storage_lines(volumes@),
{
    let mut lines: Vec<String> = Vec::new();
    match aggregate(volumes) {
        Ok(summary) => {
            let mut used = String::from_str("Used Storage: ");
            push_readable(&mut used, summary.used_bytes);
            lines.push(used);
            let mut total = String::from_str("Total Storage: ");
            push_readable(&mut total, summary.total_bytes);
            lines.push(total);
        },
        Err(_) => {
            let mut used = String::from_str("Used Storage: ");
            used.append("Unknown");
            lines.push(used);
            let mut total = String::from_str("Total Storage: ");
            total.append("Unknown");
            lines.push(total);
        },
    }
    assert(lines.deep_view() =~= storage_lines(volumes@));
    lines
}

/// The graphics interface as it is displayed: the marketing name that the
/// recorded version stands for, or "Unknown / Newer DirectX" for a version
/// that is not in the table, followed by the version in brackets; and
/// "Unknown" where no version is recorded.
pub fn directx_display(raw: Option<&str>) -> (label: String)
    ensures
        label@ == directx_label(raw.deep_view()),
{
    match raw {
        Some(version) => {
            let recorded = String::from_str(version);
            let mut label = if recorded == String::from_str("4.09.00.0904") {
                String::from_str("DirectX 9.0c")
            } else if recorded == String::from_str("4.10.0000.0904") {
                String::from_str("DirectX 10")
            } else if recorded == String::from_str("4.11.0000.0904") {
                String::from_str("DirectX 11")
            } else if recorded == String::from_str("4.12.0000.0904") {
                String::from_str("DirectX 12")
            } else {
                String::from_str("Unknown / Newer DirectX")
            };
            label.append(" (");
            label.append(version);
            label.append(")");
            label
        },
        None => String::from_str("Unknown"),
    }
}

/// The line that shows the graphics interface.
pub fn get_directx_version(raw: Option<&str>) -> (line: String)
    ensures
        line@ == directx_line(raw.deep_view()),
{
    let mut line = String::from_str("DirectX Version: ");
    let label = directx_display(raw);
    line.append(label.as_str());
    line
}

/// A borrowed view of an optional text.
fn as_text(text: &Option<String>) -> (borrowed: Option<&str>)
    ensures
        borrowed.deep_view() == text.deep_view(),
{
    match text {
        Some(owned) => Some(owned.as_str()),
        None => None,
    }
}

/// Composes the report: operating system, processor, memory, storage in
/// use and in total, graphics interface, and then, where the configuration
/// includes graphics, three lines for each adapter that is reported on.
pub fn show_computer_specifications(facts: &HostFacts, config: &PipelineConfig) -> (lines: Vec<
    String,
>)
    ensures
        lines.deep_view() == specification_lines(facts@, *config),
{
    let mut lines: Vec<String> = Vec::new();
    lines.push(get_os_info(as_text(&facts.os_version)));
    let mut processor = String::from_str("CPU: ");
    let brand = get_processor_info(&facts.cpu_brands);
    processor.append(brand.as_str());
    lines.push(processor);
    lines.push(get_memory_info(facts.total_memory_bytes));
    let ghost head = lines.deep_view();
    let mut storage = get_storage_info(&facts.volumes);
    let ghost storage_view = storage.deep_view();
    lines.append(&mut storage);
    assert(lines.deep_view() =~= head + storage_view);
    let ghost before_directx = lines.deep_view();
    lines.push(get_directx_version(as_text(&facts.directx_version)));
    assert(lines.deep_view() =~= before_directx + seq![directx_line(facts@.directx_version)]);
    if config.include_graphics {
        let ghost before_graphics = lines.deep_view();
        let mut graphics = get_graphics_info(&facts.adapters);
        let ghost graphics_view = graphics.deep_view();
        lines.append(&mut graphics);
        assert(lines.deep_view() =~= before_graphics + graphics_view);
    }
    assert(lines.deep_view() =~= specification_lines(facts@, *config));
    lines
}

/// The priority list has no entries: it renders no line.
pub fn show_priority_list() -> (lines: Vec<String>)
    ensures
        lines@.len() == 0,
{
    Vec::new()
}

} // verus!
