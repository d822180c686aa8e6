//! Graphics adapters: which of the adapters that the platform lists are
//! shown, and what is shown of each.

use crate::text::{decimal_text, push_decimal};
use crate::units::{push_readable, readable_text};
use vstd::prelude::*;
use vstd::slice::slice_subrange;

verus! {

/// The bit of an adapter's flags that marks a software adapter.
pub const ADAPTER_FLAG_SOFTWARE: u32 = 2;

/// What the platform reports of one adapter.
#[derive(Clone, Debug)]
pub struct AdapterDescription {
    /// The adapter's name in UTF-16, padded with NUL to the buffer's length.
    pub description: Vec<u16>,
    pub flags: u32,
    pub dedicated_video_memory: u64,
    pub shared_system_memory: u64,
}

/// An `AdapterDescription` as a mathematical value.
pub struct AdapterDescriptionView {
    pub description: Seq<u16>,
    pub flags: u32,
    pub dedicated_video_memory: u64,
    pub shared_system_memory: u64,
}

impl View for AdapterDescription {
    type V = AdapterDescriptionView;

    open spec fn view(&self) -> AdapterDescriptionView {
        AdapterDescriptionView {
            description: self.description@,
            flags: self.flags,
            dedicated_video_memory: self.dedicated_video_memory,
            shared_system_memory: self.shared_system_memory,
        }
    }
}

impl DeepView for AdapterDescription {
    type V = AdapterDescriptionView;

    open spec fn deep_view(&self) -> AdapterDescriptionView {
        self@
    }
}

/// One adapter as it is reported on.
#[derive(Clone, Debug)]
pub struct GraphicsAdapter {
    /// The adapter's position in the platform's list.
    pub index: u32,
    pub name: String,
    pub dedicated_video_memory_bytes: u64,
    pub shared_system_memory_bytes: u64,
    pub is_software: bool,
}

/// A `GraphicsAdapter` as a mathematical value.
pub struct GraphicsAdapterView {
    pub index: u32,
    pub name: Seq<char>,
    pub dedicated_video_memory_bytes: u64,
    pub shared_system_memory_bytes: u64,
    pub is_software: bool,
}

impl View for GraphicsAdapter {
    type V = GraphicsAdapterView;

    open spec fn view(&self) -> GraphicsAdapterView {
        GraphicsAdapterView {
            index: self.index,
            name: self.name@,
            dedicated_video_memory_bytes: self.dedicated_video_memory_bytes,
            shared_system_memory_bytes: self.shared_system_memory_bytes,
            is_software: self.is_software,
        }
    }
}

impl DeepView for GraphicsAdapter {
    type V = GraphicsAdapterView;

    open spec fn deep_view(&self) -> GraphicsAdapterView {
        self@
    }
}

impl GraphicsAdapterView {
    /// Whether the adapter is reported on: a software adapter is not, nor is
    /// one without video memory of its own.
    pub open spec fn is_retained(self) -> bool {
        !self.is_software && self.dedicated_video_memory_bytes != 0
    }
}

/// The platform's graphics subsystem could not be reached.
#[derive(Clone, Copy, Debug, PartialEq, Eq, Structural)]
pub struct GraphicsUnavailableError;

// Names

/// The text that `String::from_utf16_lossy` of the standard library decodes
/// from `units`.
pub uninterp spec fn utf16_lossy_text(units: Seq<u16>) -> Seq<char>;

/// `String::from_utf16_lossy` of the standard library: the text depends on
/// the code units alone. Nothing is claimed of what the text is.
pub assume_specification[ String::from_utf16_lossy ](v: &[u16]) -> (text: String)
    ensures
        text@ == utf16_lossy_text(v@),
;

/// Number of code units before the first NUL, or the length of `units`
/// where none is NUL.
pub open spec fn nul_position(units: Seq<u16>) -> nat
    decreases units.len(),
{
    if units.len() == 0 || units[0] == 0 {
        0
    } else {
        1 + nul_position(units.drop_first())
    }
}

/// The code units before the first NUL.
pub open spec fn nul_truncated(units: Seq<u16>) -> Seq<u16> {
    units.take(nul_position(units) as int)
}

/// The name that a NUL-padded buffer of UTF-16 code units holds.
pub open spec fn adapter_name(description: Seq<u16>) -> Seq<char> {
    utf16_lossy_text(nul_truncated(description))
}

/// `nul_position` is where the first NUL stands: it lies within the buffer,
/// no NUL comes before it, and it is the end of the buffer or a NUL.
pub proof fn lemma_nul_position(units: Seq<u16>)
    ensures
        nul_position(units) <= units.len(),
        forall|i: int| 0 <= i < nul_position(units) ==> units[i] != 0,
        nul_position(units) < units.len() ==> units[nul_position(units) as int] == 0,
    decreases units.len(),
{
    if units.len() == 0 || units[0] == 0 {
    } else {
        let rest = units.drop_first();
        lemma_nul_position(rest);
        assert forall|i: int| 0 <= i < nul_position(units) implies units[i] != 0 by {
            if i > 0 {
                assert(units[i] == rest[i - 1]);
            }
        }
        if nul_position(units) < units.len() {
            assert(units[nul_position(units) as int] == rest[nul_position(rest) as int]);
        }
    }
}

/// A position before which no NUL stands, and which is the end of the
/// buffer or a NUL, is `nul_position`.
proof fn lemma_nul_position_is(units: Seq<u16>, position: int)
    requires
        0 <= position <= units.len(),
        forall|i: int| 0 <= i < position ==> units[i] != 0,
        position < units.len() ==> units[position] == 0,
    ensures
        nul_position(units) == position,
    decreases units.len(),
{
    if position > 0 {
        let rest = units.drop_first();
        assert forall|i: int| 0 <= i < position - 1 implies rest[i] != 0 by {
            assert(rest[i] == units[i + 1]);
        }
        lemma_nul_position_is(rest, position - 1);
    }
}

/// Number of code units before the first NUL.
fn name_length(units: &Vec<u16>) -> (length: usize)
    ensures
        length == nul_position(units@),
        length <= units.len(),
{
    let mut i: usize = 0;
    while i < units.len() && units[i] != 0
        invariant
            i <= units.len(),
            forall|k: int| 0 <= k < i ==> units@[k] != 0,
        decreases units.len() - i,
    {
        i = i + 1;
    }
    proof {
        lemma_nul_position_is(units@, i as int);
    }
    i
}

/// Decodes the name that a NUL-padded buffer of UTF-16 code units holds:
/// the code units before the first NUL, with each that is no valid UTF-16
/// replaced as the standard library replaces it.
pub fn decode_adapter_name(description: &Vec<u16>) -> (name: String)
    ensures
        name@ == adapter_name(description@),
{
    let length = name_length(description);
    let units = slice_subrange(description.as_slice(), 0, length);
    assert(units@ =~= nul_truncated(description@));
    String::from_utf16_lossy(units)
}

// Enumeration

/// Whether `flags` mark a software adapter.
pub open spec fn flags_mark_software(flags: u32) -> bool {
    flags & ADAPTER_FLAG_SOFTWARE != 0
}

/// The adapter at position `index` of the platform's list, as reported.
pub open spec fn described(index: u32, description: AdapterDescriptionView) -> GraphicsAdapterView {
    GraphicsAdapterView {
        index,
        name: adapter_name(description.description),
        dedicated_video_memory_bytes: description.dedicated_video_memory,
        shared_system_memory_bytes: description.shared_system_memory,
        is_software: flags_mark_software(description.flags),
    }
}

/// The adapters that are reported on, in the order of the platform's list.
/// A position is a 32-bit index, so a list has no adapter beyond that range.
pub open spec fn enumerated(descriptions: Seq<AdapterDescriptionView>) -> Seq<GraphicsAdapterView>
    decreases descriptions.len(),
{
    if descriptions.len() == 0 {
        Seq::empty()
    } else {
        let earlier = enumerated(descriptions.drop_last());
        let position = descriptions.len() - 1;
        if position <= u32::MAX && described(position as u32, descriptions.last()).is_retained() {
            earlier.push(described(position as u32, descriptions.last()))
        } else {
            earlier
        }
    }
}

/// Every adapter that is reported on is retained, stands for a description
/// of the list, and follows the adapters reported before it in the order of
/// the list.
pub proof fn lemma_enumerated(descriptions: Seq<AdapterDescriptionView>)
    ensures
        enumerated(descriptions).len() <= descriptions.len(),
        forall|k: int|
            0 <= k < enumerated(descriptions).len() ==> {
                let adapter = #[trigger] enumerated(descriptions)[k];
                &&& adapter.is_retained()
                &&& adapter.index < descriptions.len()
                &&& adapter == described(adapter.index, descriptions[adapter.index as int])
            },
        forall|j: int, k: int|
            0 <= j < k < enumerated(descriptions).len() ==> (#[trigger] enumerated(
                descriptions,
            )[j]).index < (#[trigger] enumerated(descriptions)[k]).index,
    decreases descriptions.len(),
{
    if descriptions.len() > 0 {
        lemma_enumerated(descriptions.drop_last());
    }
}

/// Every description that is retained is reported on.
pub proof fn lemma_enumerated_is_complete(descriptions: Seq<AdapterDescriptionView>, position: int)
    requires
        0 <= position < descriptions.len(),
        position <= u32::MAX,
        described(position as u32, descriptions[position]).is_retained(),
    ensures
        enumerated(descriptions).contains(described(position as u32, descriptions[position])),
    decreases descriptions.len(),
{
    let earlier = enumerated(descriptions.drop_last());
    if position == descriptions.len() - 1 {
        assert(enumerated(descriptions).last() == described(
            position as u32,
            descriptions[position],
        ));
    } else {
        lemma_enumerated_is_complete(descriptions.drop_last(), position);
        let k = choose|k: int|
            0 <= k < earlier.len() && earlier[k] == described(
                position as u32,
                descriptions[position],
            );
        assert(enumerated(descriptions)[k] == earlier[k]);
    }
}

/// Descriptions beyond the range of a 32-bit index add nothing.
proof fn lemma_enumerated_beyond_range(descriptions: Seq<AdapterDescriptionView>, end: int)
    requires
        u32::MAX < end <= descriptions.len(),
    ensures
        enumerated(descriptions) == enumerated(descriptions.take(end)),
    decreases descriptions.len(),
{
    if end == descriptions.len() {
        assert(descriptions.take(end) =~= descriptions);
    } else {
        lemma_enumerated_beyond_range(descriptions.drop_last(), end);
        assert(descriptions.drop_last().take(end) =~= descriptions.take(end));
    }
}

/// Whether `flags` mark a software adapter.
pub fn is_software_adapter(flags: u32) -> (software: bool)
    ensures
        software == flags_mark_software(flags),
{
    flags & ADAPTER_FLAG_SOFTWARE != 0
}

impl GraphicsAdapter {
    /// The adapter at position `index` of the platform's list.
    pub fn from_description(index: u32, description: &AdapterDescription) -> (adapter: Self)
        ensures
            adapter@ == described(index, description@),
    {
        GraphicsAdapter {
            index,
            name: decode_adapter_name(&description.description),
            dedicated_video_memory_bytes: description.dedicated_video_memory,
            shared_system_memory_bytes: description.shared_system_memory,
            is_software: is_software_adapter(description.flags),
        }
    }

    /// Whether the adapter is reported on: a software adapter is not, nor is
    /// one without video memory of its own.
    pub fn is_retained(&self) -> (retained: bool)
        ensures
            retained == self@.is_retained(),
    {
        !self.is_software && self.dedicated_video_memory_bytes != 0
    }
}

/// Walks the platform's list of adapters from position 0 upward and keeps
/// those that are reported on, each with its position, decoded name and
/// memory sizes. Software adapters and adapters without video memory of
/// their own are passed over; the positions of the others do not change.
pub fn enumerate(descriptions: &Vec<AdapterDescription>) -> (adapters: Vec<GraphicsAdapter>)
    ensures
        adapters.deep_view() == enumerated(descriptions.deep_view()),
        forall|k: int| 0 <= k < adapters.len() ==> (#[trigger] adapters[k])@.is_retained(),
{
    let mut adapters: Vec<GraphicsAdapter> = Vec::new();
    let mut i: usize = 0;
    while i < descriptions.len() && i <= 0xffff_ffff
        invariant
            i <= descriptions.len(),
            i <= 0x1_0000_0000,
            adapters.deep_view() == enumerated(descriptions.deep_view().take(i as int)),
        decreases descriptions.len() - i,
    {
        let adapter = GraphicsAdapter::from_description(i as u32, &descriptions[i]);
        proof {
            let before = descriptions.deep_view().take(i as int);
            let now = descriptions.deep_view().take(i + 1);
            assert(now.drop_last() =~= before);
            assert(now.last() == descriptions[i as int]@);
        }
        if adapter.is_retained() {
            let ghost earlier = adapters.deep_view();
            adapters.push(adapter);
            assert(adapters.deep_view() =~= earlier.push(adapter@));
        }
        i = i + 1;
    }
    proof {
        if i == descriptions.len() {
            assert(descriptions.deep_view().take(i as int) =~= descriptions.deep_view());
        } else {
            lemma_enumerated_beyond_range(descriptions.deep_view(), i as int);
        }
        lemma_enumerated(descriptions.deep_view());
        assert forall|k: int| 0 <= k < adapters.len() implies (#[trigger] adapters[k])@
            .is_retained() by {
            assert(adapters.deep_view()[k] == adapters[k]@);
        }
    }
    adapters
}

// Rendering

/// The three lines shown for one adapter: its position and name, its video
/// memory and the system memory it shares.
pub open spec fn adapter_lines(adapter: GraphicsAdapterView) -> Seq<Seq<char>> {
    seq![
        "GPU "@ + decimal_text(adapter.index as nat) + ": "@ + adapter.name,
        "Dedicated VRAM: "@ + readable_text(adapter.dedicated_video_memory_bytes as nat),
        "Shared System Memory: "@ + readable_text(adapter.shared_system_memory_bytes as nat),
    ]
}

/// The lines shown for `adapters`, adapter after adapter.
pub open spec fn gpu_lines(adapters: Seq<GraphicsAdapterView>) -> Seq<Seq<char>>
    decreases adapters.len(),
{
    if adapters.len() == 0 {
        Seq::empty()
    } else {
        gpu_lines(adapters.drop_last()) + adapter_lines(adapters.last())
    }
}

/// The lines shown for what the platform lists: those of the adapters that
/// are reported on, and none where the graphics subsystem was out of reach.
pub open spec fn graphics_lines(listing: Option<Seq<AdapterDescriptionView>>) -> Seq<Seq<char>> {
    match listing {
        Some(descriptions) => gpu_lines(enumerated(descriptions)),
        None => Seq::empty(),
    }
}

/// Renders three lines for each adapter, in the order given: "GPU", the
/// position and the name; the video memory; the shared system memory. Both
/// sizes are shown in their largest sensible unit.
pub fn render_adapters(adapters: &Vec<GraphicsAdapter>) -> (lines: Vec<String>)
    ensures
        lines.deep_view() == gpu_lines(adapters.deep_view()),
{
    let mut lines: Vec<String> = Vec::new();
    let mut i: usize = 0;
    while i < adapters.len()
        invariant
            i <= adapters.len(),
            lines.deep_view() == gpu_lines(adapters.deep_view().take(i as int)),
        decreases adapters.len() - i,
    {
        let adapter = &adapters[i];
        let ghost earlier = lines.deep_view();

        let mut title = String::from_str("GPU ");
        push_decimal(&mut title, adapter.index as u64);
        title.append(": ");
        title.append(adapter.name.as_str());
        lines.push(title);

        let mut dedicated = String::from_str("Dedicated VRAM: ");
        push_readable(&mut dedicated, adapter.dedicated_video_memory_bytes);
        lines.push(dedicated);

        let mut shared = String::from_str("Shared System Memory: ");
        push_readable(&mut shared, adapter.shared_system_memory_bytes);
        lines.push(shared);

        proof {
            let now = adapters.deep_view().take(i + 1);
            assert(now.drop_last() =~= adapters.deep_view().take(i as int));
            assert(now.last() == adapter@);
            assert(lines.deep_view() =~= earlier + adapter_lines(adapter@));
        }
        i = i + 1;
    }
    assert(adapters.deep_view().take(i as int) =~= adapters.deep_view());
    lines
}

/// Renders the adapters that are reported on, out of what the platform
/// lists. Where the graphics subsystem was out of reach there is no list,
/// and the whole operation fails.
pub fn print_gpus(listing: &Option<Vec<AdapterDescription>>) -> (rendered: Result<
    Vec<String>,
    GraphicsUnavailableError,
>)
    ensures
        rendered is Err <==> listing is None,
        rendered matches Ok(lines) ==> lines.deep_view() == graphics_lines(listing.deep_view()),
{
    match listing {
        Some(descriptions) => {
            let adapters = enumerate(descriptions);
            Ok(render_adapters(&adapters))
        },
        None => Err(GraphicsUnavailableError),
    }
}

/// The graphics section of the report: the lines of `print_gpus`, and no
/// line at all where the graphics subsystem was out of reach.
pub fn get_graphics_info(listing: &Option<Vec<AdapterDescription>>) -> (lines: Vec<String>)
    ensures
        lines.deep_view() == graphics_lines(listing.deep_view()),
{
    match print_gpus(listing) {
        Ok(lines) => lines,
        Err(_) => {
            let lines: Vec<String> = Vec::new();
            assert(lines.deep_view() =~= Seq::<Seq<char>>::empty());
            lines
        },
    }
}

} // verus!
