use host_telemetry::adapter_walk::{AdapterProbe, AdapterWalk};
use host_telemetry::graphics::{
    decode_adapter_name, enumerate, get_graphics_info, is_software_adapter, print_gpus,
    render_adapters, AdapterDescription, GraphicsAdapter, GraphicsUnavailableError,
    ADAPTER_FLAG_SOFTWARE,
};

const GIB: u64 = 1 << 30;

/// A name in a buffer of 128 code units, padded with NUL.
fn buffer(name: &str) -> Vec<u16> {
    let mut units: Vec<u16> = name.encode_utf16().collect();
    assert!(units.len() <= 128);
    units.resize(128, 0);
    units
}

fn description(name: &str, flags: u32, dedicated: u64, shared: u64) -> AdapterDescription {
    AdapterDescription {
        description: buffer(name),
        flags,
        dedicated_video_memory: dedicated,
        shared_system_memory: shared,
    }
}

fn fixture() -> Vec<AdapterDescription> {
    vec![
        description("Microsoft Basic Render Driver", ADAPTER_FLAG_SOFTWARE, GIB, 8 * GIB),
        description("Virtual Display", 0, 0, 4 * GIB),
        description("NVIDIA GeForce RTX 3070", 0, 8 * GIB, 16 * GIB),
    ]
}

#[test]
fn only_the_valid_adapter_is_enumerated() {
    let adapters = enumerate(&fixture());
    assert_eq!(adapters.len(), 1);
    let adapter = &adapters[0];
    assert_eq!(adapter.index, 2);
    assert_eq!(adapter.name, "NVIDIA GeForce RTX 3070");
    assert_eq!(adapter.dedicated_video_memory_bytes, 8 * GIB);
    assert_eq!(adapter.shared_system_memory_bytes, 16 * GIB);
    assert!(!adapter.is_software);
    assert!(adapter.is_retained());
}

#[test]
fn positions_count_the_adapters_that_are_passed_over() {
    let descriptions = vec![
        description("First", 0, 2 * GIB, 0),
        description("Software", ADAPTER_FLAG_SOFTWARE, 2 * GIB, 0),
        description("Third", 0, 512, 0),
        description("Empty", 0, 0, 0),
        description("Fifth", 1, 1, 1),
    ];
    let adapters = enumerate(&descriptions);
    let found: Vec<(u32, &str)> =
        adapters.iter().map(|adapter| (adapter.index, adapter.name.as_str())).collect();
    assert_eq!(found, vec![(0, "First"), (2, "Third"), (4, "Fifth")]);
}

#[test]
fn an_empty_list_has_no_adapters() {
    assert!(enumerate(&vec![]).is_empty());
    assert!(render_adapters(&vec![]).is_empty());
}

#[test]
fn a_software_adapter_is_told_by_its_flag_alone() {
    assert!(!is_software_adapter(0));
    assert!(!is_software_adapter(1));
    assert!(is_software_adapter(2));
    assert!(is_software_adapter(3));
    assert!(!is_software_adapter(4));
    assert!(is_software_adapter(u32::MAX));
    let software_with_memory =
        GraphicsAdapter::from_description(0, &description("Warp", 3, GIB, GIB));
    assert!(software_with_memory.is_software);
    assert!(!software_with_memory.is_retained());
    let hardware_without_memory =
        GraphicsAdapter::from_description(7, &description("Stub", 1, 0, GIB));
    assert!(!hardware_without_memory.is_software);
    assert!(!hardware_without_memory.is_retained());
    assert_eq!(hardware_without_memory.index, 7);
}

#[test]
fn a_name_ends_at_the_first_nul() {
    assert_eq!(decode_adapter_name(&buffer("Intel(R) UHD Graphics")), "Intel(R) UHD Graphics");
    let mut units = buffer("Radeon");
    units[10] = 'X' as u16;
    units[127] = 'Y' as u16;
    assert_eq!(decode_adapter_name(&units), "Radeon");
    assert_eq!(decode_adapter_name(&buffer("")), "");
    assert_eq!(decode_adapter_name(&vec![]), "");
    assert_eq!(decode_adapter_name(&vec![0, 65, 66]), "");
}

#[test]
fn a_name_without_nul_fills_the_buffer() {
    let units: Vec<u16> = vec!['A' as u16; 128];
    assert_eq!(decode_adapter_name(&units), "A".repeat(128));
    assert_eq!(decode_adapter_name(&vec![71, 80, 85]), "GPU");
}

#[test]
fn a_name_is_decoded_from_utf16() {
    assert_eq!(decode_adapter_name(&buffer("Radeon\u{2122} Pro")), "Radeon\u{2122} Pro");
    // A pair of surrogates is one character.
    assert_eq!(decode_adapter_name(&vec![0xd83d, 0xde00, 0]), "\u{1f600}");
    // A surrogate without its partner is replaced.
    assert_eq!(decode_adapter_name(&vec![65, 0xd800, 66, 0]), "A\u{fffd}B");
    assert_eq!(decode_adapter_name(&vec![0xdc00]), "\u{fffd}");
}

#[test]
fn each_adapter_is_rendered_in_three_lines() {
    let adapters = enumerate(&fixture());
    assert_eq!(
        render_adapters(&adapters),
        vec![
            "GPU 2: NVIDIA GeForce RTX 3070".to_string(),
            "Dedicated VRAM: 8 GB".to_string(),
            "Shared System Memory: 16 GB".to_string(),
        ]
    );
}

#[test]
fn adapters_are_rendered_as_given() {
    let adapters = vec![
        GraphicsAdapter {
            index: 10,
            name: "Arc A770".to_string(),
            dedicated_video_memory_bytes: 1536,
            shared_system_memory_bytes: 0,
            is_software: false,
        },
        GraphicsAdapter {
            index: u32::MAX,
            name: String::new(),
            dedicated_video_memory_bytes: u64::MAX,
            shared_system_memory_bytes: 1023,
            is_software: true,
        },
    ];
    assert_eq!(
        render_adapters(&adapters),
        vec![
            "GPU 10: Arc A770".to_string(),
            "Dedicated VRAM: 2 KB".to_string(),
            "Shared System Memory: 0 B".to_string(),
            "GPU 4294967295: ".to_string(),
            "Dedicated VRAM: 16777216 TB".to_string(),
            "Shared System Memory: 1023 B".to_string(),
        ]
    );
}

#[test]
fn an_unreachable_graphics_subsystem_fails_the_operation() {
    assert_eq!(print_gpus(&None), Err(GraphicsUnavailableError));
    assert!(get_graphics_info(&None).is_empty());
}

#[test]
fn a_reachable_graphics_subsystem_gives_the_lines() {
    let expected = vec![
        "GPU 2: NVIDIA GeForce RTX 3070".to_string(),
        "Dedicated VRAM: 8 GB".to_string(),
        "Shared System Memory: 16 GB".to_string(),
    ];
    assert_eq!(print_gpus(&Some(fixture())), Ok(expected.clone()));
    assert_eq!(get_graphics_info(&Some(fixture())), expected);
    assert_eq!(print_gpus(&Some(vec![])), Ok(vec![]));
}

/// Walks along `answers` as a platform would give them, one for each
/// position asked for, and lists the positions asked for.
fn walk_along(answers: &[AdapterProbe]) -> (Vec<u32>, AdapterWalk) {
    let mut walk = AdapterWalk::new();
    let mut asked = Vec::new();
    while let Some(position) = walk.next_position() {
        asked.push(position);
        let answer = answers.get(position as usize).cloned().unwrap_or(AdapterProbe::NoAdapter);
        walk.record(answer);
    }
    (asked, walk)
}

fn names(descriptions: &[AdapterDescription]) -> Vec<String> {
    descriptions.iter().map(|d| decode_adapter_name(&d.description)).collect()
}

#[test]
fn a_walk_asks_for_each_position_in_turn() {
    let answers: Vec<AdapterProbe> = fixture().into_iter().map(AdapterProbe::Described).collect();
    let (asked, walk) = walk_along(&answers);
    assert_eq!(asked, vec![0, 1, 2, 3]);
    assert_eq!(walk.next_position(), None);
    let recorded = walk.into_descriptions();
    assert_eq!(names(&recorded), names(&fixture()));
    let adapters = enumerate(&recorded);
    assert_eq!(adapters.len(), 1);
    assert_eq!(adapters[0].index, 2);
}

#[test]
fn a_walk_over_no_adapters_ends_at_once() {
    let (asked, walk) = walk_along(&[]);
    assert_eq!(asked, vec![0]);
    assert_eq!(walk.next_position(), None);
    assert!(walk.into_descriptions().is_empty());
}

#[test]
fn a_walk_ends_at_the_first_answer_that_is_no_description() {
    let answers = vec![
        AdapterProbe::Described(description("First", 0, GIB, 0)),
        AdapterProbe::Unreadable,
        AdapterProbe::Described(description("Third", 0, GIB, 0)),
    ];
    let (asked, walk) = walk_along(&answers);
    assert_eq!(asked, vec![0, 1]);
    assert_eq!(names(&walk.into_descriptions()), vec!["First".to_string()]);

    let answers = vec![
        AdapterProbe::NoAdapter,
        AdapterProbe::Described(description("Second", 0, GIB, 0)),
    ];
    let (asked, walk) = walk_along(&answers);
    assert_eq!(asked, vec![0]);
    assert!(walk.into_descriptions().is_empty());
}

#[test]
fn a_walk_that_has_ended_records_nothing_more() {
    let mut walk = AdapterWalk::new();
    assert_eq!(walk.next_position(), Some(0));
    walk.record(AdapterProbe::Described(description("First", 0, GIB, 0)));
    assert_eq!(walk.next_position(), Some(1));
    walk.record(AdapterProbe::NoAdapter);
    assert_eq!(walk.next_position(), None);
    walk.record(AdapterProbe::Described(description("Late", 0, GIB, 0)));
    assert_eq!(walk.next_position(), None);
    assert_eq!(names(&walk.into_descriptions()), vec!["First".to_string()]);
}
