use interpol::event::Event;
use interpol::merge::{
    concat_traces, entry_role, merge_traces, output_style, select_inputs, EntryRole,
    OutputStyle, CONSOLIDATED_FILE,
};
use interpol::mpi_events::management::{MpiFinalize, MpiInit};
use interpol::mpi_events::point_to_point::{MpiRecv, MpiSend};
use interpol::mpi_events::synchronization::MpiWait;
use interpol::types::Usecs;

fn t(x: f64) -> Usecs {
    Usecs::from_bits(x.to_bits())
}

fn rank_traces() -> Vec<Vec<Event>> {
    vec![
        vec![
            Event::MpiInit(MpiInit::new(0, 0, t(1.0))),
            Event::MpiSend(MpiSend::new(0, 1, 8, 0, 0, 10, 3)),
            Event::MpiFinalize(MpiFinalize::new(0, 50, t(9.0))),
        ],
        vec![
            Event::MpiInit(MpiInit::new(1, 0, t(1.5))),
            Event::MpiRecv(MpiRecv::new(1, 0, 8, 0, 0, 12, 4)),
            Event::MpiFinalize(MpiFinalize::new(1, 55, t(9.5))),
        ],
    ]
}

fn count(s: &[Event], e: &Event) -> usize {
    s.iter().filter(|x| *x == e).count()
}

#[test]
fn two_ranks_merge_in_timestamp_order() {
    let traces = rank_traces();
    let merged = merge_traces(&traces);
    let stamps: Vec<u64> = merged.iter().map(|e| e.tsc()).collect();
    assert_eq!(stamps, vec![0, 0, 10, 12, 50, 55]);
    assert_eq!(merged[2], Event::MpiSend(MpiSend::new(0, 1, 8, 0, 0, 10, 3)));
    assert_eq!(merged[3], Event::MpiRecv(MpiRecv::new(1, 0, 8, 0, 0, 12, 4)));
    assert_eq!(merged[4], Event::MpiFinalize(MpiFinalize::new(0, 50, t(9.0))));
    assert_eq!(merged[5], Event::MpiFinalize(MpiFinalize::new(1, 55, t(9.5))));
    let inits = &merged[0..2];
    assert_eq!(count(inits, &Event::MpiInit(MpiInit::new(0, 0, t(1.0)))), 1);
    assert_eq!(count(inits, &Event::MpiInit(MpiInit::new(1, 0, t(1.5)))), 1);
}

#[test]
fn merge_keeps_every_record_with_multiplicity() {
    let dup = Event::MpiWait(MpiWait::new(2, 5, 7, 1));
    let traces = vec![vec![dup, dup], vec![], vec![Event::MpiWait(MpiWait::new(3, 5, 3, 1)), dup]];
    let merged = merge_traces(&traces);
    assert_eq!(merged.len(), 4);
    assert_eq!(count(&merged, &dup), 3);
    let stamps: Vec<u64> = merged.iter().map(|e| e.tsc()).collect();
    assert_eq!(stamps, vec![3, 7, 7, 7]);
}

#[test]
fn merging_nothing_gives_nothing() {
    assert!(merge_traces(&Vec::new()).is_empty());
    assert!(merge_traces(&vec![Vec::new(), Vec::new()]).is_empty());
}

#[test]
fn resorting_a_sorted_trace_keeps_timestamps() {
    let once = merge_traces(&rank_traces());
    let twice = merge_traces(&vec![once.clone()]);
    let a: Vec<u64> = once.iter().map(|e| e.tsc()).collect();
    let b: Vec<u64> = twice.iter().map(|e| e.tsc()).collect();
    assert_eq!(a, b);
    assert_eq!(once[2..], twice[2..]);
}

#[test]
fn concatenation_keeps_rank_order() {
    let all = concat_traces(&rank_traces());
    let stamps: Vec<u64> = all.iter().map(|e| e.tsc()).collect();
    assert_eq!(stamps, vec![0, 10, 50, 0, 12, 55]);
}

#[test]
fn directory_entries_get_their_roles() {
    assert_eq!(entry_role("interpol_traces.json"), EntryRole::Consolidated);
    assert_eq!(entry_role(CONSOLIDATED_FILE), EntryRole::Consolidated);
    assert_eq!(entry_role("rank0_traces.json"), EntryRole::RankTrace);
    assert_eq!(entry_role("a.json"), EntryRole::RankTrace);
    assert_eq!(entry_role(".json"), EntryRole::Other);
    assert_eq!(entry_role("notes.txt"), EntryRole::Other);
    assert_eq!(entry_role("json"), EntryRole::Other);
    assert_eq!(entry_role(""), EntryRole::Other);
}

#[test]
fn rerun_skips_previous_consolidated_trace() {
    let first = vec![String::from("rank1_traces.json"), String::from("rank0_traces.json")];
    let second = vec![
        String::from("rank1_traces.json"),
        String::from("interpol_traces.json"),
        String::from("rank0_traces.json"),
    ];
    assert_eq!(select_inputs(&first), first);
    assert_eq!(select_inputs(&second), first);
}

#[test]
fn selection_drops_foreign_files() {
    let names = vec![
        String::from("README"),
        String::from("rank3_traces.json"),
        String::from("rank3_traces.json.bak"),
    ];
    assert_eq!(select_inputs(&names), vec![String::from("rank3_traces.json")]);
}

#[test]
fn output_style_follows_setting() {
    assert_eq!(output_style(Some("readable")), OutputStyle::Pretty);
    assert_eq!(output_style(Some("Readable")), OutputStyle::Compact);
    assert_eq!(output_style(Some("")), OutputStyle::Compact);
    assert_eq!(output_style(None), OutputStyle::Compact);
}
