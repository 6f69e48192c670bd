//! Chunk claiming: partitioning of a group's flat index space.

use ispc::task::Group;

#[test]
fn claims_tile_the_index_space() {
    // Group over (4,1,1) claimed with desired size 2: [0,2), then [2,4),
    // then nothing.
    let mut g = Group::new((4, 1, 1));
    let c1 = g.get_chunk(2).unwrap();
    assert_eq!((c1.start, c1.end), (0, 2));
    let c2 = g.get_chunk(2).unwrap();
    assert_eq!((c2.start, c2.end), (2, 4));
    assert!(g.get_chunk(2).is_none());
}

#[test]
fn last_chunk_is_clipped_to_extent() {
    let mut g = Group::new((3, 1, 1));
    let c = g.get_chunk(5).unwrap();
    assert_eq!((c.start, c.end), (0, 3));
    assert!(g.get_chunk(5).is_none());
}

#[test]
fn uneven_claims_leave_no_gap_and_no_overlap() {
    let mut g = Group::new((7, 1, 1));
    let mut covered = [false; 7];
    loop {
        match g.get_chunk(3) {
            Some(c) => {
                for i in c.start..c.end {
                    assert!(!covered[i as usize], "index {} claimed twice", i);
                    covered[i as usize] = true;
                }
            }
            None => break,
        }
    }
    assert!(covered.iter().all(|&b| b));
}

#[test]
fn exhausted_claim_does_not_count_a_chunk() {
    // Only a claim that actually returns work may bump the launch
    // counter, or a group could look unfinished forever.
    let mut g = Group::new((2, 1, 1));
    let _ = g.get_chunk(2).unwrap();
    assert_eq!(g.chunks_launched, 1);
    assert!(g.get_chunk(2).is_none());
    assert_eq!(g.chunks_launched, 1);
}

#[test]
fn group_finished_only_when_claimed_and_executed() {
    let mut g = Group::new((4, 1, 1));
    assert!(!g.is_finished());
    let _ = g.get_chunk(2).unwrap();
    let _ = g.get_chunk(2).unwrap();
    // everything claimed, nothing executed yet
    assert!(!g.is_finished());
    assert!(!g.has_tasks());
    g.finish_chunk();
    assert!(!g.is_finished());
    g.finish_chunk();
    assert!(g.is_finished());
}

#[test]
fn draining_yields_the_whole_partition_in_order() {
    let mut g = Group::new((7, 1, 1));
    let all = g.chunks(3);
    let ranges: Vec<(i32, i32)> = all.iter().map(|c| (c.start, c.end)).collect();
    assert_eq!(ranges, vec![(0, 3), (3, 6), (6, 7)]);
    assert!(!g.has_tasks());
    assert_eq!(g.chunks_launched, 3);
}
