//! The 3-D decomposition of flat task indices and its enumeration order.

use ispc::task::Group;

#[test]
fn indices_decompose_as_expected() {
    let mut g = Group::new((3, 2, 2));
    let c = g.get_chunk(12).unwrap();
    assert_eq!(c.task_indices(0), (0, 0, 0));
    assert_eq!(c.task_indices(1), (1, 0, 0));
    assert_eq!(c.task_indices(3), (0, 1, 0));
    assert_eq!(c.task_indices(7), (1, 0, 1));
    assert_eq!(c.task_indices(11), (2, 1, 1));
}

#[test]
fn decompose_then_recompose_is_identity() {
    let (nx, ny, nz) = (5, 3, 4);
    let mut g = Group::new((nx, ny, nz));
    let c = g.get_chunk((nx * ny * nz) as usize).unwrap();
    for id in 0..nx * ny * nz {
        let (x, y, z) = c.task_indices(id);
        assert!(0 <= x && x < nx);
        assert!(0 <= y && y < ny);
        assert!(0 <= z && z < nz);
        assert_eq!(x + y * nx + z * nx * ny, id);
    }
}

#[test]
fn enumeration_matches_nested_loops() {
    // Walking ids from 0 upward visits (x, y, z) exactly as nested loops
    // over z, then y, then x would.
    let (nx, ny, nz) = (3, 2, 2);
    let mut g = Group::new((nx, ny, nz));
    let c = g.get_chunk((nx * ny * nz) as usize).unwrap();
    let mut id = 0;
    for z in 0..nz {
        for y in 0..ny {
            for x in 0..nx {
                assert_eq!(c.task_indices(id), (x, y, z));
                assert_eq!(x + y * nx + z * nx * ny, id);
                id += 1;
            }
        }
    }
}

#[test]
fn task_args_cover_the_chunk_in_order() {
    let mut g = Group::new((2, 2, 2));
    let c = g.get_chunk(8).unwrap();
    let args = c.task_args();
    assert_eq!(args.len(), 8);
    for (k, a) in args.iter().enumerate() {
        let id = k as i32;
        assert_eq!(a.task_index, id);
        assert_eq!(a.task_count, 8);
        assert_eq!(a.index0, id % 2);
        assert_eq!(a.index1, (id / 2) % 2);
        assert_eq!(a.index2, id / 4);
        assert_eq!((a.count0, a.count1, a.count2), (2, 2, 2));
    }
}

#[test]
fn task_args_of_a_partial_chunk() {
    let mut g = Group::new((4, 1, 1));
    let _first = g.get_chunk(2).unwrap();
    let second = g.get_chunk(2).unwrap();
    let args = second.task_args();
    assert_eq!(args.len(), 2);
    assert_eq!(args[0].task_index, 2);
    assert_eq!(args[1].task_index, 3);
    assert_eq!(args[0].index0, 2);
    assert_eq!(args[1].index0, 3);
    assert_eq!(args[0].task_count, 4);
}
