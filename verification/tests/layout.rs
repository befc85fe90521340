use aiauv::{Block, LayoutError, StateLayout};

const BLOCKS: [Block; 6] = [
    Block::Position,
    Block::Orientation,
    Block::JointAngles,
    Block::Velocity,
    Block::BaseIntegral,
    Block::JointIntegral,
];

#[test]
fn snake_with_eight_joints_has_forty_three_states() {
    let layout = StateLayout::new(8, true).unwrap();
    assert_eq!(layout.dim(), 43);
    assert_eq!(layout.num_joints(), 8);
    assert!(layout.has_integral());
    let starts: Vec<usize> = BLOCKS.iter().map(|b| layout.start(*b)).collect();
    assert_eq!(starts, vec![0, 3, 7, 15, 29, 35]);
    let widths: Vec<usize> = BLOCKS.iter().map(|b| layout.width(*b)).collect();
    assert_eq!(widths, vec![3, 4, 8, 14, 6, 8]);
    let ends: Vec<usize> = BLOCKS.iter().map(|b| layout.end(*b)).collect();
    assert_eq!(ends, vec![3, 7, 15, 29, 35, 43]);
}

#[test]
fn layout_without_integral_control_has_empty_integral_blocks() {
    let layout = StateLayout::new(1, false).unwrap();
    assert_eq!(layout.dim(), 15);
    assert!(!layout.has_integral());
    assert_eq!(layout.width(Block::BaseIntegral), 0);
    assert_eq!(layout.width(Block::JointIntegral), 0);
    assert_eq!(layout.start(Block::BaseIntegral), 15);
    assert_eq!(layout.start(Block::JointIntegral), 15);
}

#[test]
fn free_body_has_thirteen_states() {
    let layout = StateLayout::new(0, false).unwrap();
    assert_eq!(layout.dim(), 13);
    assert_eq!(layout.width(Block::JointAngles), 0);
    assert_eq!(layout.width(Block::Velocity), 6);
    assert_eq!(StateLayout::new(0, true).unwrap().dim(), 19);
}

#[test]
fn blocks_tile_the_state_vector() {
    for joints in [0usize, 1, 4, 8, 31] {
        for integral in [false, true] {
            let layout = StateLayout::new(joints, integral).unwrap();
            let mut at = 0;
            for block in BLOCKS {
                assert_eq!(layout.start(block), at);
                assert_eq!(layout.end(block), at + layout.width(block));
                at = layout.end(block);
            }
            assert_eq!(layout.dim(), at);
        }
    }
}

#[test]
fn every_entry_belongs_to_the_block_that_spans_it() {
    let layout = StateLayout::new(8, true).unwrap();
    for i in 0..layout.dim() {
        let block = layout.block_at(i).unwrap();
        assert!(layout.start(block) <= i && i < layout.end(block));
        for other in BLOCKS {
            if other != block {
                assert!(i < layout.start(other) || i >= layout.end(other));
            }
        }
    }
    assert_eq!(layout.block_at(43), None);
    assert_eq!(layout.block_at(usize::MAX), None);
}

#[test]
fn block_at_known_entries() {
    let layout = StateLayout::new(8, true).unwrap();
    assert_eq!(layout.block_at(0), Some(Block::Position));
    assert_eq!(layout.block_at(3), Some(Block::Orientation));
    assert_eq!(layout.block_at(6), Some(Block::Orientation));
    assert_eq!(layout.block_at(7), Some(Block::JointAngles));
    assert_eq!(layout.block_at(15), Some(Block::Velocity));
    assert_eq!(layout.block_at(28), Some(Block::Velocity));
    assert_eq!(layout.block_at(29), Some(Block::BaseIntegral));
    assert_eq!(layout.block_at(35), Some(Block::JointIntegral));
    assert_eq!(layout.block_at(42), Some(Block::JointIntegral));
    let plain = StateLayout::new(8, false).unwrap();
    assert_eq!(plain.block_at(28), Some(Block::Velocity));
    assert_eq!(plain.block_at(29), None);
}

#[test]
fn layout_too_long_to_index_is_refused() {
    assert_eq!(StateLayout::new(usize::MAX, false), Err(LayoutError::TooManyJoints));
    assert_eq!(StateLayout::new(usize::MAX / 2, false), Err(LayoutError::TooManyJoints));
    assert_eq!(StateLayout::new(usize::MAX / 3, true), Err(LayoutError::TooManyJoints));
    let joints = (usize::MAX - 13) / 2;
    let layout = StateLayout::new(joints, false).unwrap();
    assert_eq!(layout.dim(), 13 + 2 * joints);
    assert_eq!(StateLayout::new(joints + 1, false), Err(LayoutError::TooManyJoints));
    let joints = (usize::MAX - 19) / 3;
    let layout = StateLayout::new(joints, true).unwrap();
    assert_eq!(layout.dim(), 19 + 3 * joints);
    assert_eq!(StateLayout::new(joints + 1, true), Err(LayoutError::TooManyJoints));
}
