use voxel_runtime::ecs::{Entity, SpawnError, World};

#[test]
fn spawn_voxel_appends_in_order() {
    let mut w = World::new();
    assert_eq!(w.len(), 0);
    let h0 = w.spawn_voxel(10);
    let h1 = w.spawn_voxel(20);
    assert_eq!(h0, 0);
    assert_eq!(h1, 1);
    let es = w.iter();
    assert_eq!(es.len(), 2);
    assert_eq!(es[0], Entity::Voxel(10));
    assert_eq!(es[1], Entity::Voxel(20));
}

#[test]
fn spawn_chunk_empty_is_rejected() {
    let mut w = World::new();
    let r = w.spawn_chunk(Vec::new());
    assert_eq!(r, Err(SpawnError::EmptyChunk));
    assert_eq!(w.len(), 0);
    assert!(w.iter().is_empty());
}

#[test]
fn spawn_chunk_keeps_order_between_neighbours() {
    let mut w = World::new();
    let before = w.spawn_voxel(100);
    let chunk = w.spawn_chunk(vec![41, 42]).unwrap();
    let after = w.spawn_voxel(200);
    assert_eq!((before, chunk, after), (0, 1, 2));
    let es = w.iter();
    assert_eq!(es.len(), 3);
    assert_eq!(es[0], Entity::Voxel(100));
    assert_eq!(es[1], Entity::Chunk(vec![41, 42]));
    assert_eq!(es[2], Entity::Voxel(200));
}

#[test]
fn spawn_then_iterate_end_to_end() {
    let mut w = World::new();
    let hv = w.spawn_voxel(7);
    let hc = w.spawn_chunk(vec![1, 2, 3]).unwrap();
    assert_eq!(hv, 0);
    assert_eq!(hc, 1);
    let es = w.iter();
    assert_eq!(es.len(), 2);
    assert_eq!(es[0], Entity::Voxel(7));
    assert_eq!(es[1], Entity::Chunk(vec![1, 2, 3]));
}

#[test]
fn iteration_is_restartable() {
    let mut w = World::new();
    w.spawn_voxel(1);
    w.spawn_chunk(vec![2]).unwrap();
    let first: Vec<&Entity> = w.iter().iter().collect();
    let second: Vec<&Entity> = w.iter().iter().collect();
    assert_eq!(first, second);
}

#[test]
fn handles_look_entities_up() {
    let mut w = World::new();
    let hv = w.spawn_voxel(9);
    let hc = w.spawn_chunk(vec![5, 6]).unwrap();
    assert_eq!(w.get(hv), Some(&Entity::Voxel(9)));
    assert_eq!(w.get(hc), Some(&Entity::Chunk(vec![5, 6])));
    assert_eq!(w.get(2), None);
}

#[test]
fn rejected_spawn_leaves_world_unchanged() {
    let mut w = World::new();
    w.spawn_voxel(3);
    let r = w.spawn_chunk(Vec::new());
    assert_eq!(r, Err(SpawnError::EmptyChunk));
    let es = w.iter();
    assert_eq!(es.len(), 1);
    assert_eq!(es[0], Entity::Voxel(3));
}
