use shard_sim::index::AssignmentError;
use shard_sim::index::GetShardError;
use shard_sim::index::Index;

#[test]
fn index_it_works() {
    let index = Index::new(0, 100, 512);
    assert_eq!(index.len(), 100);
    assert_eq!(index.weight(), 51200);
    assert_eq!(index.num_shards(), 1);
    assert_eq!(
        index.shard(Index::root_shard_id()).unwrap().num_vectors,
        100
    );
}

#[test]
fn new_many_works() {
    let index = Index::new_from_shards(0, &[50, 75], 512);
    let ids = index.shard_ids();
    assert_eq!(index.num_shards(), 2);
    assert_eq!(ids.len(), 2);
    assert_eq!(index.shard(ids[0]).unwrap().num_vectors, 50);
    assert_eq!(index.shard(ids[1]).unwrap().num_vectors, 75);
}

#[test]
fn shard_assignment_works() {
    let mut index = Index::new(0, 100, 512);
    let old_shard_id = Index::root_shard_id();
    let new_shard_id = index.create_empty_shard();
    index.move_data(old_shard_id, new_shard_id, 100).unwrap();
    assert_eq!(index.shard(old_shard_id).unwrap().num_vectors, 0);
    assert_eq!(index.shard(new_shard_id).unwrap().num_vectors, 100);
}

#[test]
fn two_shards_scenario() {
    let index = Index::new_from_shards(0, &[50, 75], 512);
    assert_eq!(index.num_shards(), 2);
    assert_eq!(index.shard_ids(), vec![1, 2]);
    assert_eq!(index.shard(1).unwrap().num_vectors, 50);
    assert_eq!(index.shard(2).unwrap().num_vectors, 75);
    assert_eq!(index.len(), 125);
    assert_eq!(index.weight(), 125 * 512);
}

#[test]
fn root_then_empty_shard_scenario() {
    let mut index = Index::new(0, 100, 512);
    assert_eq!(Index::root_shard_id(), 1);
    assert_eq!(index.shard_ids(), vec![1]);
    let new_id = index.create_empty_shard();
    assert_eq!(new_id, 2);
    index.move_data(1, 2, 100).unwrap();
    assert_eq!(index.shard(1).unwrap().num_vectors, 0);
    assert_eq!(index.shard(2).unwrap().num_vectors, 100);
}

#[test]
fn empty_shard_list_still_has_root() {
    let index = Index::new_from_shards(3, &[], 256);
    assert_eq!(index.num_shards(), 1);
    assert_eq!(index.len(), 0);
    assert!(index.is_empty());
    let root = index.shard(1).unwrap();
    assert_eq!(root.num_vectors, 0);
    assert_eq!(root.vector_length, 256);
    assert_eq!(root.index_id, 3);
}

#[test]
fn created_ids_strictly_increase() {
    let mut index = Index::new_from_shards(0, &[10, 20, 30], 64);
    let first = index.create_empty_shard();
    let second = index.create_empty_shard();
    let third = index.create_empty_shard();
    assert_eq!(first, 4);
    assert_eq!(second, 5);
    assert_eq!(third, 6);
    assert!(first < second && second < third);
    assert_eq!(index.shard_ids(), vec![1, 2, 3, 4, 5, 6]);
}

#[test]
fn shard_ids_ascending_and_complete() {
    let mut index = Index::new_from_shards(0, &[5, 6, 7, 8], 32);
    index.create_empty_shard();
    let ids = index.shard_ids();
    assert_eq!(ids.len(), index.num_shards());
    for pair in ids.windows(2) {
        assert!(pair[0] < pair[1]);
    }
}

#[test]
fn move_data_round_trip_restores_counts() {
    let mut index = Index::new_from_shards(0, &[80, 20], 128);
    index.move_data(1, 2, 15).unwrap();
    assert_eq!(index.shard(1).unwrap().num_vectors, 65);
    assert_eq!(index.shard(2).unwrap().num_vectors, 35);
    index.move_data(2, 1, 15).unwrap();
    assert_eq!(index.shard(1).unwrap().num_vectors, 80);
    assert_eq!(index.shard(2).unwrap().num_vectors, 20);
}

#[test]
fn move_data_missing_source_fails_without_mutation() {
    let mut index = Index::new_from_shards(0, &[40, 60], 128);
    let result = index.move_data(9, 1, 10);
    assert_eq!(
        result.unwrap_err(),
        AssignmentError::ShardNotFound { shard_id: 9 }
    );
    assert_eq!(index.shard(1).unwrap().num_vectors, 40);
    assert_eq!(index.shard(2).unwrap().num_vectors, 60);
}

#[test]
fn move_data_missing_target_fails_without_mutation() {
    let mut index = Index::new_from_shards(0, &[40, 60], 128);
    let result = index.move_data(1, 9, 10);
    assert_eq!(
        result.unwrap_err(),
        AssignmentError::ShardNotFound { shard_id: 9 }
    );
    assert_eq!(index.shard(1).unwrap().num_vectors, 40);
    assert_eq!(index.shard(2).unwrap().num_vectors, 60);
}

#[test]
fn move_data_source_too_small_fails_without_mutation() {
    let mut index = Index::new_from_shards(0, &[40, 60], 128);
    let result = index.move_data(1, 2, 41);
    assert_eq!(result.unwrap_err(), AssignmentError::SourceShardTooSmall);
    assert_eq!(index.shard(1).unwrap().num_vectors, 40);
    assert_eq!(index.shard(2).unwrap().num_vectors, 60);
}

#[test]
fn shard_lookup_missing_fails() {
    let index = Index::new(0, 10, 16);
    assert_eq!(
        index.shard(2).unwrap_err(),
        GetShardError::ShardNotFound { shard_id: 2 }
    );
}

#[test]
fn get_shard_mut_edits_one_shard() {
    let mut index = Index::new_from_shards(0, &[10, 20], 16);
    {
        let shard = index.get_shard_mut(2).unwrap();
        shard.num_vectors = 99;
    }
    assert_eq!(index.shard(1).unwrap().num_vectors, 10);
    assert_eq!(index.shard(2).unwrap().num_vectors, 99);
    assert_eq!(
        index.get_shard_mut(5).unwrap_err(),
        GetShardError::ShardNotFound { shard_id: 5 }
    );
    // The registry's cached aggregate is not kept in sync with shard edits.
    assert_eq!(index.len(), 30);
}

#[test]
fn assignment_measures() {
    let index = Index::new_from_shards(0, &[12], 10);
    let shard = index.shard(1).unwrap();
    assert_eq!(shard.weight(), 120);
    assert_eq!(shard.len(), 120);
    assert!(!shard.is_empty());
    let mut index = index;
    let empty_id = index.create_empty_shard();
    assert!(index.shard(empty_id).unwrap().is_empty());
}

#[test]
fn assignments_follow_id_order() {
    let index = Index::new_from_shards(0, &[3, 1, 2], 8);
    let all = index.assignments();
    assert_eq!(all.len(), 3);
    assert_eq!(all[0].shard_id, 1);
    assert_eq!(all[1].shard_id, 2);
    assert_eq!(all[2].shard_id, 3);
    assert_eq!(all[0].num_vectors, 3);
    assert_eq!(all[1].num_vectors, 1);
    assert_eq!(all[2].num_vectors, 2);
    assert_eq!(index.shard_at(1).shard_id, 2);
}
