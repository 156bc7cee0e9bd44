use compositing::msg::{Epoch, PipelineId};
use compositing::pipeline::{Entry, PipelineDetails, PipelineMap};

fn id(index: u32) -> PipelineId {
    PipelineId { namespace_id: 0, index }
}

#[test]
fn a_new_map_is_empty() {
    let map: PipelineMap<Epoch> = PipelineMap::new();
    assert!(map.is_empty());
    assert_eq!(map.len(), 0);
    assert_eq!(map.get(id(1)), None);
    assert_eq!(map.position(id(1)), None);
}

#[test]
fn values_are_found_by_pipeline() {
    let mut map = PipelineMap::new();
    map.insert(id(1), Epoch(10));
    map.insert(id(2), Epoch(20));
    map.insert(PipelineId { namespace_id: 1, index: 1 }, Epoch(30));
    assert_eq!(map.len(), 3);
    assert_eq!(map.get(id(1)), Some(Epoch(10)));
    assert_eq!(map.get(id(2)), Some(Epoch(20)));
    assert_eq!(map.get(PipelineId { namespace_id: 1, index: 1 }), Some(Epoch(30)));
    assert_eq!(map.get(id(3)), None);
    assert_eq!(map.position(id(2)), Some(1));
    assert_eq!(map.entry(1), Entry { id: id(2), value: Epoch(20) });
}

#[test]
fn inserting_again_replaces_in_place() {
    let mut map = PipelineMap::new();
    map.insert(id(1), Epoch(10));
    map.insert(id(2), Epoch(20));
    map.insert(id(1), Epoch(11));
    assert_eq!(map.len(), 2);
    assert_eq!(map.get(id(1)), Some(Epoch(11)));
    assert_eq!(map.position(id(1)), Some(0));
    assert_eq!(map.get(id(2)), Some(Epoch(20)));
}

#[test]
fn removing_forgets_one_pipeline_and_keeps_the_order() {
    let mut map = PipelineMap::new();
    map.insert(id(1), Epoch(10));
    map.insert(id(2), Epoch(20));
    map.insert(id(3), Epoch(30));
    map.remove(id(2));
    assert_eq!(map.len(), 2);
    assert_eq!(map.get(id(2)), None);
    assert_eq!(map.entry(0).id, id(1));
    assert_eq!(map.entry(1).id, id(3));
    map.remove(id(7));
    assert_eq!(map.len(), 2);
}

#[test]
fn a_map_can_be_made_from_entries() {
    let map = PipelineMap::from_entries(vec![
        Entry { id: id(4), value: Epoch(1) },
        Entry { id: id(5), value: Epoch(2) },
    ]);
    assert_eq!(map.len(), 2);
    assert_eq!(map.get(id(5)), Some(Epoch(2)));
}

#[test]
fn an_unknown_pipeline_is_assumed_visible_and_inert() {
    let details = PipelineDetails::new();
    assert_eq!(details.pipeline, None);
    assert!(!details.animations_running);
    assert!(!details.animation_callbacks_running);
    assert!(details.visible);
}
